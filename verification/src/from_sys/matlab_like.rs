//! Interpreters of the MATLAB family (MATLAB, GNU Octave).
use vstd::prelude::*;
use vstd::string::StringExecFns;
use crate::from_sys::{end_out_block_spec, start_out_block_spec, FromSys};

verus! {

/// What the printing statements start with, before the start block.
pub const PRINT_HEAD: &'static str = "\nprintf(\"";

/// The statements between the two blocks: they collect every variable in a struct and print it
/// as JSON.
pub const PRINT_BODY: &'static str = "\")
vars = whos;

allVars = struct();

for k = 1:length(vars)
    name = vars(k).name;
    value = evalin('caller', name);
    
    if isnumeric(value) || islogical(value) || ischar(value) || isstring(value) || ...
       isstruct(value) || iscell(value)
        allVars.(name) = value;
        
    elseif istable(value)
        allVars.(name) = table2struct(value);
        
    elseif isdatetime(value) || isduration(value) || iscategorical(value)
        allVars.(name) = string(value);
        
    elseif iscomplex(value)
        allVars.(name) = struct('re', real(value), 'im', imag(value));
        
    elseif issparse(value)
        [i,j,s] = find(value);
        allVars.(name) = struct('i', i, 'j', j, 'value', s, 'size', size(value));
    else
        allVars.(name) = sprintf('<%s>', class(value));
    end
end

jsonString = jsonencode(allVars, 'PrettyPrint', true);
disp(jsonString);

printf(\"";

/// What the printing statements end with, after the end block.
pub const PRINT_TAIL: &'static str = "\")\n            ";

/// The statement that reads the data, a JSON text, into `input_data`.
pub const INPUT_PATTERN: &'static str = "input_data = jsondecode({});";

/// The statements with which a MATLAB-like interpreter prints all its variables as JSON
/// between the two blocks.
pub open spec fn print_pattern_spec() -> Seq<char> {
    PRINT_HEAD@ + start_out_block_spec() + PRINT_BODY@ + end_out_block_spec() + PRINT_TAIL@
}

/// Builds the system for a MATLAB-like interpreter.
pub struct MatLabLikeBuilder {
    /// The command that starts the interpreter, such as `octave`.
    pub target: String,
}

impl MatLabLikeBuilder {
    /// The system that runs scripts on the interpreter `target`: data arrives in `input_data`,
    /// and every variable is printed as JSON between the two blocks.
    pub fn build(self) -> (r: FromSys)
        ensures
            r.command() == self.target@,
            r.print_pattern() == print_pattern_spec(),
            r.input_pattern() == INPUT_PATTERN@,
            r.init_script_view() is None,
            !r.session_open(),
    {
        let mut print = String::from_str(PRINT_HEAD);
        print.append(FromSys::get_start_out_block().as_str());
        print.append(PRINT_BODY);
        print.append(FromSys::get_end_out_block().as_str());
        print.append(PRINT_TAIL);
        FromSys::new(self.target, print, String::from_str(INPUT_PATTERN))
    }
}

} // verus!
