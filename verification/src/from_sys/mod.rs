//! Running scripts on an interpreter that reads them from its standard input: how a script is
//! wrapped before it is sent, how the values are read back from the interpreter's output, and
//! when an interpreter process is started.
pub mod matlab_like;
pub mod runner;

use vstd::prelude::*;
use vstd::string::{StrSliceExecFns, StringExecFns};
use crate::json::{json_object_text, json_object_text_of, parse_json_object, parsed_json_object, JsonMap};
use crate::text::{
    insert_at, opt_str_view, opt_view, replace_all, replace_spec, rfind, rfind_spec, trim,
    trim_spec,
};
use crate::values::Values;

verus! {

/// Why running a script failed.
#[derive(Debug)]
pub enum FromSysError {
    /// Starting or stopping the interpreter failed.
    Io(std::io::Error),
    /// The interpreter failed while running the script.
    Runner(runner::Error),
    /// The output of the script does not hold its values between the two markers.
    IncorrectScriptOutput { out: String, start_marker: String, end_marker: String },
}

/// The text that a script prints before its values, with the line break written `\n`.
pub open spec fn start_out_block_spec() -> Seq<char> {
    "[script_sys output bloc] start\\n"@
}

/// The text that a script prints after its values, with the line break written `\n`.
pub open spec fn end_out_block_spec() -> Seq<char> {
    "[script_sys output bloc] end\\n"@
}

/// The line that marks the start of the values in an interpreter's output.
pub open spec fn start_marker_spec() -> Seq<char> {
    "[script_sys output bloc] start\n"@
}

/// The line that marks the end of the values in an interpreter's output.
pub open spec fn end_marker_spec() -> Seq<char> {
    "[script_sys output bloc] end\n"@
}

/// The name under which the result of a script for the interpreter `base_command` is stored.
pub open spec fn result_name_spec(base_command: Seq<char>) -> Seq<char> {
    "script_sys_"@ + base_command + "_result"@
}

/// The statement that hands the data `data_text` (a JSON object) to a script: the input
/// pattern with `{}` replaced by the data as a quoted string, or nothing when there is no data.
pub open spec fn input_statement_spec(input_value_pattern: Seq<char>, data_text: Option<Seq<char>>) -> Seq<char> {
    match data_text {
        None => Seq::empty(),
        Some(t) => replace_spec(
            input_value_pattern,
            "{}"@,
            "\""@ + replace_spec(t, "\""@, "\\\""@) + "\""@,
        ),
    }
}

/// Where the last line of `body` starts.
pub open spec fn last_line_start(body: Seq<char>) -> int {
    match rfind_spec(body, "\n"@) {
        Some(p) => p + 1,
        None => 0,
    }
}

/// The script `script` without surrounding white space, whose last line assigns its value to
/// `result_name`.
pub open spec fn assigned_body_spec(script: Seq<char>, result_name: Seq<char>) -> Seq<char> {
    let b = trim_spec(script);
    if b.len() == 0 {
        b
    } else {
        b.take(last_line_start(b)) + result_name + " = "@ + b.skip(last_line_start(b))
    }
}

/// The text sent to the interpreter for `script`: the data statement, the script assigning its
/// last value to the result name, then the pattern that prints all values between the markers.
pub open spec fn script_text_spec(
    print_value_pattern: Seq<char>,
    input_value_pattern: Seq<char>,
    base_command: Seq<char>,
    script: Seq<char>,
    data_text: Option<Seq<char>>,
) -> Seq<char> {
    "\n"@ + input_statement_spec(input_value_pattern, data_text) + "\n"@ + assigned_body_spec(
        script,
        result_name_spec(base_command),
    ) + "\n"@ + print_value_pattern + "\n"@
}

/// The JSON text of the data `data`, or none when there is no data.
pub open spec fn data_text_spec(data: Map<Seq<char>, serde_json::Value>) -> Option<Seq<char>> {
    if data.len() == 0 {
        None
    } else {
        Some(json_object_text_of(data))
    }
}

/// Where the values lie in the interpreter's output `out`: after the last start marker and
/// before the last end marker, where the first comes no later than the second.
pub open spec fn block_bounds(out: Seq<char>) -> Option<(int, int)> {
    match (rfind_spec(out, start_marker_spec()), rfind_spec(out, end_marker_spec())) {
        (Some(a), Some(b)) => if a + start_marker_spec().len() <= b {
            Some((a + start_marker_spec().len(), b))
        } else {
            None
        },
        _ => None,
    }
}

/// The text of the values in the interpreter's output `out`, where it holds them.
pub open spec fn output_block_spec(out: Seq<char>) -> Option<Seq<char>> {
    match block_bounds(out) {
        Some((a, b)) => Some(out.subrange(a, b)),
        None => None,
    }
}

/// The values that `out` holds can be read: it holds none, or they form a JSON object.
pub open spec fn output_readable(out: Seq<char>) -> bool {
    match output_block_spec(out) {
        Some(t) => parsed_json_object(t) is Some,
        None => true,
    }
}

/// The values that `out` holds, where it holds them.
pub open spec fn output_values(out: Seq<char>) -> Option<Map<Seq<char>, serde_json::Value>> {
    match output_block_spec(out) {
        Some(t) => parsed_json_object(t),
        None => None,
    }
}

/// What to do with the interpreter to run one script.
pub struct RunPlan {
    /// Start a new interpreter process first.
    pub spawn: bool,
    /// The texts to send to the interpreter, in order; the output of the last one holds the
    /// values of the script.
    pub inputs: Vec<String>,
}

impl RunPlan {
    /// The texts to send, as character sequences.
    pub open spec fn inputs_view(self) -> Seq<Seq<char>> {
        self.inputs@.map_values(|s: String| s@)
    }
}

/// The texts to send when a script, sent as `script_text`, runs with the initialisation script
/// `init`: on a new process the initialisation script goes first.
pub open spec fn planned_inputs(spawn: bool, init: Option<Seq<char>>, script_text: Seq<char>) -> Seq<Seq<char>> {
    match init {
        Some(i) => if spawn {
            seq![i, script_text]
        } else {
            seq![script_text]
        },
        None => seq![script_text],
    }
}

/// An interpreter, started by `base_command`, that scripts are sent to through its standard
/// input, and whose values are read back from its standard output.
pub struct FromSys {
    /// The command that starts the interpreter.
    pub base_command: String,
    /// The statements that print all values as JSON between the two markers.
    pub print_value_pattern: String,
    /// The statement that reads the data into the script; `{}` stands for the data.
    pub input_value_pattern: String,
    init_script: Option<String>,
    session_open: bool,
}

impl FromSys {
    /// The command that starts the interpreter.
    pub closed spec fn command(self) -> Seq<char> {
        self.base_command@
    }

    /// The statements that print all values between the markers.
    pub closed spec fn print_pattern(self) -> Seq<char> {
        self.print_value_pattern@
    }

    /// The statement that reads the data into a script.
    pub closed spec fn input_pattern(self) -> Seq<char> {
        self.input_value_pattern@
    }

    /// The initialisation script, as sent to the interpreter, where one is set.
    pub closed spec fn init_script_view(self) -> Option<Seq<char>> {
        opt_view(self.init_script)
    }

    /// Whether an interpreter process of this system runs now (and holds its state).
    pub closed spec fn session_open(self) -> bool {
        self.session_open
    }

    /// The text sent for `script` with the data `data`.
    pub open spec fn script_text(self, script: Seq<char>, data: Map<Seq<char>, serde_json::Value>) -> Seq<char> {
        script_text_spec(
            self.print_pattern(),
            self.input_pattern(),
            self.command(),
            script,
            data_text_spec(data),
        )
    }

    /// `self` and `other` have the same configuration and initialisation script.
    pub open spec fn same_conf(self, other: Self) -> bool {
        &&& self.command() == other.command()
        &&& self.print_pattern() == other.print_pattern()
        &&& self.input_pattern() == other.input_pattern()
        &&& self.init_script_view() == other.init_script_view()
    }

    /// What a run of `script` with the data `data` does in this state: whether it starts a new
    /// process, and the texts it sends (the initialisation script first on a new process).
    pub open spec fn run_plan_spec(self, script: Seq<char>, data: Map<Seq<char>, serde_json::Value>) -> (bool, Seq<Seq<char>>) {
        let spawn = !self.session_open();
        (spawn, planned_inputs(spawn, self.init_script_view(), self.script_text(script, data)))
    }

    /// What an isolated run of `script` with the data `data` does: it always starts a new
    /// process, which runs the initialisation script first.
    pub open spec fn run_script_plan_spec(self, script: Seq<char>, data: Map<Seq<char>, serde_json::Value>) -> (bool, Seq<Seq<char>>) {
        (true, planned_inputs(true, self.init_script_view(), self.script_text(script, data)))
    }

    /// A system for the interpreter `base_command`, with no initialisation script and no
    /// running process.
    pub fn new(base_command: String, print_value_pattern: String, input_value_pattern: String) -> (r: Self)
        ensures
            r.command() == base_command@,
            r.print_pattern() == print_value_pattern@,
            r.input_pattern() == input_value_pattern@,
            r.init_script_view() is None,
            !r.session_open(),
    {
        FromSys {
            base_command,
            print_value_pattern,
            input_value_pattern,
            init_script: None,
            session_open: false,
        }
    }

    /// The same configuration and initialisation script, with no running process.
    pub fn clone_conf(&self) -> (r: Self)
        ensures
            r.command() == self.command(),
            r.print_pattern() == self.print_pattern(),
            r.input_pattern() == self.input_pattern(),
            r.init_script_view() == self.init_script_view(),
            !r.session_open(),
    {
        FromSys {
            base_command: self.base_command.clone(),
            print_value_pattern: self.print_value_pattern.clone(),
            input_value_pattern: self.input_value_pattern.clone(),
            init_script: match &self.init_script {
                Some(s) => Some(s.clone()),
                None => None,
            },
            session_open: false,
        }
    }

    /// The command that starts the interpreter.
    pub fn get_base_command(&self) -> (r: &String)
        ensures
            r@ == self.command(),
    {
        &self.base_command
    }

    /// Whether an interpreter process of this system runs now.
    pub fn has_session(&self) -> (r: bool)
        ensures
            r == self.session_open(),
    {
        self.session_open
    }

    /// The initialisation script, as sent to the interpreter, where one is set.
    pub fn get_init_script(&self) -> (r: Option<&String>)
        ensures
            match r {
                Some(s) => self.init_script_view() == Some(s@),
                None => self.init_script_view() is None,
            },
    {
        match &self.init_script {
            Some(s) => Some(s),
            None => None,
        }
    }

    /// The text that a script prints before its values, with the line break written `\n`.
    pub fn get_start_out_block() -> (r: String)
        ensures
            r@ == start_out_block_spec(),
    {
        String::from_str("[script_sys output bloc] start\\n")
    }

    /// The text that a script prints after its values, with the line break written `\n`.
    pub fn get_end_out_block() -> (r: String)
        ensures
            r@ == end_out_block_spec(),
    {
        String::from_str("[script_sys output bloc] end\\n")
    }

    /// The line that marks the start of the values in the interpreter's output.
    pub fn start_marker() -> (r: String)
        ensures
            r@ == start_marker_spec(),
    {
        String::from_str("[script_sys output bloc] start\n")
    }

    /// The line that marks the end of the values in the interpreter's output; reading the
    /// output of a script stops once it holds this line.
    pub fn end_marker() -> (r: String)
        ensures
            r@ == end_marker_spec(),
    {
        String::from_str("[script_sys output bloc] end\n")
    }

    /// The name under which the result of a script is stored.
    pub fn get_result_name(&self) -> (r: String)
        ensures
            r@ == result_name_spec(self.command()),
    {
        let mut r = String::from_str("script_sys_");
        r.append(self.base_command.as_str());
        r.append("_result");
        r
    }

    /// The text sent to the interpreter for `script`, where `data_text` is the JSON text of the
    /// data handed to it, if there is any.
    pub fn compose_script(&self, script: &str, data_text: Option<&str>) -> (r: String)
        ensures
            r@ == script_text_spec(
                self.print_pattern(),
                self.input_pattern(),
                self.command(),
                script@,
                opt_str_view(data_text),
            ),
    {
        proof {
            reveal_strlit("\"");
            reveal_strlit("{}");
        }
        let input = match data_text {
            None => String::new(),
            Some(t) => {
                let escaped = replace_all(t, "\"", "\\\"");
                let mut quoted = String::from_str("\"");
                quoted.append(escaped.as_str());
                quoted.append("\"");
                replace_all(self.input_value_pattern.as_str(), "{}", quoted.as_str())
            },
        };
        let trimmed = trim(script);
        let name = self.get_result_name();
        let body = if trimmed.as_str().unicode_len() == 0 {
            trimmed
        } else {
            proof {
                reveal_strlit("\n");
                crate::text::lemma_rfind(trimmed@, "\n"@);
            }
            let pos = match rfind(trimmed.as_str(), "\n") {
                Some(p) => p + 1,
                None => 0,
            };
            let mut assignment = name;
            assignment.append(" = ");
            let b = insert_at(trimmed.as_str(), pos, assignment.as_str());
            proof {
                let t = trimmed@;
                assert(pos as int == last_line_start(t));
                assert(b@ =~= t.take(pos as int) + result_name_spec(self.command()) + " = "@
                    + t.skip(pos as int));
            }
            b
        };
        let mut r = String::from_str("\n");
        r.append(input.as_str());
        r.append("\n");
        r.append(body.as_str());
        r.append("\n");
        r.append(self.print_value_pattern.as_str());
        r.append("\n");
        r
    }

    /// The text sent to the interpreter for `script` with the data `data`.
    pub fn get_script(&self, script: &str, data: &JsonMap) -> (r: String)
        ensures
            r@ == self.script_text(script@, data@),
    {
        if data.is_empty() {
            self.compose_script(script, None)
        } else {
            let text = json_object_text(data);
            self.compose_script(script, Some(text.as_str()))
        }
    }

    /// The text of the values in the interpreter's output `out`: what lies between the last
    /// start marker and the last end marker, where the first comes no later than the second.
    pub fn output_block(out: &str) -> (r: Option<String>)
        ensures
            opt_view(r) == output_block_spec(out@),
    {
        let start = Self::start_marker();
        let end = Self::end_marker();
        let start_len = start.as_str().unicode_len();
        match rfind(out, start.as_str()) {
            Some(a) => match rfind(out, end.as_str()) {
                Some(b) => {
                    proof {
                        crate::text::lemma_rfind(out@, start@);
                        crate::text::lemma_rfind(out@, end@);
                    }
                    if start_len <= b && a <= b - start_len {
                        Some(String::from_str(out.substring_char(a + start_len, b)))
                    } else {
                        None
                    }
                },
                None => None,
            },
            None => None,
        }
    }

    /// The values of a script, read from the interpreter's output `out`: those printed between
    /// the markers, with the result under this system's result name; an error when `out` does
    /// not hold them between the markers.
    pub fn get_data(&self, out: String) -> (r: Result<Values, FromSysError>)
        requires
            output_readable(out@),
        ensures
            match output_values(out@) {
                Some(m) => r matches Ok(v) && v.values() == m && v.result_name() == result_name_spec(self.command()),
                None => r matches Err(FromSysError::IncorrectScriptOutput {
                    out: o,
                    start_marker: s,
                    end_marker: e,
                }) && o@ == out@ && s@ == start_marker_spec() && e@ == end_marker_spec(),
            },
    {
        match Self::output_block(out.as_str()) {
            Some(text) => match parse_json_object(text.as_str()) {
                Some(m) => Ok(Values::new(m, self.get_result_name())),
                None => {
                    Err(
                        FromSysError::IncorrectScriptOutput {
                            out,
                            start_marker: Self::start_marker(),
                            end_marker: Self::end_marker(),
                        },
                    )
                },
            },
            None => Err(
                FromSysError::IncorrectScriptOutput {
                    out,
                    start_marker: Self::start_marker(),
                    end_marker: Self::end_marker(),
                },
            ),
        }
    }

    /// `get_data` where the values that `out` holds can be read; `None` where `out` holds a block
    /// between the markers that is not a JSON object.
    pub fn try_get_data(&self, out: String) -> (r: Option<Result<Values, FromSysError>>)
        ensures
            r is None <==> !output_readable(out@),
            r matches Some(Ok(v)) ==> output_values(out@) == Some(v.values()) && v.result_name()
                == result_name_spec(self.command()),
            r matches Some(Err(e)) ==> output_values(out@) is None,
            r matches Some(Err(e)) ==> (e matches FromSysError::IncorrectScriptOutput {
                out: o,
                start_marker: s,
                end_marker: t,
            } && o@ == out@ && s@ == start_marker_spec() && t@ == end_marker_spec()),
    {
        let readable = match Self::output_block(out.as_str()) {
            Some(text) => parse_json_object(text.as_str()).is_some(),
            None => true,
        };
        if readable {
            Some(self.get_data(out))
        } else {
            None
        }
    }

    /// Makes `script`, with the data `data`, the initialisation script: the first script that
    /// every interpreter process started from now on runs. A running process is left as it is.
    pub fn set_init_script(&mut self, script: &str, data: &JsonMap)
        ensures
            final(self).init_script_view() == Some(old(self).script_text(script@, data@)),
            final(self).command() == old(self).command(),
            final(self).print_pattern() == old(self).print_pattern(),
            final(self).input_pattern() == old(self).input_pattern(),
            final(self).session_open() == old(self).session_open(),
    {
        let text = self.get_script(script, data);
        self.init_script = Some(text);
    }

    /// Starts a run of `script` with the data `data` on this system's process, which holds its
    /// state from run to run: the plan starts a new process (which runs the initialisation
    /// script first) where none runs. The process runs from now on.
    pub fn begin_run(&mut self, script: &str, data: &JsonMap) -> (plan: RunPlan)
        ensures
            (plan.spawn, plan.inputs_view()) == old(self).run_plan_spec(script@, data@),
            final(self).same_conf(*old(self)),
            final(self).session_open(),
    {
        let text = self.get_script(script, data);
        let spawn = !self.session_open;
        let mut inputs: Vec<String> = Vec::new();
        if spawn {
            match &self.init_script {
                Some(init) => inputs.push(init.clone()),
                None => {},
            }
        }
        inputs.push(text);
        self.session_open = true;
        let plan = RunPlan { spawn, inputs };
        proof {
            assert(plan.inputs_view() =~= planned_inputs(
                spawn,
                old(self).init_script_view(),
                old(self).script_text(script@, data@),
            ));
        }
        plan
    }

    /// The plan of an isolated run of `script` with the data `data`: a new process, which runs
    /// the initialisation script first, and which the run leaves behind; this system's own
    /// process is not touched.
    pub fn plan_run_script(&self, script: &str, data: &JsonMap) -> (plan: RunPlan)
        ensures
            (plan.spawn, plan.inputs_view()) == self.run_script_plan_spec(script@, data@),
    {
        let text = self.get_script(script, data);
        let mut inputs: Vec<String> = Vec::new();
        match &self.init_script {
            Some(init) => inputs.push(init.clone()),
            None => {},
        }
        inputs.push(text);
        let plan = RunPlan { spawn: true, inputs };
        proof {
            assert(plan.inputs_view() =~= planned_inputs(
                true,
                self.init_script_view(),
                self.script_text(script@, data@),
            ));
        }
        plan
    }

    /// Ends this system's process, where one runs, and tells whether one did (and so has to be
    /// stopped). The initialisation script stays.
    pub fn clean(&mut self) -> (had_session: bool)
        ensures
            had_session == old(self).session_open(),
            !final(self).session_open(),
            final(self).same_conf(*old(self)),
    {
        let had = self.session_open;
        self.session_open = false;
        had
    }
}

/// An isolated run of a script does what a run does on the same system with no process running:
/// it starts a new process, which runs the initialisation script first.
pub proof fn law_run_script_is_fresh_run(
    sys: FromSys,
    fresh: FromSys,
    script: Seq<char>,
    data: Map<Seq<char>, serde_json::Value>,
)
    requires
        fresh.same_conf(sys),
        !fresh.session_open(),
    ensures
        sys.run_script_plan_spec(script, data) == fresh.run_plan_spec(script, data),
{
}

/// Runs on a running process share it: a run sends only its script, so that what earlier runs
/// left in the interpreter stays visible to it.
pub proof fn law_runs_share_the_process(
    sys: FromSys,
    script: Seq<char>,
    data: Map<Seq<char>, serde_json::Value>,
)
    requires
        sys.session_open(),
    ensures
        sys.run_plan_spec(script, data) == (false, seq![sys.script_text(script, data)]),
{
}

/// After `clean` the initialisation script stays, and the next run starts a new process that
/// runs it first: the system is back in the state that the initialisation script sets.
pub proof fn law_clean_restores_init(
    before: FromSys,
    after: FromSys,
    script: Seq<char>,
    data: Map<Seq<char>, serde_json::Value>,
)
    requires
        after.same_conf(before),
        !after.session_open(),
    ensures
        after.init_script_view() == before.init_script_view(),
        after.run_plan_spec(script, data) == (
            true,
            planned_inputs(true, before.init_script_view(), before.script_text(script, data)),
        ),
{
}

/// Once an initialisation script is set, every new process runs it before the script of the run.
pub proof fn law_init_script_runs_first(
    sys: FromSys,
    script: Seq<char>,
    data: Map<Seq<char>, serde_json::Value>,
)
    requires
        sys.init_script_view() is Some,
        !sys.session_open(),
    ensures
        sys.run_plan_spec(script, data).1 == seq![
            sys.init_script_view()->0,
            sys.script_text(script, data),
        ],
        sys.run_script_plan_spec(script, data).1 == seq![
            sys.init_script_view()->0,
            sys.script_text(script, data),
        ],
{
}


/// The start marker begins with `[`, and holds no other `[`: no occurrence of it overlaps
/// another one.
proof fn lemma_start_marker_chars()
    ensures
        start_marker_spec()[0] == '[',
        forall|d: int| 0 < d < start_marker_spec().len() ==> start_marker_spec()[d] != '[',
{
    reveal_strlit("[script_sys output bloc] start\n");
}

/// What a script prints between the markers is what `get_data` reads: in an output that ends
/// with the start marker, a block, and the end marker, where the block and the end marker hold
/// no start marker, the values are those of the block.
pub proof fn law_values_between_markers(pre: Seq<char>, body: Seq<char>)
    requires
        rfind_spec(body + end_marker_spec(), start_marker_spec()) is None,
    ensures
        output_block_spec(pre + start_marker_spec() + body + end_marker_spec()) == Some(body),
        output_values(pre + start_marker_spec() + body + end_marker_spec()) == parsed_json_object(
            body,
        ),
{
    let st = start_marker_spec();
    let en = end_marker_spec();
    let rest = body + en;
    let out = pre + st + body + en;
    let a = pre.len() as int;
    assert(out =~= pre + (st + rest));
    assert(out.subrange(a, a + st.len()) =~= st);
    crate::text::lemma_rfind(rest, st);
    lemma_start_marker_chars();
    assert forall|j: int| a < j implies !#[trigger] crate::text::occurs_at(out, st, j) by {
        if crate::text::occurs_at(out, st, j) {
            if j < a + st.len() {
                assert(out.subrange(j, j + st.len())[0] == out[j]);
                assert(out[j] == st[j - a]);
            } else {
                let k = j - a - st.len();
                assert(out.subrange(j, j + st.len()) =~= rest.subrange(k, k + st.len()));
                assert(crate::text::occurs_at(rest, st, k));
            }
        }
    }
    crate::text::lemma_rfind_is(out, st, a);
    let b = out.len() - en.len();
    assert(out.subrange(b, b + en.len()) =~= en);
    crate::text::lemma_rfind_is(out, en, b);
    assert(out.subrange(a + st.len(), b) =~= body);
}


/// The printing statements write the markers that `get_data` searches: each block, with its
/// written `\n` read as a line break (as the interpreter's `printf` reads it), is its marker.
pub proof fn law_blocks_print_the_markers()
    ensures
        replace_spec(start_out_block_spec(), "\\n"@, "\n"@) == start_marker_spec(),
        replace_spec(end_out_block_spec(), "\\n"@, "\n"@) == end_marker_spec(),
{
    reveal_strlit("[script_sys output bloc] start\\n");
    reveal_strlit("[script_sys output bloc] end\\n");
    reveal_strlit("[script_sys output bloc] start\n");
    reveal_strlit("[script_sys output bloc] end\n");
    reveal_strlit("\\n");
    reveal_strlit("\n");
    let esc = "\\n"@;
    let nl = "\n"@;
    crate::text::lemma_replace_pattern(esc, nl);
    let sb = start_out_block_spec();
    let sp = sb.subrange(0, sb.len() - 2);
    assert(sb =~= sp + esc);
    crate::text::lemma_replace_passes_prefix(sp, esc, esc, nl);
    assert(sp + nl =~= start_marker_spec());
    let eb = end_out_block_spec();
    let ep = eb.subrange(0, eb.len() - 2);
    assert(eb =~= ep + esc);
    crate::text::lemma_replace_passes_prefix(ep, esc, esc, nl);
    assert(ep + nl =~= end_marker_spec());
}


/// The result of a script is the value of its last line: the text sent is the data statement,
/// then the script without surrounding white space in which the assignment to
/// `script_sys_<command>_result` starts the last line (the text before it is empty or ends with
/// a line break, the text after it holds no line break), then the printing statements. A script
/// that is only white space is sent empty, with no assignment.
pub proof fn law_result_assigned_on_last_line(
    print_value_pattern: Seq<char>,
    input_value_pattern: Seq<char>,
    command: Seq<char>,
    script: Seq<char>,
    data_text: Option<Seq<char>>,
)
    ensures
        trim_spec(script).len() > 0 ==> exists|p: int|
            0 <= p <= trim_spec(script).len() && (p == 0 || trim_spec(script)[p - 1] == '\n') && (
            forall|j: int| p <= j < trim_spec(script).len() ==> trim_spec(script)[j] != '\n')
                && #[trigger] script_text_spec(
                print_value_pattern,
                input_value_pattern,
                command,
                script,
                data_text,
            ) == "\n"@ + input_statement_spec(input_value_pattern, data_text) + "\n"@
                + trim_spec(script).take(p) + ("script_sys_"@ + command + "_result"@ + " = "@)
                + trim_spec(script).skip(p) + "\n"@ + print_value_pattern + "\n"@,
        trim_spec(script).len() == 0 ==> script_text_spec(
            print_value_pattern,
            input_value_pattern,
            command,
            script,
            data_text,
        ) == "\n"@ + input_statement_spec(input_value_pattern, data_text) + "\n"@ + "\n"@
            + print_value_pattern + "\n"@,
{
    reveal_strlit("\n");
    let b = trim_spec(script);
    let nl = "\n"@;
    let t = script_text_spec(print_value_pattern, input_value_pattern, command, script, data_text);
    let head = "\n"@ + input_statement_spec(input_value_pattern, data_text) + "\n"@;
    let tail = "\n"@ + print_value_pattern + "\n"@;
    if b.len() > 0 {
        let p = last_line_start(b);
        crate::text::lemma_rfind(b, nl);
        match rfind_spec(b, nl) {
            Some(i) => {
                assert(b.subrange(i, i + 1)[0] == b[i]);
                assert(b[p - 1] == '\n');
                assert forall|j: int| p <= j < b.len() implies b[j] != '\n' by {
                    if b[j] == '\n' {
                        assert(b.subrange(j, j + 1) =~= nl);
                        assert(crate::text::occurs_at(b, nl, j));
                    }
                }
            },
            None => {
                assert forall|j: int| p <= j < b.len() implies b[j] != '\n' by {
                    if b[j] == '\n' {
                        assert(b.subrange(j, j + 1) =~= nl);
                        assert(crate::text::occurs_at(b, nl, j));
                    }
                }
            },
        }
        assert(t =~= head + b.take(p) + ("script_sys_"@ + command + "_result"@ + " = "@) + b.skip(p)
            + tail);
    } else {
        assert(t =~= head + "\n"@ + print_value_pattern + "\n"@);
    }
}


/// The data reaches the script as a JSON string: in an input pattern `left + "{}" + right` whose
/// two sides hold no `{`, the data statement is `left`, the data's JSON text with its quotes
/// escaped and in quotes, then `right`; with no data there is no statement.
pub proof fn law_data_statement(left: Seq<char>, right: Seq<char>, data_text: Seq<char>)
    requires
        forall|i: int| 0 <= i < left.len() ==> left[i] != '{',
        forall|i: int| 0 <= i < right.len() ==> right[i] != '{',
    ensures
        input_statement_spec(left + "{}"@ + right, Some(data_text)) == left + "\""@ + replace_spec(
            data_text,
            "\""@,
            "\\\""@,
        ) + "\""@ + right,
        input_statement_spec(left + "{}"@ + right, None) == Seq::<char>::empty(),
{
    reveal_strlit("{}");
    let p = "{}"@;
    let q = "\""@ + replace_spec(data_text, "\""@, "\\\""@) + "\""@;
    assert(left + p + right =~= left + (p + right));
    crate::text::lemma_replace_passes_prefix(left, p + right, p, q);
    crate::text::lemma_replace_leading_pattern(p, right, q);
    crate::text::lemma_replace_passes_prefix(right, Seq::<char>::empty(), p, q);
    assert(right + Seq::<char>::empty() =~= right);
    assert(replace_spec(Seq::<char>::empty(), p, q) == Seq::<char>::empty());
    assert(left + (q + right) =~= left + "\""@ + replace_spec(data_text, "\""@, "\\\""@) + "\""@
        + right);
}

} // verus!
