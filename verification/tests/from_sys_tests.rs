use script_sys::from_sys::matlab_like::{MatLabLikeBuilder, INPUT_PATTERN};
use script_sys::from_sys::runner::{
    append_line, read_step, Error, ErrorDetector, ExitStatus, ReadEvent, ReadState,
};
use script_sys::from_sys::{FromSys, FromSysError};
use script_sys::json::{
    json_clone, json_null, json_object_text, json_str_member, parse_json_object, JsonMap,
};
use script_sys::values::Values;
use serde_json::Value;

fn octave() -> FromSys {
    MatLabLikeBuilder { target: "octave".into() }.build()
}

fn data_42() -> JsonMap {
    let mut data = JsonMap::new();
    data.insert("test_value".to_string(), Value::from(42u64));
    data
}

fn expected_print_pattern(start: &str, end: &str) -> String {
    format!(
        r#"
printf("{start}")
vars = whos;

allVars = struct();

for k = 1:length(vars)
    name = vars(k).name;
    value = evalin('caller', name);
    
    if isnumeric(value) || islogical(value) || ischar(value) || isstring(value) || ...
       isstruct(value) || iscell(value)
        allVars.(name) = value;
        
    elseif istable(value)
        allVars.(name) = table2struct(value);
        
    elseif isdatetime(value) || isduration(value) || iscategorical(value)
        allVars.(name) = string(value);
        
    elseif iscomplex(value)
        allVars.(name) = struct('re', real(value), 'im', imag(value));
        
    elseif issparse(value)
        [i,j,s] = find(value);
        allVars.(name) = struct('i', i, 'j', j, 'value', s, 'size', size(value));
    else
        allVars.(name) = sprintf('<%s>', class(value));
    end
end

jsonString = jsonencode(allVars, 'PrettyPrint', true);
disp(jsonString);

printf("{end}")
            "#
    )
}

#[test]
fn markers_and_result_name() {
    assert_eq!(FromSys::get_start_out_block(), "[script_sys output bloc] start\\n");
    assert_eq!(FromSys::get_end_out_block(), "[script_sys output bloc] end\\n");
    assert_eq!(FromSys::start_marker(), FromSys::get_start_out_block().replace("\\n", "\n"));
    assert_eq!(FromSys::end_marker(), FromSys::get_end_out_block().replace("\\n", "\n"));
    assert_eq!(octave().get_result_name(), "script_sys_octave_result");
}

#[test]
fn matlab_like_build() {
    let sys = octave();
    assert_eq!(sys.base_command, "octave");
    assert_eq!(sys.input_value_pattern, "input_data = jsondecode({});");
    assert_eq!(INPUT_PATTERN, "input_data = jsondecode({});");
    assert_eq!(
        sys.print_value_pattern,
        expected_print_pattern(
            &FromSys::get_start_out_block(),
            &FromSys::get_end_out_block()
        )
    );
    assert!(sys.get_init_script().is_none());
    assert!(!sys.has_session());
}

#[test]
fn get_script_without_data() {
    let sys = octave();
    let script = sys.get_script("  a = 1;\nb = a + 1\n\n", &JsonMap::new());
    let expected = format!(
        "\n\na = 1;\nscript_sys_octave_result = b = a + 1\n{}\n",
        sys.print_value_pattern
    );
    assert_eq!(script, expected);
}

#[test]
fn get_script_with_data() {
    let sys = octave();
    let script = sys.get_script("input_data.test_value ^ 2", &data_42());
    let expected = format!(
        "\ninput_data = jsondecode(\"{{\\\"test_value\\\":42}}\");\nscript_sys_octave_result = input_data.test_value ^ 2\n{}\n",
        sys.print_value_pattern
    );
    assert_eq!(script, expected);
}

#[test]
fn get_script_of_empty_script() {
    let sys = FromSys::new("sh".into(), "P".into(), "I({})".into());
    assert_eq!(sys.get_script(" \n ", &JsonMap::new()), "\n\n\nP\n");
    assert_eq!(sys.compose_script("x", Some("{\"a\":\"b\"}")), "\nI(\"{\\\"a\\\":\\\"b\\\"}\")\nscript_sys_sh_result = x\nP\n");
}

fn output(body: &str) -> String {
    format!(
        "\nnoise\n{}{}{}",
        FromSys::start_marker(),
        body,
        FromSys::end_marker()
    )
}

#[test]
fn get_data_reads_values_between_markers() {
    let sys = octave();
    let out = output("{\"script_sys_octave_result\": 1764, \"x\": [1, 2]}\n");
    let values = sys.get_data(out).unwrap();
    assert_eq!(values.get_result(), j(r#"1764"#));
    assert_eq!(values.get_result().as_u64(), Some(1764));
    assert_eq!(values.get_values().len(), 2);
    assert_eq!(values.get_values().get("x"), Some(&j(r#"[1, 2]"#)));
}

#[test]
fn get_data_uses_last_markers() {
    let sys = octave();
    let out = format!(
        "{}{}{{\"a\": 1}}{}",
        output("{\"a\": 0}"),
        FromSys::start_marker(),
        FromSys::end_marker()
    );
    let values = sys.get_data(out).unwrap();
    assert_eq!(values.get_values().get("a"), Some(&j(r#"1"#)));
    assert!(values.get_result().is_null());
}

#[test]
fn get_data_without_markers_fails() {
    let sys = octave();
    for out in [
        "nothing".to_string(),
        FromSys::start_marker(),
        FromSys::end_marker(),
        format!("{}{{}}{}", FromSys::end_marker(), FromSys::start_marker()),
    ] {
        match sys.get_data(out.clone()) {
            Err(FromSysError::IncorrectScriptOutput { out: o, start_marker, end_marker }) => {
                assert_eq!(o, out);
                assert_eq!(start_marker, FromSys::start_marker());
                assert_eq!(end_marker, FromSys::end_marker());
            }
            Ok(_) => panic!("no values expected"),
            Err(e) => panic!("{e:?}"),
        }
    }
}

#[test]
fn try_get_data_refuses_unreadable_values() {
    let sys = octave();
    assert!(sys.try_get_data(output("not json")).is_none());
    assert!(sys.try_get_data(output("[1, 2]")).is_none());
    assert!(matches!(sys.try_get_data(output("{}")), Some(Ok(_))));
    assert!(matches!(sys.try_get_data("x".into()), Some(Err(_))));
    assert_eq!(
        FromSys::output_block(&output(" {\"a\":1} ")),
        Some(" {\"a\":1} ".to_string())
    );
    assert_eq!(FromSys::output_block("none"), None);
}

#[test]
fn run_script_plans_a_fresh_process_with_init_first() {
    let mut sys = octave();
    sys.set_init_script("input_data.test_value = input_data.test_value ^ 2", &data_42());
    let init = sys.get_init_script().unwrap().clone();
    assert_eq!(
        init,
        sys.get_script("input_data.test_value = input_data.test_value ^ 2", &data_42())
    );
    for _ in 0..2 {
        let plan = sys.plan_run_script("input_data.test_value + 2", &JsonMap::new());
        assert!(plan.spawn);
        assert_eq!(
            plan.inputs,
            vec![init.clone(), sys.get_script("input_data.test_value + 2", &JsonMap::new())]
        );
        assert!(!sys.has_session());
    }
}

#[test]
fn runs_share_a_process_until_clean() {
    let mut sys = octave();
    sys.set_init_script("init", &JsonMap::new());
    let init = sys.get_init_script().unwrap().clone();
    let first = sys.begin_run("input_data.test_value = input_data.test_value * 2", &data_42());
    assert!(first.spawn);
    assert_eq!(first.inputs.len(), 2);
    assert_eq!(first.inputs[0], init);
    assert!(sys.has_session());
    let second = sys.begin_run("input_data.test_value + 2", &JsonMap::new());
    assert!(!second.spawn);
    assert_eq!(second.inputs, vec![sys.get_script("input_data.test_value + 2", &JsonMap::new())]);
    assert!(sys.clean());
    assert!(!sys.has_session());
    assert!(!sys.clean());
    assert_eq!(sys.get_init_script(), Some(&init));
    let third = sys.begin_run("input_data.test_value + 2", &JsonMap::new());
    assert!(third.spawn);
    assert_eq!(third.inputs[0], init);
}

#[test]
fn run_without_init_sends_only_the_script() {
    let mut sys = octave();
    let plan = sys.begin_run("1", &JsonMap::new());
    assert!(plan.spawn);
    assert_eq!(plan.inputs, vec![sys.get_script("1", &JsonMap::new())]);
    let copy = sys.clone_conf();
    assert!(!copy.has_session());
    assert_eq!(copy.base_command, "octave");
}

#[test]
fn runner_reads_until_end_marker() {
    let end = FromSys::end_marker();
    let (out, done) = append_line(String::new(), "1\n", &end);
    assert_eq!(out, "\n1\n");
    assert!(!done);
    let (out, done) = append_line(out, &end, &end);
    assert_eq!(out, format!("\n1\n\n{end}"));
    assert!(done);
    assert!(ErrorDetector::StderrNotIsEmpty.is_failure("error: x\n"));
    assert!(!ErrorDetector::StderrNotIsEmpty.is_failure(""));
}

#[test]
fn json_calls() {
    let m = parse_json_object("{\"b\": 1, \"a\": \"x\", \"b\": 2}").unwrap();
    assert_eq!(m.len(), 2);
    assert_eq!(m.get("b"), Some(&j(r#"2"#)));
    assert!(parse_json_object("[1]").is_none());
    assert!(parse_json_object("{").is_none());
    let mut d = JsonMap::new();
    d.insert("z".into(), j(r#"null"#));
    d.insert("a".into(), j(r#"{"k": "v\""}"#));
    assert_eq!(json_object_text(&d), "{\"a\":{\"k\":\"v\\\"\"},\"z\":null}");
    assert_eq!(json_str_member(&j(r#"{"tag_name": "v5.0"}"#), "tag_name"), Some("v5.0".into()));
    assert_eq!(json_str_member(&j(r#"{"tag_name": 5}"#), "tag_name"), None);
    assert_eq!(json_str_member(&j(r#"[1]"#), "tag_name"), None);
    assert!(json_null().is_null());
    assert_eq!(json_clone(&j(r#"[1, "a"]"#)), j(r#"[1, "a"]"#));
}

#[test]
fn values_result() {
    let mut m = JsonMap::new();
    m.insert("r".into(), j(r#"3"#));
    let v = Values::new(m, "r".into());
    assert_eq!(v.get_result(), j(r#"3"#));
    let v = Values::new(JsonMap::new(), "r".into());
    assert_eq!(v.get_result(), Value::Null);
    assert!(v.get_values().is_empty());
}

fn j(text: &str) -> serde_json::Value {
    serde_json::from_str(text).unwrap()
}

#[test]
fn run_script_is_a_run_on_a_fresh_process() {
    let mut sys = octave();
    sys.set_init_script("a = 1", &JsonMap::new());
    let _ = sys.begin_run("a = a + 1", &JsonMap::new());
    let isolated = sys.plan_run_script("a", &data_42());
    let mut fresh = sys.clone_conf();
    let first = fresh.begin_run("a", &data_42());
    assert_eq!(isolated.spawn, first.spawn);
    assert_eq!(isolated.inputs, first.inputs);
}

#[test]
fn reading_steps() {
    let end = FromSys::end_marker();
    let d = ErrorDetector::StderrNotIsEmpty;
    match read_step(String::new(), ReadEvent::Line("x\n".into()), &end, &d) {
        ReadState::Reading(o) => assert_eq!(o, "\nx\n"),
        _ => panic!("still reading"),
    }
    match read_step("a".into(), ReadEvent::Line(end.clone()), &end, &d) {
        ReadState::Done(o) => assert_eq!(o, format!("a\n{end}")),
        _ => panic!("done"),
    }
    match read_step("a".into(), ReadEvent::Exited(ExitStatus { raw: 9 }, "error: 'input_data' undefined\n".into()), &end, &d) {
        ReadState::Failed(Error::ExitStatus(status, err)) => {
            assert_eq!(status, ExitStatus { raw: 9 });
            assert_eq!(err, "error: 'input_data' undefined\n");
        }
        _ => panic!("exit status"),
    }
    match read_step("a".into(), ReadEvent::Stderr("boom".into()), &end, &d) {
        ReadState::Failed(Error::RunError(err)) => assert_eq!(err, "boom"),
        _ => panic!("run error"),
    }
    match read_step("a".into(), ReadEvent::Stderr(String::new()), &end, &d) {
        ReadState::Reading(o) => assert_eq!(o, "a"),
        _ => panic!("still reading"),
    }
}
