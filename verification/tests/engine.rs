use lua_bridge::engine::{chunk_name, exit_code, Engine, EngineError, Function, Loaded};
use lua_bridge::error::LuaError;
use lua_bridge::frame::Frame;
use lua_bridge::table::Key;
use lua_bridge::value::Value;

fn echo(frame: Frame) -> Result<Frame, LuaError> {
    let v = frame.arg(1).unwrap().dup();
    Ok(frame.push(v))
}

#[test]
fn new_engine_has_an_empty_stack() {
    let en = Engine::new();
    assert_eq!(en.top(), 0);
    assert!(en.close().is_empty());
}

#[test]
fn pushes_add_one_value_each() {
    let mut en = Engine::new();
    en.push_nil();
    assert_eq!(en.top(), 1);
    en.push_string("abc");
    assert_eq!(en.top(), 2);
    en.push_int(7);
    assert_eq!(en.top(), 3);
    en.push_bytes(&[0xff, 0x00]);
    assert_eq!(en.top(), 4);
    assert!(en.is_nil(1));
    assert!(!en.is_nil(2));
    assert_eq!(en.to_int(3), Some(7));
    assert_eq!(en.to_int(-2), Some(7));
    assert_eq!(en.to_string(2), Some(b"abc".to_vec()));
    assert_eq!(en.to_string(-1), Some(vec![0xff, 0x00]));
}

#[test]
fn negative_indices_count_from_the_top() {
    let mut en = Engine::new();
    en.push_int(1);
    en.push_int(2);
    en.push_int(3);
    assert_eq!(en.to_int(-1), Some(3));
    assert_eq!(en.to_int(-3), Some(1));
    assert_eq!(en.to_int(1), Some(1));
}

#[test]
fn numeric_reads_do_not_coerce() {
    let mut en = Engine::new();
    en.push_string("12");
    en.push_value(Value::Float(0x4028000000000000));
    assert_eq!(en.to_int(1), None);
    assert_eq!(en.to_int(2), None);
    assert_eq!(en.pop_int(), None);
    assert_eq!(en.top(), 2);
}

#[test]
fn string_reads_do_not_convert_numbers() {
    let mut en = Engine::new();
    en.push_int(12);
    assert_eq!(en.to_string(1), None);
    assert_eq!(en.pop_string_lossy().unwrap_err().ty_name, "number");
    assert_eq!(en.top(), 1);
}

#[test]
fn pop_nil_pops_only_nil() {
    let mut en = Engine::new();
    en.push_int(1);
    assert_eq!(en.pop_nil(), None);
    assert_eq!(en.top(), 1);
    en.push_nil();
    assert_eq!(en.pop_nil(), Some(()));
    assert_eq!(en.top(), 1);
}

#[test]
fn pop_int_pops_only_integers() {
    let mut en = Engine::new();
    en.push_int(-5);
    assert_eq!(en.pop_int(), Some(-5));
    assert_eq!(en.top(), 0);
}

#[test]
fn text_read_pops_valid_text() {
    let mut en = Engine::new();
    en.push_string("héllo");
    assert_eq!(en.pop_string_lossy().unwrap(), "héllo");
    assert_eq!(en.top(), 0);
    en.push_string("");
    assert_eq!(en.pop_string_lossy().unwrap(), "");
}

#[test]
fn text_read_fails_on_bytes_that_are_no_text() {
    let mut en = Engine::new();
    en.push_bytes(&[0xff]);
    let e = en.pop_string_lossy().unwrap_err();
    assert_eq!(e.ty_name, "string");
    assert_eq!(en.top(), 1);
    assert_eq!(en.to_string(1), Some(vec![0xff]));
    en.push_bytes(&[0x66, 0xff, 0x6f]);
    assert!(en.pop_string_lossy().is_err());
    assert_eq!(en.top(), 2);
    en.new_table();
    assert_eq!(en.pop_string_lossy().unwrap_err().ty_name, "table");
    assert_eq!(en.top(), 3);
}

#[test]
fn pop_type_names_the_type() {
    let mut en = Engine::new();
    en.push_nil();
    en.push_int(1);
    en.push_string("s");
    en.new_table();
    en.push_fn(1, false);
    en.push_value(Value::Boolean(true));
    en.push_value(Value::UserData(0));
    en.push_value(Value::Thread(0));
    assert_eq!(en.pop_type(), "thread");
    assert_eq!(en.pop_type(), "userdata");
    assert_eq!(en.pop_type(), "boolean");
    assert_eq!(en.pop_type(), "function");
    assert_eq!(en.pop_type(), "table");
    assert_eq!(en.pop_type(), "string");
    assert_eq!(en.pop_type(), "number");
    assert_eq!(en.pop_type(), "nil");
    assert_eq!(en.top(), 0);
}

#[test]
fn check_stack_refuses_what_does_not_fit() {
    let mut en = Engine::new();
    assert!(en.check_stack(1_000_000));
    assert!(!en.check_stack(1_000_001));
    en.push_nil();
    assert!(!en.check_stack(1_000_000));
    assert!(en.check_stack(999_999));
}

#[test]
fn set_field_stores_and_pops() {
    let mut en = Engine::new();
    en.new_table();
    en.push_int(5);
    en.set_field(-2, "five");
    assert_eq!(en.top(), 1);
    en.get_field(1, "five");
    assert_eq!(en.to_int(-1), Some(5));
    en.pop();
    en.get_field(1, "six");
    assert!(en.is_nil(-1));
}

#[test]
fn set_field_with_nil_removes_the_key() {
    let mut en = Engine::new();
    en.new_table();
    en.push_int(5);
    en.set_field(-2, "k");
    en.push_nil();
    en.set_field(-2, "k");
    en.get_field(-1, "k");
    assert!(en.is_nil(-1));
    let h = en.value(1).as_table().unwrap();
    assert!(en.field_of(h, &Key::named("k")).is_nil());
}

#[test]
fn globals_last_write_wins() {
    let mut en = Engine::new();
    en.push_int(1);
    en.set_global("x");
    en.push_int(2);
    en.set_global("x");
    en.get_global("x");
    assert_eq!(en.pop_int(), Some(2));
    en.get_global("y");
    assert_eq!(en.pop_nil(), Some(()));
    assert_eq!(en.top(), 0);
}

#[test]
fn require_os_binds_the_library() {
    let mut en = Engine::new();
    en.require_os();
    assert_eq!(en.top(), 1);
    en.get_field(1, "exit");
    assert_eq!(en.pop_type(), "function");
    en.get_field(1, "clock");
    assert_eq!(en.pop_type(), "function");
    en.get_global("os");
    assert!(en.value(-1).same(&en.value(1)));
}

#[test]
fn push_fn_leaves_one_function() {
    let mut en = Engine::new();
    en.push_fn(7, true);
    assert_eq!(en.top(), 1);
    let h = match en.value(1) {
        Value::Function(h) => h,
        _ => panic!("not a function"),
    };
    assert_eq!(en.function(h), Some(Function::Host { state: 7, finalizer: true }));
    assert_eq!(en.function(h + 1), None);
}

#[test]
fn close_names_finalizers_latest_first() {
    let mut en = Engine::new();
    en.push_fn(1, true);
    en.push_fn(2, false);
    en.push_fn(3, true);
    assert_eq!(en.close(), vec![3, 1]);
}

#[test]
fn echo_returns_its_argument() {
    let mut en = Engine::new();
    en.push_fn(1, false);
    en.push_int(42);
    assert!(en.call(1, 1, 1, echo));
    assert_eq!(en.top(), 1);
    assert_eq!(en.to_int(1), Some(42));
}

#[test]
fn call_leaves_exactly_the_results_asked_for() {
    let mut en = Engine::new();
    en.push_int(9);
    let before = en.top();
    en.push_fn(1, false);
    en.push_int(1);
    en.push_int(2);
    let ok = en.call(2, 3, 1, |f: Frame| {
        let a = f.arg(1).unwrap().dup();
        Ok(f.push(a))
    });
    assert!(ok);
    assert_eq!(en.top(), before + 3);
    assert_eq!(en.to_int(2), Some(1));
    assert!(en.is_nil(3));
    assert!(en.is_nil(4));
    assert_eq!(en.to_int(1), Some(9));
}

#[test]
fn call_drops_results_nobody_asked_for() {
    let mut en = Engine::new();
    en.push_fn(1, false);
    let ok = en.call(0, 1, 1, |f: Frame| Ok(f.push(Value::Integer(1)).push(Value::Integer(2))));
    assert!(ok);
    assert_eq!(en.top(), 1);
    assert_eq!(en.to_int(1), Some(1));
    en.push_fn(1, false);
    en.push_nil();
    assert!(en.call(1, 0, 1, echo));
    assert_eq!(en.top(), 1);
}

#[test]
fn failed_call_leaves_one_error_value() {
    let mut en = Engine::new();
    en.push_fn(1, false);
    en.push_int(1);
    en.push_int(2);
    let ok = en.call(2, 5, 1, |_f: Frame| {
        Err(LuaError::with_source(
            "failed to open 'foo'",
            vec!["permission denied".to_string(), "os error 13".to_string()],
        ))
    });
    assert!(!ok);
    assert_eq!(en.top(), 1);
    assert_eq!(en.pop_string_lossy().ok(),
        Some("failed to open 'foo' -> permission denied -> os error 13".to_string())
    );
}

#[test]
fn error_pushes_the_formatted_message() {
    let mut en = Engine::new();
    en.error(LuaError::new("boom"));
    assert_eq!(en.to_string(-1), Some(b"boom".to_vec()));
}

#[test]
fn arg_string_reads_strings_only() {
    let mut en = Engine::new();
    en.push_string("a");
    en.push_int(1);
    assert_eq!(en.arg_string(1).unwrap(), b"a".to_vec());
    let e = en.arg_string(2).unwrap_err();
    assert_eq!(e.position, 2);
    assert_eq!(e.reason, "string expected, got number");
    let e = en.arg_string(3).unwrap_err();
    assert_eq!(e.position, 3);
    assert_eq!(e.reason, "string expected, got no value");
    assert_eq!(e.describe(), "bad argument #3 (string expected, got no value)");
}

#[test]
fn arg_error_names_the_position() {
    let en = Engine::new();
    let e = en.arg_error(12, "expect UTF-8 string".to_string());
    assert_eq!(e.position, 12);
    assert_eq!(e.describe(), "bad argument #12 (expect UTF-8 string)");
}

#[test]
fn chunk_name_is_the_path_behind_an_at_sign() {
    assert_eq!(chunk_name("scripts/build.lua"), "@scripts/build.lua");
    assert_eq!(chunk_name(""), "@");
}

#[test]
fn load_pushes_the_chunk() {
    let mut en = Engine::new();
    assert!(en.load(Loaded::Compiled).is_ok());
    assert_eq!(en.top(), 1);
    assert_eq!(en.pop_type(), "function");
}

#[test]
fn syntax_error_is_reported_and_changes_nothing() {
    let mut en = Engine::new();
    en.push_int(1);
    en.set_global("kept");
    let msg = "@build.lua:3: unexpected symbol near '='".to_string();
    let r = en.load(Loaded::Rejected(msg.clone()));
    assert!(matches!(r, Err(EngineError::LoadFile(m)) if m == msg));
    assert_eq!(en.top(), 0);
    en.get_global("kept");
    assert_eq!(en.pop_int(), Some(1));
}

#[test]
fn unreadable_file_is_reported() {
    let mut en = Engine::new();
    let r = en.load(Loaded::Unreadable("No such file or directory".to_string()));
    match r {
        Err(e) => {
            assert!(matches!(e, EngineError::ReadFile(_)));
            assert_eq!(e.describe(), "couldn't read the file -> No such file or directory");
        }
        Ok(_) => panic!("loaded"),
    }
    assert_eq!(en.top(), 0);
}

#[test]
fn run_reads_nil_as_success() {
    let mut en = Engine::new();
    en.load(Loaded::Compiled).unwrap();
    assert!(matches!(en.run(Ok(Value::Nil)), Ok(0)));
    assert_eq!(en.top(), 0);
}

#[test]
fn run_reads_an_integer_as_exit_code() {
    let mut en = Engine::new();
    en.load(Loaded::Compiled).unwrap();
    assert!(matches!(en.run(Ok(Value::Integer(99))), Ok(99)));
    en.load(Loaded::Compiled).unwrap();
    assert!(matches!(en.run(Ok(Value::Integer(0))), Ok(0)));
}

#[test]
fn result_150_is_out_of_range() {
    let mut en = Engine::new();
    en.load(Loaded::Compiled).unwrap();
    let e = en.run(Ok(Value::Integer(150))).unwrap_err();
    assert!(matches!(e, EngineError::ConvertResult(150)));
    assert_eq!(
        e.describe(),
        "couldn't convert script result 150 to exit code -> result out of range"
    );
    assert_eq!(en.top(), 0);
}

#[test]
fn results_next_to_the_range_are_told_apart() {
    assert!(matches!(exit_code(&Value::Integer(100)), Err(EngineError::ConvertResult(100))));
    assert!(matches!(exit_code(&Value::Integer(-1)), Err(EngineError::ConvertResult(-1))));
    assert!(matches!(exit_code(&Value::Integer(406)), Err(EngineError::ConvertResult(406))));
    let e = exit_code(&Value::Integer(i64::MIN)).unwrap_err();
    assert_eq!(
        e.describe(),
        "couldn't convert script result -9223372036854775808 to exit code -> result out of range"
    );
}

#[test]
fn other_results_are_invalid() {
    let e = exit_code(&Value::Str(b"1".to_vec())).unwrap_err();
    assert!(matches!(e, EngineError::InvalidResult("string")));
    assert_eq!(e.describe(), "expect script to return either nil or integer, got string");
    assert!(matches!(exit_code(&Value::Float(0)), Err(EngineError::InvalidResult("number"))));
    assert!(matches!(
        exit_code(&Value::Boolean(false)),
        Err(EngineError::InvalidResult("boolean"))
    ));
}

#[test]
fn raised_error_is_reported_with_its_message() {
    let mut en = Engine::new();
    en.load(Loaded::Compiled).unwrap();
    let r = en.run(Err("build.lua:7: boom".to_string()));
    assert!(matches!(r, Err(EngineError::RunScript(m)) if m == "build.lua:7: boom"));
    assert_eq!(en.top(), 0);
}

#[test]
fn calling_what_is_no_function_fails() {
    let mut en = Engine::new();
    en.push_int(5);
    en.push_int(1);
    let ok = en.call(1, 3, 1, |_f: Frame| panic!("called"));
    assert!(!ok);
    assert_eq!(en.top(), 1);
    assert_eq!(en.pop_string_lossy().ok(), Some("attempt to call a number value".to_string()));
    en.push_nil();
    assert!(!en.call(0, 0, 1, |_f: Frame| panic!("called")));
    assert_eq!(en.pop_string_lossy().ok(), Some("attempt to call a nil value".to_string()));
}

#[test]
fn push_all_leaves_exactly_its_values() {
    let mut en = Engine::new();
    en.push_int(0);
    let before = en.top();
    let values: Vec<Value> = (1..=50).map(Value::Integer).collect();
    assert!(en.push_all(values));
    assert_eq!(en.top(), before + 50);
    assert_eq!(en.to_int(2), Some(1));
    assert_eq!(en.to_int(-1), Some(50));
    assert!(en.push_all(Vec::new()));
    assert_eq!(en.top(), before + 50);
}

#[test]
fn push_all_refuses_what_does_not_fit() {
    let mut en = Engine::new();
    let many: Vec<Value> = (0..1_000_000).map(|_| Value::Nil).collect();
    en.push_nil();
    assert!(!en.push_all(many));
    assert_eq!(en.top(), 1);
}

#[test]
fn a_call_runs_only_the_host_function_it_names() {
    let mut en = Engine::new();
    en.load(Loaded::Compiled).unwrap();
    assert!(!en.call(0, 1, 1, |_f: Frame| panic!("called")));
    assert_eq!(
        en.pop_string_lossy().unwrap(),
        "attempt to call a function that is not the host function given"
    );
    en.push_fn(7, false);
    assert!(!en.call(0, 1, 8, |_f: Frame| panic!("called")));
    assert_eq!(en.top(), 1);
    en.pop();
    en.push_fn(7, false);
    assert!(en.call(0, 1, 7, |f: Frame| Ok(f.push(Value::Integer(3)))));
    assert_eq!(en.pop_int(), Some(3));
}

#[test]
fn a_second_run_reports_the_dead_chunk() {
    let mut en = Engine::new();
    en.load(Loaded::Compiled).unwrap();
    assert!(matches!(en.run(Ok(Value::Integer(3))), Ok(3)));
    let d = en.top();
    let e = en.run(Ok(Value::Integer(4))).unwrap_err();
    assert!(matches!(e, EngineError::Dead));
    assert_eq!(e.describe(), "cannot run a dead chunk");
    assert_eq!(en.top(), d);
    assert!(matches!(en.run(Err("x".to_string())), Err(EngineError::Dead)));
    assert_eq!(en.top(), d);
}

#[test]
fn a_dead_chunk_does_not_run_even_where_a_copy_of_it_stayed() {
    let mut en = Engine::new();
    en.load(Loaded::Compiled).unwrap();
    let chunk = en.value(-1);
    en.push_value(chunk.dup());
    assert!(matches!(en.run(Err("boom".to_string())), Err(EngineError::RunScript(_))));
    assert_eq!(en.top(), 1);
    assert!(matches!(en.run(Ok(Value::Nil)), Err(EngineError::Dead)));
    assert_eq!(en.top(), 1);
    assert!(en.value(1).same(&chunk));
}

#[test]
fn run_needs_a_chunk_on_top() {
    let mut en = Engine::new();
    assert!(matches!(en.run(Ok(Value::Nil)), Err(EngineError::Dead)));
    en.push_fn(1, false);
    assert!(matches!(en.run(Ok(Value::Nil)), Err(EngineError::Dead)));
    en.push_int(1);
    assert!(matches!(en.run(Ok(Value::Nil)), Err(EngineError::Dead)));
    assert_eq!(en.top(), 2);
}

#[test]
fn a_push_onto_a_full_stack_changes_nothing() {
    let mut en = Engine::new();
    let many: Vec<Value> = (0..1_000_000).map(|_| Value::Nil).collect();
    assert!(en.push_all(many));
    assert_eq!(en.top(), 1_000_000);
    assert!(!en.push_nil());
    assert!(!en.push_string("x"));
    assert!(!en.push_int(1));
    assert!(!en.push_bytes(b"x"));
    assert!(!en.push_value(Value::Boolean(true)));
    assert!(!en.push_fn(1, true));
    assert_eq!(en.top(), 1_000_000);
    assert!(en.close().is_empty());
}

#[test]
fn push_fn_needs_room_for_its_three_slots() {
    let mut en = Engine::new();
    let many: Vec<Value> = (0..999_998).map(|_| Value::Nil).collect();
    assert!(en.push_all(many));
    assert!(!en.push_fn(1, true));
    assert_eq!(en.top(), 999_998);
    assert!(en.push_nil());
    en.pop();
    en.pop();
    assert!(en.push_fn(1, false));
    assert_eq!(en.top(), 999_998);
}

#[test]
fn pushes_report_that_they_pushed() {
    let mut en = Engine::new();
    assert!(en.push_nil());
    assert!(en.push_string("a"));
    assert!(en.push_fn(3, true));
    assert_eq!(en.top(), 3);
    assert!(en.is_nil(1));
    assert_eq!(en.to_string(2), Some(b"a".to_vec()));
}
