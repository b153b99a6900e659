use lua_bridge::api::{
    capitalize, join_path, replace_first, ArgEntry, ArgValue, Args, ArgsModule, GlobalModule, JsonModule, Mode,
    NativeError, OsModule, PathModule, StringModule, Url, UrlModule,
};
use lua_bridge::engine::Engine;
use lua_bridge::frame::Frame;
use lua_bridge::manifest::ArgType;
use lua_bridge::module::{Module, ModuleError, Modules};
use lua_bridge::registry::{ClassBuilder, Registry};
use lua_bridge::value::Value;

fn frame(args: Vec<Value>) -> Frame {
    Frame::new(args)
}

fn text(s: &str) -> Value {
    Value::Str(s.as_bytes().to_vec())
}

#[test]
fn arguments_count_from_one() {
    let f = frame(vec![Value::Integer(1), text("two")]);
    assert_eq!(f.args(), 2);
    assert!(f.arg(0).is_none());
    assert!(f.arg(1).unwrap().same(&Value::Integer(1)));
    assert!(f.arg(2).unwrap().same(&text("two")));
    assert!(f.arg(3).is_none());
}

#[test]
fn to_int_names_position_and_expected_type() {
    let f = frame(vec![Value::Integer(4), text("4"), Value::Float(1), Value::Nil]);
    assert_eq!(f.to_int(1).unwrap(), 4);
    let e = f.to_int(2).unwrap_err();
    assert_eq!((e.position, e.reason.as_str()), (2, "number expected, got string"));
    let e = f.to_int(3).unwrap_err();
    assert_eq!((e.position, e.reason.as_str()), (3, "number has no integer representation"));
    let e = f.to_int(4).unwrap_err();
    assert_eq!((e.position, e.reason.as_str()), (4, "number expected, got nil"));
    let e = f.to_int(5).unwrap_err();
    assert_eq!((e.position, e.reason.as_str()), (5, "number expected, got no value"));
}

#[test]
fn to_str_reads_raw_bytes() {
    let f = frame(vec![Value::Str(vec![0xff]), Value::Boolean(true)]);
    assert_eq!(f.to_str(1).unwrap(), vec![0xff]);
    let e = f.to_str(2).unwrap_err();
    assert_eq!((e.position, e.reason.as_str()), (2, "string expected, got boolean"));
    let e = f.to_str(3).unwrap_err();
    assert_eq!((e.position, e.reason.as_str()), (3, "string expected, got no value"));
}

#[test]
fn an_integer_reads_as_its_decimal_notation() {
    let f = frame(vec![Value::Integer(1), Value::Integer(-250), Value::Integer(i64::MIN)]);
    assert_eq!(f.to_str(1).unwrap(), b"1".to_vec());
    assert_eq!(f.to_utf8(2).unwrap(), "-250");
    assert_eq!(f.to_nilable_str(3, true).unwrap(), Some(b"-9223372036854775808".to_vec()));
    assert_eq!(f.to_nilable_utf8(1, false).unwrap(), Some("1".to_string()));
    assert_eq!(join_path(&frame(vec![text("a"), Value::Integer(1)])).unwrap(), vec!["a", "1"]);
}

#[test]
fn a_float_does_not_read_as_a_string() {
    let f = frame(vec![Value::Float(0x3ff0000000000000)]);
    let e = f.to_str(1).unwrap_err();
    assert_eq!((e.position, e.reason.as_str()), (1, "string expected, got number"));
    let e = f.to_nilable_utf8(1, true).unwrap_err();
    assert_eq!((e.position, e.reason.as_str()), (1, "nil or string expected, got number"));
}

#[test]
fn to_nilable_str_accepts_nil() {
    let f = frame(vec![Value::Nil, text("a"), Value::Boolean(true)]);
    assert_eq!(f.to_nilable_str(1, true).unwrap(), None);
    assert_eq!(f.to_nilable_str(2, true).unwrap(), Some(b"a".to_vec()));
    assert_eq!(f.to_nilable_utf8(2, true).unwrap(), Some("a".to_string()));
    assert_eq!(f.to_nilable_utf8(1, true).unwrap(), None);
    let e = f.to_nilable_str(3, false).unwrap_err();
    assert_eq!((e.position, e.reason.as_str()), (3, "nil or string expected, got boolean"));
    assert_eq!(f.to_nilable_str(4, false).unwrap(), None);
    let e = f.to_nilable_str(4, true).unwrap_err();
    assert_eq!((e.position, e.reason.as_str()), (4, "nil or string expected, got no value"));
}

#[test]
fn to_utf8_rejects_bytes_that_are_no_text() {
    let f = frame(vec![text("añb"), Value::Str(vec![0x80]), Value::Table(0)]);
    assert_eq!(f.to_utf8(1).unwrap(), "añb");
    let e = f.to_utf8(2).unwrap_err();
    assert_eq!((e.position, e.reason.as_str()), (2, "expect UTF-8 string"));
    let e = f.to_utf8(3).unwrap_err();
    assert_eq!((e.position, e.reason.as_str()), (3, "string expected, got table"));
}

#[test]
fn to_table_reads_references() {
    let f = frame(vec![Value::Table(3), Value::Nil]);
    assert_eq!(f.to_table(1).unwrap(), 3);
    let e = f.to_table(2).unwrap_err();
    assert_eq!((e.position, e.reason.as_str()), (2, "table expected, got nil"));
}

#[test]
fn results_keep_their_order() {
    let f = frame(vec![]).push(Value::Integer(1)).push(Value::Integer(2));
    let r = f.into_results();
    assert_eq!(r.len(), 2);
    assert!(r[0].same(&Value::Integer(1)));
    assert!(r[1].same(&Value::Integer(2)));
}

#[test]
fn exit_accepts_codes_up_to_99() {
    assert_eq!(GlobalModule::exit(&frame(vec![Value::Integer(0)])).unwrap().code(), 0);
    assert_eq!(GlobalModule::exit(&frame(vec![Value::Integer(99)])).unwrap().code(), 99);
    let e = GlobalModule::exit(&frame(vec![Value::Integer(100)])).unwrap_err();
    assert_eq!((e.position, e.reason.as_str()), (1, "value out of range"));
    let e = GlobalModule::exit(&frame(vec![Value::Integer(-1)])).unwrap_err();
    assert_eq!((e.position, e.reason.as_str()), (1, "value out of range"));
    let e = GlobalModule::exit(&frame(vec![Value::Integer(256)])).unwrap_err();
    assert_eq!((e.position, e.reason.as_str()), (1, "value out of range"));
    let e = GlobalModule::exit(&frame(vec![text("1")])).unwrap_err();
    assert_eq!((e.position, e.reason.as_str()), (1, "number expected, got string"));
    let e = GlobalModule::exit(&frame(vec![])).unwrap_err();
    assert_eq!((e.position, e.reason.as_str()), (1, "number expected, got no value"));
}

#[test]
fn join_path_reads_every_argument() {
    let f = frame(vec![text("a"), text("b"), text("c")]);
    assert_eq!(join_path(&f).unwrap(), vec!["a", "b", "c"]);
    let f = frame(vec![text("a")]);
    assert_eq!(join_path(&f).unwrap(), vec!["a"]);
}

#[test]
fn join_path_refuses_the_first_bad_argument() {
    let e = join_path(&frame(vec![])).unwrap_err();
    assert_eq!((e.error.position, e.error.reason.as_str()), (1, "string expected, got no value"));
    assert!(e.read.is_empty());
    let f = frame(vec![text("a"), Value::Nil, Value::Str(vec![0xff])]);
    let e = join_path(&f).unwrap_err();
    assert_eq!((e.error.position, e.error.reason.as_str()), (2, "string expected, got nil"));
    assert_eq!(e.read, vec!["a"]);
    let f = frame(vec![text("a"), Value::Str(vec![0xff]), Value::Nil]);
    let e = join_path(&f).unwrap_err();
    assert_eq!((e.error.position, e.error.reason.as_str()), (2, "expect UTF-8 string"));
    assert_eq!(e.read, vec!["a"]);
}

#[test]
fn join_path_hands_out_what_was_read_before_the_refusal() {
    let f = frame(vec![text("a"), text("b"), text("c"), Value::Str(vec![0xff]), text("e")]);
    let e = join_path(&f).unwrap_err();
    assert_eq!(e.error.position, 4);
    assert_eq!(e.read, vec!["a", "b", "c"]);
    let f = frame(vec![Value::Str(vec![0x80]), text("b")]);
    let e = join_path(&f).unwrap_err();
    assert_eq!(e.error.position, 1);
    assert!(e.read.is_empty());
}

#[test]
fn capitalize_changes_the_first_character() {
    assert_eq!(capitalize("hello world", Mode::First), "Hello world");
    assert_eq!(capitalize("", Mode::First), "");
    assert_eq!(capitalize("élan", Mode::First), "Élan");
    assert_eq!(capitalize("ßa", Mode::First), "SSa");
    assert_eq!(capitalize("Already", Mode::First), "Already");
    assert_eq!(Mode::parse("first"), Some(Mode::First));
    assert_eq!(Mode::parse("First"), None);
    assert_eq!(Mode::parse(""), None);
}

#[test]
fn args_show_what_the_user_gave() {
    let args = Args::new(vec![
        ArgEntry { name: "release".to_string(), value: ArgValue::Flag(true) },
        ArgEntry { name: "debug".to_string(), value: ArgValue::Flag(false) },
        ArgEntry { name: "target".to_string(), value: ArgValue::Text(Some("x86".to_string())) },
        ArgEntry { name: "prefix".to_string(), value: ArgValue::Text(None) },
    ]);
    assert!(args.get("release").same(&Value::Boolean(true)));
    assert!(args.get("debug").same(&Value::Boolean(false)));
    assert!(args.get("target").same(&text("x86")));
    assert!(args.get("prefix").is_nil());
    assert!(args.get("unknown").is_nil());
    let twice = Args::new(vec![
        ArgEntry { name: "n".to_string(), value: ArgValue::Flag(false) },
        ArgEntry { name: "n".to_string(), value: ArgValue::Text(Some("late".to_string())) },
    ]);
    assert!(twice.get("n").same(&text("late")));
    assert_eq!(ArgValue::Flag(true).ty(), ArgType::Bool);
    assert_eq!(ArgValue::Text(None).ty(), ArgType::String);
}

#[test]
fn module_names() {
    assert_eq!(GlobalModule.name(), "_G");
    assert_eq!(JsonModule.name(), "json");
    assert_eq!(PathModule.name(), "path");
    assert_eq!(StringModule.name(), "string");
    assert_eq!(UrlModule.name(), "Url");
    assert_eq!(OsModule { arch: "x86_64", kind: "linux" }.name(), "os");
    assert_eq!(ArgsModule { payload: 0 }.name(), "args");
}

#[test]
fn a_module_opens_once() {
    let mut en = Engine::new();
    let mut classes = Registry::new();
    let mut modules = Modules::new();
    assert!(modules.use_module(&mut en, &mut classes, None, true, JsonModule).is_ok());
    assert!(modules.has("json"));
    assert_eq!(en.top(), 0);
    let again = modules.use_module(&mut en, &mut classes, None, true, JsonModule);
    assert!(matches!(again, Err(ModuleError::Exists)));
    en.get_global("json");
    en.get_field(-1, "parse");
    assert_eq!(en.pop_type(), "function");
}

#[test]
fn a_module_can_be_used_under_another_name() {
    let mut en = Engine::new();
    let mut classes = Registry::new();
    let mut modules = Modules::new();
    assert!(modules.use_module(&mut en, &mut classes, Some("p"), false, PathModule).is_ok());
    assert!(modules.has("p"));
    assert!(!modules.has("path"));
    en.get_global("p");
    assert_eq!(en.pop_nil(), Some(()));
    assert!(modules.use_module(&mut en, &mut classes, None, true, PathModule).is_ok());
    en.get_global("path");
    assert_eq!(en.pop_type(), "table");
}

#[test]
fn a_later_module_replaces_a_global() {
    let mut en = Engine::new();
    let mut classes = Registry::new();
    let mut modules = Modules::new();
    en.push_int(1);
    en.set_global("string");
    assert!(modules.use_module(&mut en, &mut classes, None, true, StringModule).is_ok());
    en.get_global("string");
    en.get_field(-1, "capitalize");
    assert_eq!(en.pop_type(), "function");
    en.get_field(-1, "upper");
    assert_eq!(en.pop_type(), "function");
}

#[test]
fn the_global_module_publishes_exit() {
    let mut en = Engine::new();
    let mut classes = Registry::new();
    let mut modules = Modules::new();
    assert!(modules.use_module(&mut en, &mut classes, None, true, GlobalModule).is_ok());
    en.get_global("exit");
    assert_eq!(en.pop_type(), "function");
    en.get_global("print");
    assert_eq!(en.pop_type(), "function");
    en.get_global("_G");
    assert_eq!(en.pop_type(), "table");
    assert_eq!(en.top(), 0);
}

#[test]
fn the_os_module_registers_its_classes() {
    let mut en = Engine::new();
    let mut classes = Registry::new();
    let mut modules = Modules::new();
    let os = OsModule { arch: "aarch64", kind: "macos" };
    assert!(modules.use_module(&mut en, &mut classes, None, true, os).is_ok());
    assert_eq!(classes.class_id("Process"), Some(0));
    assert_eq!(classes.class_id("OutputStream"), Some(1));
    en.get_global("os");
    en.get_field(-1, "arch");
    assert_eq!(en.pop_string_lossy().ok(), Some("aarch64".to_string()));
    en.get_field(-1, "kind");
    assert_eq!(en.pop_string_lossy().ok(), Some("macos".to_string()));
    en.get_field(-1, "spawn");
    assert_eq!(en.pop_type(), "function");
    en.get_field(-1, "exit");
    assert_eq!(en.pop_nil(), Some(()));
}

#[test]
fn a_module_fails_when_its_class_name_is_taken() {
    let mut en = Engine::new();
    let mut classes = Registry::new();
    let mut modules = Modules::new();
    classes.register("OutputStream", |b: ClassBuilder| b).unwrap();
    let os = OsModule { arch: "x86_64", kind: "linux" };
    let r = modules.use_module(&mut en, &mut classes, None, true, os);
    match r {
        Err(ModuleError::Open(e)) => assert_eq!(e.to_lua(), "class is already registered"),
        _ => panic!("opened"),
    }
    assert!(!modules.has("os"));
    assert_eq!(classes.class_id("Process"), None);
    en.get_global("os");
    assert_eq!(en.pop_nil(), Some(()));
}

#[test]
fn the_args_module_is_an_instance() {
    let mut en = Engine::new();
    let mut classes = Registry::new();
    let mut modules = Modules::new();
    let m = ArgsModule { payload: 9 };
    assert!(modules.use_module(&mut en, &mut classes, None, true, m).is_ok());
    en.get_global("args");
    assert!(en.value(-1).same(&Value::UserData(0)));
    let class = classes.class_id("Args").unwrap();
    assert_eq!(classes.borrow(0, class), Ok(9));
}

#[test]
fn install_opens_the_modules_of_the_host() {
    let mut en = Engine::new();
    let mut classes = Registry::new();
    let mut modules = Modules::new();
    let r = lua_bridge::setup::install(
        &mut en,
        &mut modules,
        &mut classes,
        ArgsModule { payload: 1 },
        OsModule { arch: "x86_64", kind: "linux" },
    );
    assert!(r.is_ok());
    assert_eq!(en.top(), 0);
    for name in ["args", "_G", "json", "os", "path", "Url"] {
        assert!(modules.has(name));
        en.get_global(name);
        assert!(!en.is_nil(-1));
        en.pop();
    }
    assert_eq!(classes.class_id("Args"), Some(0));
    assert_eq!(classes.class_id("Process"), Some(1));
    assert_eq!(classes.class_id("OutputStream"), Some(2));
    en.get_global("exit");
    assert_eq!(en.pop_type(), "function");
}

#[test]
fn install_stops_at_a_name_in_use() {
    let mut en = Engine::new();
    let mut classes = Registry::new();
    let mut modules = Modules::new();
    modules.use_module(&mut en, &mut classes, Some("os"), false, JsonModule).unwrap();
    let r = lua_bridge::setup::install(
        &mut en,
        &mut modules,
        &mut classes,
        ArgsModule { payload: 1 },
        OsModule { arch: "x86_64", kind: "linux" },
    );
    assert!(matches!(r, Err(ModuleError::Exists)));
    // The modules before the one refused stay open; those after it were not opened.
    assert!(modules.has("args"));
    assert!(modules.has("_G"));
    assert!(modules.has("json"));
    assert!(!modules.has("path"));
    assert!(!modules.has("Url"));
    assert_eq!(classes.class_id("Args"), Some(0));
    assert_eq!(classes.class_id("Process"), None);
    en.get_global("json");
    assert_eq!(en.pop_type(), "table");
    en.get_global("path");
    assert_eq!(en.pop_nil(), Some(()));
    assert_eq!(en.top(), 0);
}

#[test]
fn install_stops_at_a_class_that_is_taken() {
    let mut en = Engine::new();
    let mut classes = Registry::new();
    let mut modules = Modules::new();
    classes.register("Process", |b: ClassBuilder| b).unwrap();
    let r = lua_bridge::setup::install(
        &mut en,
        &mut modules,
        &mut classes,
        ArgsModule { payload: 1 },
        OsModule { arch: "x86_64", kind: "linux" },
    );
    match r {
        Err(ModuleError::Open(e)) => assert_eq!(e.to_lua(), "class is already registered"),
        _ => panic!("installed"),
    }
    assert!(modules.has("args") && modules.has("_G") && modules.has("json"));
    assert!(!modules.has("os") && !modules.has("path") && !modules.has("Url"));
    assert_eq!(classes.class_id("OutputStream"), None);
    assert_eq!(classes.class_id("Args"), Some(1));
    assert_eq!(en.top(), 0);
}

#[test]
fn install_stops_at_once_where_the_first_name_is_in_use() {
    let mut en = Engine::new();
    let mut classes = Registry::new();
    let mut modules = Modules::new();
    modules.use_module(&mut en, &mut classes, Some("args"), false, PathModule).unwrap();
    let r = lua_bridge::setup::install(
        &mut en,
        &mut modules,
        &mut classes,
        ArgsModule { payload: 1 },
        OsModule { arch: "x86_64", kind: "linux" },
    );
    assert!(matches!(r, Err(ModuleError::Exists)));
    assert!(!modules.has("_G"));
    assert_eq!(classes.class_id("Args"), None);
}

#[test]
fn tables_read_and_write_by_index() {
    let mut en = Engine::new();
    en.new_table();
    en.push_string("git");
    en.set_index(-2, 1);
    en.get_index(1, 1);
    assert_eq!(en.pop_string_lossy().ok(), Some("git".to_string()));
    en.get_index(1, 2);
    assert_eq!(en.pop_nil(), Some(()));
    en.get_field(1, "1");
    assert_eq!(en.pop_nil(), Some(()));
}

#[test]
fn url_new_hands_out_the_path() {
    let f = frame(vec![Value::Table(0), text("https://example.com/api/versions?page=2")]);
    assert_eq!(Url::new(&f).unwrap().path(), "/api/versions");
    let f = frame(vec![Value::Nil, text("https://example.com")]);
    assert_eq!(Url::new(&f).unwrap().path(), "/");
    let f = frame(vec![Value::Nil, text("https://example.com/a b")]);
    assert_eq!(Url::new(&f).unwrap().path(), "/a%20b");
}

#[test]
fn url_new_refuses_what_is_no_url() {
    let f = frame(vec![Value::Nil, text("/just/a/path")]);
    match Url::new(&f) {
        Err(NativeError::Argument(e)) => {
            assert_eq!(e.position, 2);
            assert_eq!(e.reason, "relative URL without a base");
        }
        _ => panic!("parsed"),
    }
    let f = frame(vec![Value::Nil, Value::Str(vec![0xff])]);
    assert!(matches!(Url::new(&f), Err(NativeError::Other(m)) if m == "expect UTF-8 string"));
    let f = frame(vec![Value::Nil, Value::Boolean(true)]);
    match Url::new(&f) {
        Err(NativeError::Argument(e)) => {
            assert_eq!((e.position, e.reason.as_str()), (2, "string expected, got boolean"));
        }
        _ => panic!("parsed"),
    }
    let f = frame(vec![Value::Nil, Value::Integer(1)]);
    match Url::new(&f) {
        Err(NativeError::Argument(e)) => {
            assert_eq!((e.position, e.reason.as_str()), (2, "relative URL without a base"));
        }
        _ => panic!("parsed"),
    }
    let f = frame(vec![Value::Nil]);
    match Url::new(&f) {
        Err(NativeError::Argument(e)) => {
            assert_eq!((e.position, e.reason.as_str()), (2, "string expected, got no value"));
        }
        _ => panic!("parsed"),
    }
}

#[test]
fn url_from_parsed_keeps_what_the_parser_found() {
    assert_eq!(Url::from_parsed(Ok("/x".to_string())).unwrap().path(), "/x");
    match Url::from_parsed(Err("empty host".to_string())) {
        Err(NativeError::Argument(e)) => {
            assert_eq!((e.position, e.reason.as_str()), (2, "empty host"));
        }
        _ => panic!("parsed"),
    }
}

#[test]
fn replace_first_keeps_the_rest() {
    assert_eq!(replace_first("hello", "J".to_string()), "Jello");
    assert_eq!(replace_first("ßa", "SS".to_string()), "SSa");
    assert_eq!(replace_first("", "X".to_string()), "");
    assert_eq!(replace_first("é", String::new()), "");
}

#[test]
fn a_second_open_keeps_the_classes_of_the_first() {
    let mut en = Engine::new();
    let mut classes = Registry::new();
    let first = OsModule { arch: "x86_64", kind: "linux" }.open(&mut en, &mut classes);
    assert!(first.is_ok());
    let process = classes.class_id("Process").unwrap();
    let stream = classes.class_id("OutputStream").unwrap();
    assert_eq!(
        classes.member(process, b"__close"),
        lua_bridge::registry::Member::Method(lua_bridge::api::PROCESS_KILL)
    );
    assert_eq!(
        classes.member(stream, b"read"),
        lua_bridge::registry::Member::Method(lua_bridge::api::STREAM_READ)
    );
    let second = OsModule { arch: "x86_64", kind: "linux" }.open(&mut en, &mut classes);
    assert_eq!(second.unwrap_err().to_lua(), "class is already registered");
    assert_eq!(classes.class_id("Process"), Some(process));
    assert_eq!(classes.class_id("OutputStream"), Some(stream));
    assert_eq!(
        classes.member(process, b"__close"),
        lua_bridge::registry::Member::Method(lua_bridge::api::PROCESS_KILL)
    );
    assert_eq!(classes.member(process, b"read"), lua_bridge::registry::Member::Missing);
    assert_eq!(en.top(), 0);
}

#[test]
fn a_second_open_keeps_the_index_of_the_arguments() {
    let mut en = Engine::new();
    let mut classes = Registry::new();
    assert!(ArgsModule { payload: 1 }.open(&mut en, &mut classes).is_ok());
    let class = classes.class_id("Args").unwrap();
    assert_eq!(
        classes.member(class, b"__index"),
        lua_bridge::registry::Member::Method(lua_bridge::api::ARGS_GET)
    );
    let second = ArgsModule { payload: 2 }.open(&mut en, &mut classes);
    assert_eq!(second.unwrap_err().to_lua(), "class is already registered");
    assert_eq!(
        classes.member(class, b"__index"),
        lua_bridge::registry::Member::Method(lua_bridge::api::ARGS_GET)
    );
    assert_eq!(classes.borrow(0, class), Ok(1));
    assert_eq!(classes.borrow(1, class), Err(lua_bridge::registry::AccessError::NotAnInstance));
}
