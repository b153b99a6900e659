use lua_bridge::error::{ArgError, Disposition, ErrorKind, LuaError};
use lua_bridge::table::{Key, Table};
use lua_bridge::text::{decimal, signed};
use lua_bridge::ty::Type;
use lua_bridge::value::{bytes_eq, copy_bytes, Value};

#[test]
fn type_names_are_those_of_the_runtime() {
    assert_eq!(Type::NoValue.name(), "no value");
    assert_eq!(Type::Nil.name(), "nil");
    assert_eq!(Type::Boolean.name(), "boolean");
    assert_eq!(Type::LightUserData.name(), "userdata");
    assert_eq!(Type::Number.name(), "number");
    assert_eq!(Type::String.name(), "string");
    assert_eq!(Type::Table.name(), "table");
    assert_eq!(Type::Function.name(), "function");
    assert_eq!(Type::Userdata.name(), "userdata");
    assert_eq!(Type::Thread.name(), "thread");
}

#[test]
fn byte_string_round_trip() {
    let all: Vec<u8> = (0..=255u8).collect();
    let v = Value::Str(all.clone());
    assert_eq!(v.as_bytes(), Some(all.as_slice()));
    let empty = Value::Str(Vec::new());
    assert_eq!(empty.as_bytes(), Some(&[][..]));
    assert_eq!(empty.to_text().unwrap(), "");
}

#[test]
fn text_reads_succeed_on_valid_text_only() {
    let v = Value::Str("grüße, 世界".as_bytes().to_vec());
    assert_eq!(v.to_text().unwrap(), "grüße, 世界");
    let bad = Value::Str(vec![0xc3, 0x28]);
    assert_eq!(bad.as_bytes(), Some(&[0xc3, 0x28][..]));
    assert_eq!(bad.to_text().unwrap_err().ty_name, "string");
    let truncated = Value::Str(vec![0xe4, 0xb8]);
    assert!(truncated.to_text().is_err());
    let surrogate = Value::Str(vec![0xed, 0xa0, 0x80]);
    assert!(surrogate.to_text().is_err());
}

#[test]
fn text_reads_of_other_values_name_their_type() {
    assert_eq!(Value::Integer(1).to_text().unwrap_err().ty_name, "number");
    assert_eq!(Value::Nil.to_text().unwrap_err().ty_name, "nil");
    assert_eq!(Value::Table(0).to_text().unwrap_err().ty_name, "table");
    assert_eq!(Value::Integer(1).as_bytes(), None);
}

#[test]
fn integer_reads_are_exact() {
    assert_eq!(Value::Integer(i64::MAX).as_int(), Some(i64::MAX));
    assert_eq!(Value::Float(0).as_int(), None);
    assert_eq!(Value::Str(b"1".to_vec()).as_int(), None);
    assert_eq!(Value::Boolean(true).as_int(), None);
}

#[test]
fn only_nil_and_false_are_falsy() {
    assert!(!Value::Nil.to_bool());
    assert!(!Value::Boolean(false).to_bool());
    assert!(Value::Boolean(true).to_bool());
    assert!(Value::Integer(0).to_bool());
    assert!(Value::Str(Vec::new()).to_bool());
}

#[test]
fn same_compares_content() {
    assert!(Value::Str(b"a".to_vec()).same(&Value::Str(b"a".to_vec())));
    assert!(!Value::Str(b"a".to_vec()).same(&Value::Str(b"b".to_vec())));
    assert!(!Value::Integer(1).same(&Value::Float(1)));
    assert!(Value::Table(3).same(&Value::Table(3)));
    assert!(!Value::Table(3).same(&Value::Function(3)));
    assert!(Value::Table(3).dup().same(&Value::Table(3)));
    assert!(bytes_eq(b"ab", b"ab"));
    assert!(!bytes_eq(b"ab", b"abc"));
    assert_eq!(copy_bytes(b"xyz"), b"xyz".to_vec());
}

#[test]
fn table_reads_and_writes() {
    let mut t = Table::new();
    t.set(Key::Int(1), Value::Str(b"one".to_vec()));
    t.set(Key::named("two"), Value::Integer(2));
    assert!(t.get(&Key::Int(1)).same(&Value::Str(b"one".to_vec())));
    assert!(t.get(&Key::named("two")).same(&Value::Integer(2)));
    assert!(t.get(&Key::Int(2)).is_nil());
    assert!(t.get(&Key::Str(b"1".to_vec())).is_nil());
    t.set(Key::Int(1), Value::Integer(11));
    assert!(t.get(&Key::Int(1)).same(&Value::Integer(11)));
    t.set(Key::Int(1), Value::Nil);
    assert!(!t.contains(&Key::Int(1)));
    assert!(t.contains(&Key::named("two")));
    t.set(Key::Int(9), Value::Nil);
    assert!(!t.contains(&Key::Int(9)));
}

#[test]
fn chained_causes_are_joined_by_arrows() {
    assert_eq!(LuaError::new("failed to X").to_lua(), "failed to X");
    let e = LuaError::with_source("failed to X", vec!["cause1".into(), "cause2".into()]);
    assert_eq!(e.to_lua(), "failed to X -> cause1 -> cause2");
    let e = LuaError::with_source("m", Vec::new());
    assert_eq!(e.to_lua(), "m");
}

#[test]
fn argument_errors_carry_the_position() {
    let e = ArgError { position: 2, reason: "number expected, got nil".to_string() };
    assert_eq!(e.describe(), "bad argument #2 (number expected, got nil)");
    assert_eq!(e.raise().to_lua(), "bad argument #2 (number expected, got nil)");
}

#[test]
fn errors_fall_under_their_kind() {
    let e = ArgError { position: 1, reason: String::new() };
    assert_eq!(e.kind(), ErrorKind::Argument);
    assert_eq!(Value::Nil.to_text().unwrap_err().kind(), ErrorKind::Conversion);
    assert_eq!(
        lua_bridge::registry::RegistryError::AlreadyRegistered.kind(),
        ErrorKind::Protocol
    );
    assert_eq!(
        lua_bridge::registry::RegistryError::AlreadyRegistered.kind().disposition(),
        Disposition::Abort
    );
}

#[test]
fn only_protocol_errors_abort() {
    assert_eq!(ErrorKind::Protocol.disposition(), Disposition::Abort);
    assert_eq!(ErrorKind::Argument.disposition(), Disposition::Raise);
    assert_eq!(ErrorKind::Runtime.disposition(), Disposition::Raise);
    assert_eq!(ErrorKind::Conversion.disposition(), Disposition::Raise);
    assert_eq!(ErrorKind::Resource.disposition(), Disposition::Raise);
    assert_eq!(ErrorKind::ClassMismatch.disposition(), Disposition::Raise);
}

#[test]
fn numbers_are_written_in_decimal() {
    assert_eq!(decimal(0), "0");
    assert_eq!(decimal(7), "7");
    assert_eq!(decimal(10), "10");
    assert_eq!(decimal(1234567890), "1234567890");
    assert_eq!(decimal(u64::MAX), "18446744073709551615");
    assert_eq!(signed(0), "0");
    assert_eq!(signed(-1), "-1");
    assert_eq!(signed(i64::MAX), "9223372036854775807");
    assert_eq!(signed(i64::MIN), "-9223372036854775808");
}
