use lnbits_rust::json::json_int;
use lnbits_rust::json::json_opt_bool;
use lnbits_rust::json::json_opt_int;
use lnbits_rust::json::json_opt_string;
use lnbits_rust::json::json_string;
use lnbits_rust::json::read_str_array;

#[test]
fn json_string_quotes_and_escapes() {
    assert_eq!(json_string("sat"), "\"sat\"");
    assert_eq!(json_string(""), "\"\"");
    assert_eq!(json_string("a\"b\\c"), "\"a\\\"b\\\\c\"");
}

#[test]
fn json_string_escapes_control_characters() {
    assert_eq!(json_string("\t\n\r\u{8}\u{c}"), "\"\\t\\n\\r\\b\\f\"");
    assert_eq!(json_string("\u{1}\u{1f}"), "\"\\u0001\\u001f\"");
    assert_eq!(json_string("/\u{7f}é"), "\"/\u{7f}é\"");
}

#[test]
fn json_int_writes_decimal() {
    assert_eq!(json_int(0), "0");
    assert_eq!(json_int(7), "7");
    assert_eq!(json_int(10), "10");
    assert_eq!(json_int(-1), "-1");
    assert_eq!(json_int(1234567890), "1234567890");
    assert_eq!(json_int(i64::MIN), "-9223372036854775808");
    assert_eq!(json_int(i64::MAX), "9223372036854775807");
}

#[test]
fn json_options_write_null_when_absent() {
    assert_eq!(json_opt_int(None), "null");
    assert_eq!(json_opt_int(Some(42)), "42");
    assert_eq!(json_opt_bool(None), "null");
    assert_eq!(json_opt_bool(Some(false)), "false");
    assert_eq!(json_opt_string(&None), "null");
    assert_eq!(json_opt_string(&Some("m".to_string())), "\"m\"");
}

#[test]
fn string_arrays_must_hold_only_strings() {
    assert_eq!(read_str_array("{\"a\":[\"x\",\"y\"]}", "a").unwrap(), vec!["x".to_string(), "y".to_string()]);
    assert!(read_str_array("{\"a\":[\"x\",1]}", "a").is_err());
    assert!(read_str_array("{}", "a").is_err());
}
