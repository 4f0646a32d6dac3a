//! JSON text for request payloads: strings are quoted by `serde_json`,
//! integers, booleans and `null` are written here.
use vstd::prelude::*;
use vstd::string::*;

use crate::LNBitsError;

verus! {

/// A lowercase hexadecimal digit, for `d < 16`.
pub open spec fn hex_digit(d: nat) -> char {
    "0123456789abcdef"@[d as int]
}

/// How one character stands inside a JSON string: `"` and `\` after a
/// backslash, the usual short forms for backspace, tab, line feed, form feed
/// and carriage return, `\u00xx` for the other control characters below
/// 0x20, and any other character as itself.
pub open spec fn escape_char(c: char) -> Seq<char> {
    if c == '"' {
        seq!['\\', '"']
    } else if c == '\\' {
        seq!['\\', '\\']
    } else if c == '\x08' {
        seq!['\\', 'b']
    } else if c == '\t' {
        seq!['\\', 't']
    } else if c == '\n' {
        seq!['\\', 'n']
    } else if c == '\x0c' {
        seq!['\\', 'f']
    } else if c == '\r' {
        seq!['\\', 'r']
    } else if (c as u32) < 0x20 {
        seq!['\\', 'u', '0', '0', hex_digit((c as u32 / 16) as nat), hex_digit((c as u32 % 16) as nat)]
    } else {
        seq![c]
    }
}

/// The characters of a string, each as it stands inside a JSON string.
pub open spec fn escaped(s: Seq<char>) -> Seq<char>
    decreases s.len(),
{
    if s.len() == 0 {
        Seq::empty()
    } else {
        escape_char(s[0]) + escaped(s.drop_first())
    }
}

/// The JSON text of a string: the string, escaped, between double quotes.
pub open spec fn json_string_of(s: Seq<char>) -> Seq<char> {
    seq!['"'] + escaped(s) + seq!['"']
}

/// Relies on `serde_json::to_string` on a `str`: its compact formatter
/// escapes exactly `"`, `\\` and the bytes below 0x20, as `escape_char`
/// says. Its writer is a `Vec<u8>`, which never fails, so the result is
/// always `Ok`.
#[verifier::external_body]
fn quote(s: &str) -> (r: Result<String, serde_json::Error>)
    ensures
        r is Ok,
        r matches Ok(t) ==> t@ == json_string_of(s@),
{
    serde_json::to_string(s)
}

/// The JSON text of a string.
pub fn json_string(s: &str) -> (r: String)
    ensures
        r@ == json_string_of(s@),
{
    match quote(s) {
        Ok(t) => t,
        Err(_) => {
            proof {
                assert(false);
            }
            String::new()
        },
    }
}

/// The decimal digit `d` as text.
pub open spec fn digit_text(d: nat) -> Seq<char> {
    if d == 0 {
        "0"@
    } else if d == 1 {
        "1"@
    } else if d == 2 {
        "2"@
    } else if d == 3 {
        "3"@
    } else if d == 4 {
        "4"@
    } else if d == 5 {
        "5"@
    } else if d == 6 {
        "6"@
    } else if d == 7 {
        "7"@
    } else if d == 8 {
        "8"@
    } else {
        "9"@
    }
}

/// The decimal digits of a natural number, most significant first, with no
/// leading zero.
pub open spec fn digits(n: nat) -> Seq<char>
    decreases n,
{
    if n < 10 {
        digit_text(n)
    } else {
        digits(n / 10) + digit_text(n % 10)
    }
}

/// The JSON text of an integer: its decimal digits, after `-` if negative.
pub open spec fn decimal(n: int) -> Seq<char> {
    if n < 0 {
        "-"@ + digits((-n) as nat)
    } else {
        digits(n as nat)
    }
}

/// The JSON text of a boolean.
pub open spec fn bool_text(b: bool) -> Seq<char> {
    if b {
        "true"@
    } else {
        "false"@
    }
}

/// The JSON text of an optional string: `null` when absent.
pub open spec fn opt_string_text(s: Option<Seq<char>>) -> Seq<char> {
    match s {
        Some(t) => json_string_of(t),
        None => "null"@,
    }
}

/// The JSON text of an optional integer: `null` when absent.
pub open spec fn opt_int_text(n: Option<int>) -> Seq<char> {
    match n {
        Some(v) => decimal(v),
        None => "null"@,
    }
}

/// The JSON text of an optional boolean: `null` when absent.
pub open spec fn opt_bool_text(b: Option<bool>) -> Seq<char> {
    match b {
        Some(v) => bool_text(v),
        None => "null"@,
    }
}

fn digit_str(d: u64) -> (r: &'static str)
    requires
        d < 10,
    ensures
        r@ == digit_text(d as nat),
{
    if d == 0 {
        "0"
    } else if d == 1 {
        "1"
    } else if d == 2 {
        "2"
    } else if d == 3 {
        "3"
    } else if d == 4 {
        "4"
    } else if d == 5 {
        "5"
    } else if d == 6 {
        "6"
    } else if d == 7 {
        "7"
    } else if d == 8 {
        "8"
    } else {
        "9"
    }
}

fn digits_string(n: u64) -> (r: String)
    ensures
        r@ == digits(n as nat),
    decreases n,
{
    if n < 10 {
        String::from_str(digit_str(n))
    } else {
        let mut s = digits_string(n / 10);
        s.append(digit_str(n % 10));
        s
    }
}

/// The JSON text of an integer.
pub fn json_int(n: i64) -> (r: String)
    ensures
        r@ == decimal(n as int),
{
    if n < 0 {
        let m: u64 = (0i128 - n as i128) as u64;
        let mut s = String::from_str("-");
        let d = digits_string(m);
        s.append(d.as_str());
        s
    } else {
        digits_string(n as u64)
    }
}

/// The JSON text of a boolean.
pub fn json_bool(b: bool) -> (r: &'static str)
    ensures
        r@ == bool_text(b),
{
    if b {
        "true"
    } else {
        "false"
    }
}

/// The JSON text of an optional string.
pub fn json_opt_string(s: &Option<String>) -> (r: String)
    ensures
        r@ == opt_string_text(opt_view(s)),
{
    match s {
        Some(t) => json_string(t.as_str()),
        None => String::from_str("null"),
    }
}

/// The JSON text of an optional integer.
pub fn json_opt_int(n: Option<i64>) -> (r: String)
    ensures
        r@ == opt_int_text(opt_int(n)),
{
    match n {
        Some(v) => json_int(v),
        None => String::from_str("null"),
    }
}

/// The JSON text of an optional boolean.
pub fn json_opt_bool(b: Option<bool>) -> (r: &'static str)
    ensures
        r@ == opt_bool_text(b),
{
    match b {
        Some(v) => json_bool(v),
        None => "null",
    }
}

/// An optional string, seen as an optional sequence of characters.
pub open spec fn opt_view(s: &Option<String>) -> Option<Seq<char>> {
    match s {
        Some(t) => Some(t@),
        None => None,
    }
}

/// An optional machine integer, seen as an optional mathematical one.
pub open spec fn opt_int(n: Option<i64>) -> Option<int> {
    match n {
        Some(v) => Some(v as int),
        None => None,
    }
}

/// Whether `serde_json::from_str` reads the text as a JSON value.
pub uninterp spec fn json_parses(text: Seq<char>) -> bool;

/// The boolean that `serde_json::Value::get` then `Value::as_bool` find
/// under `key` in the JSON value of `text`: `None` when the text is not an
/// object, the member is absent, or it is not a boolean.
pub uninterp spec fn json_bool_member(text: Seq<char>, key: Seq<char>) -> Option<bool>;

/// The string that `serde_json::Value::get` then `Value::as_str` find under
/// `key` in the JSON value of `text`: `None` when the text is not an object,
/// the member is absent, or it is not a string.
pub uninterp spec fn json_str_member(text: Seq<char>, key: Seq<char>) -> Option<Seq<char>>;

/// The integer that `serde_json::Value::get` then `Value::as_i64` find under
/// `key` in the JSON value of `text`: `None` when the text is not an object,
/// the member is absent, or it is not an integer that fits in an `i64`.
pub uninterp spec fn json_int_member(text: Seq<char>, key: Seq<char>) -> Option<int>;

/// Whether `Value::is_null` holds of what `serde_json::Value::get` finds
/// under `key` in the JSON value of `text`: `None` when it finds nothing.
pub uninterp spec fn json_null_member(text: Seq<char>, key: Seq<char>) -> Option<bool>;

/// The strings that `serde_json::Value::get`, `Value::as_array` and
/// `Value::as_str` on each item find under `key` in the JSON value of
/// `text`: `None` unless the member is an array of strings.
pub uninterp spec fn json_str_array_member(text: Seq<char>, key: Seq<char>) -> Option<
    Seq<Seq<char>>,
>;

/// Relies on `serde_json::from_str` into a `serde_json::Value` (it fails
/// exactly on text that is not JSON), then on `Value::get` and
/// `Value::as_bool` to read one boolean member.
#[verifier::external_body]
pub(crate) fn bool_member(text: &str, key: &str) -> (r: Result<Option<bool>, serde_json::Error>)
    ensures
        r is Ok <==> json_parses(text@),
        r matches Ok(b) ==> b == json_bool_member(text@, key@),
{
    serde_json::from_str::<serde_json::Value>(text).map(
        |v| v.get(key).and_then(serde_json::Value::as_bool),
    )
}

/// Relies on `serde_json::from_str` into a `serde_json::Value`, then on
/// `Value::get` and `Value::as_str` to read one string member.
#[verifier::external_body]
pub(crate) fn str_member(text: &str, key: &str) -> (r: Result<Option<String>, serde_json::Error>)
    ensures
        r is Ok <==> json_parses(text@),
        r matches Ok(m) ==> opt_view(&m) == json_str_member(text@, key@),
{
    serde_json::from_str::<serde_json::Value>(text).map(
        |v| v.get(key).and_then(serde_json::Value::as_str).map(String::from),
    )
}

/// Relies on `serde_json::from_str` into a `serde_json::Value`, then on
/// `Value::get` and `Value::as_i64` to read one integer member.
#[verifier::external_body]
pub(crate) fn int_member(text: &str, key: &str) -> (r: Result<Option<i64>, serde_json::Error>)
    ensures
        r is Ok <==> json_parses(text@),
        r matches Ok(m) ==> opt_int(m) == json_int_member(text@, key@),
{
    serde_json::from_str::<serde_json::Value>(text).map(
        |v| v.get(key).and_then(serde_json::Value::as_i64),
    )
}

/// Relies on `serde_json::from_str` into a `serde_json::Value`, then on
/// `Value::get` and `Value::is_null`: whether a member that is there is null.
#[verifier::external_body]
pub(crate) fn null_member(text: &str, key: &str) -> (r: Result<Option<bool>, serde_json::Error>)
    ensures
        r is Ok <==> json_parses(text@),
        r matches Ok(b) ==> b == json_null_member(text@, key@),
{
    serde_json::from_str::<serde_json::Value>(text).map(
        |v| v.get(key).map(serde_json::Value::is_null),
    )
}

/// Relies on `serde_json::from_str` into a `serde_json::Value`, then on
/// `Value::get`, `Value::as_array` and `Value::as_str` on each item to read
/// one member that is an array of strings.
#[verifier::external_body]
pub(crate) fn str_array_member(text: &str, key: &str) -> (r: Result<
    Option<Vec<String>>,
    serde_json::Error,
>)
    ensures
        r is Ok <==> json_parses(text@),
        r matches Ok(m) ==> match m {
            Some(v) => json_str_array_member(text@, key@) == Some(v.deep_view()),
            None => json_str_array_member(text@, key@) is None,
        },
{
    serde_json::from_str::<serde_json::Value>(text).map(
        |v|
            v.get(key).and_then(serde_json::Value::as_array).and_then(
                |a| a.iter().map(|x| x.as_str().map(String::from)).collect(),
            ),
    )
}

/// Relies on `serde::de::Error::custom` for `serde_json::Error`: an error
/// that says which member of a JSON body is missing or of the wrong type.
#[verifier::external_body]
pub(crate) fn shape_error(key: &str) -> (r: serde_json::Error) {
    <serde_json::Error as serde::de::Error>::custom(format!("missing or invalid field `{}`", key))
}

/// A member that reads as a string.
pub open spec fn has_str(text: Seq<char>, key: Seq<char>) -> bool {
    json_str_member(text, key) is Some
}

/// A member that reads as an `i64`.
pub open spec fn has_int(text: Seq<char>, key: Seq<char>) -> bool {
    json_int_member(text, key) is Some
}

/// A member that is a string, null, or absent.
pub open spec fn has_opt_str(text: Seq<char>, key: Seq<char>) -> bool {
    json_str_member(text, key) is Some || json_null_member(text, key) != Some(false)
}

/// A member that is an array of strings.
pub open spec fn has_str_array(text: Seq<char>, key: Seq<char>) -> bool {
    json_str_array_member(text, key) is Some
}

/// Reads a string member of a JSON body.
pub fn read_str(text: &str, key: &str) -> (r: Result<String, LNBitsError>)
    ensures
        r is Ok <==> json_parses(text@) && has_str(text@, key@),
        r matches Ok(s) ==> json_str_member(text@, key@) == Some(s@),
        r is Err ==> r matches Err(LNBitsError::SerdeError(_)),
{
    match str_member(text, key) {
        Ok(Some(s)) => Ok(s),
        Ok(None) => Err(LNBitsError::SerdeError(shape_error(key))),
        Err(e) => Err(LNBitsError::SerdeError(e)),
    }
}

/// Reads an integer member of a JSON body.
pub fn read_int(text: &str, key: &str) -> (r: Result<i64, LNBitsError>)
    ensures
        r is Ok <==> json_parses(text@) && has_int(text@, key@),
        r matches Ok(n) ==> json_int_member(text@, key@) == Some(n as int),
        r is Err ==> r matches Err(LNBitsError::SerdeError(_)),
{
    match int_member(text, key) {
        Ok(Some(n)) => Ok(n),
        Ok(None) => Err(LNBitsError::SerdeError(shape_error(key))),
        Err(e) => Err(LNBitsError::SerdeError(e)),
    }
}

/// Reads an optional string member of a JSON body: absent or null is `None`.
pub fn read_opt_str(text: &str, key: &str) -> (r: Result<Option<String>, LNBitsError>)
    ensures
        r is Ok <==> json_parses(text@) && has_opt_str(text@, key@),
        r matches Ok(m) ==> opt_view(&m) == json_str_member(text@, key@),
        r is Err ==> r matches Err(LNBitsError::SerdeError(_)),
{
    match str_member(text, key) {
        Ok(Some(s)) => Ok(Some(s)),
        Ok(None) => match null_member(text, key) {
            Ok(Some(false)) => Err(LNBitsError::SerdeError(shape_error(key))),
            Ok(_) => Ok(None),
            Err(e) => Err(LNBitsError::SerdeError(e)),
        },
        Err(e) => Err(LNBitsError::SerdeError(e)),
    }
}

/// Reads a member of a JSON body that is an array of strings.
pub fn read_str_array(text: &str, key: &str) -> (r: Result<Vec<String>, LNBitsError>)
    ensures
        r is Ok <==> json_parses(text@) && has_str_array(text@, key@),
        r matches Ok(v) ==> json_str_array_member(text@, key@) == Some(v.deep_view()),
        r is Err ==> r matches Err(LNBitsError::SerdeError(_)),
{
    match str_array_member(text, key) {
        Ok(Some(v)) => Ok(v),
        Ok(None) => Err(LNBitsError::SerdeError(shape_error(key))),
        Err(e) => Err(LNBitsError::SerdeError(e)),
    }
}

} // verus!
