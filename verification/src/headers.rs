//! HTTP header fields, as the `http` crate behind `hyper` keeps them.
use hyper::header::HeaderValue;
use hyper::HeaderMap;
use vstd::prelude::*;

verus! {

/// `hyper::HeaderMap`: a multimap from lower-case field names to values.
#[verifier::external_type_specification]
#[verifier::external_body]
#[verifier::reject_recursive_types(T)]
pub struct ExHeaderMap<T>(hyper::HeaderMap<T>);

/// `hyper::header::HeaderValue`: the bytes of one field value.
#[verifier::external_type_specification]
#[verifier::external_body]
pub struct ExHeaderValue(hyper::header::HeaderValue);

/// What is said of a text that cannot be a field value.
pub const BAD_VALUE_MSG: &'static str = "failed to parse header value";

/// The fields that a header map holds: for each name that is present, its values in order.
pub uninterp spec fn fields(map: HeaderMap<HeaderValue>) -> Map<Seq<char>, Seq<Seq<u8>>>;

/// The bytes of a field value, as `HeaderValue::as_bytes` gives them.
pub uninterp spec fn value_bytes(value: HeaderValue) -> Seq<u8>;

/// No field at all.
pub open spec fn no_fields() -> Map<Seq<char>, Seq<Seq<u8>>> {
    Map::empty()
}

/// Whether `c` may stand in a lower-case field name.
pub open spec fn name_char(c: char) -> bool {
    ||| 'a' <= c <= 'z'
    ||| '0' <= c <= '9'
    ||| c == '-'
}

/// Whether `name` is a lower-case field name of ordinary length.
pub open spec fn lower_name(name: Seq<char>) -> bool {
    &&& 0 < name.len() <= 64
    &&& forall|i: int| 0 <= i < name.len() ==> name_char(#[trigger] name[i])
}

/// Whether `b` may stand in a field value: anything but a control byte, or a tab.
pub open spec fn value_byte(b: u8) -> bool {
    b >= 32 && b != 127 || b == 9
}

/// Whether every byte of `bytes` may stand in a field value.
pub open spec fn value_ok(bytes: Seq<u8>) -> bool {
    forall|i: int| 0 <= i < bytes.len() ==> value_byte(#[trigger] bytes[i])
}

/// Makes a field value with `HeaderValue::from_str`, which accepts a text when every byte of its
/// UTF-8 form may stand in a field value, and keeps those bytes. Its error has one text.
#[verifier::external_body]
pub(crate) fn header_value(text: &str) -> (r: Result<HeaderValue, String>)
    ensures
        r is Ok <==> value_ok(vstd::utf8::encode_utf8(text@)),
        r is Ok ==> value_bytes(r->Ok_0) == vstd::utf8::encode_utf8(text@),
        r is Err ==> r->Err_0@ == BAD_VALUE_MSG@,
{
    match HeaderValue::from_str(text) {
        Ok(value) => Ok(value),
        Err(e) => Err(e.to_string()),
    }
}

/// The fields after one more value for `name`.
pub open spec fn appended(old: Map<Seq<char>, Seq<Seq<u8>>>, name: Seq<char>, value: Seq<u8>) -> Map<
    Seq<char>,
    Seq<Seq<u8>>,
> {
    let before = if old.contains_key(name) {
        old[name]
    } else {
        Seq::empty()
    };
    old.insert(name, before.push(value))
}

/// The fields of a map with one name and one value.
pub open spec fn only(name: Seq<char>, value: Seq<u8>) -> Map<Seq<char>, Seq<Seq<u8>>> {
    no_fields().insert(name, seq![value])
}

/// Adds one value with `HeaderMap::append`, which keeps the values that the name already has and
/// puts the new one after them. It panics on a name that is no field name and on a map that holds
/// some thirty thousand names; neither can be asked of it here.
#[verifier::external_body]
pub(crate) fn append_header(map: &mut HeaderMap<HeaderValue>, name: &'static str, value: HeaderValue)
    requires
        lower_name(name@),
        fields(*old(map)).dom().finite(),
        fields(*old(map)).len() < 64,
    ensures
        fields(*final(map)) == appended(fields(*old(map)), name@, value_bytes(value)),
{
    map.append(name, value);
}

/// Sets one value with `HeaderMap::insert`, which drops the values that the name already has. It
/// panics where `HeaderMap::append` does.
#[verifier::external_body]
pub(crate) fn insert_header(map: &mut HeaderMap<HeaderValue>, name: &'static str, value: HeaderValue)
    requires
        lower_name(name@),
        fields(*old(map)).dom().finite(),
        fields(*old(map)).len() < 64,
    ensures
        fields(*final(map)) == fields(*old(map)).insert(name@, seq![value_bytes(value)]),
{
    map.insert(name, value);
}

/// Reads a name's first value with `HeaderMap::get`, and copies it. A name that is present has at
/// least one value.
#[verifier::external_body]
pub(crate) fn first_header(map: &HeaderMap<HeaderValue>, name: &str) -> (r: Option<HeaderValue>)
    requires
        lower_name(name@),
    ensures
        r is Some <==> fields(*map).contains_key(name@),
        r is Some ==> fields(*map)[name@].len() > 0 && value_bytes(r->0) == fields(*map)[name@][0],
{
    map.get(name).cloned()
}

/// Copies a field value with its `Clone`, which keeps the bytes.
#[verifier::external_body]
pub(crate) fn copied_value(value: &HeaderValue) -> (r: HeaderValue)
    ensures
        value_bytes(r) == value_bytes(*value),
{
    value.clone()
}

/// Makes an empty header map with `HeaderMap::new`.
#[verifier::external_body]
pub(crate) fn new_headers() -> (r: HeaderMap<HeaderValue>)
    ensures
        fields(r) == no_fields(),
{
    HeaderMap::new()
}

/// The `Authorization` value that carries `token`.
pub open spec fn bearer(token: Seq<char>) -> Seq<char> {
    "Bearer "@ + token
}

/// The `Authorization` value that carries `token`.
pub fn bearer_text(token: &str) -> (r: String)
    ensures
        r@ == bearer(token@),
{
    "Bearer ".to_string().concat(token)
}

} // verus!
