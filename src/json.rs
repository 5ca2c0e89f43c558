//! The JSON encoder that payloads are handed to.
use vstd::prelude::*;

verus! {

/// The failure type of serde_json, carried as it is.
#[verifier::external_type_specification]
#[verifier::external_body]
pub struct ExJsonError(serde_json::Error);

} // verus!

verus! {

/// Any JSON document, carried as it is.
#[verifier::external_type_specification]
#[verifier::external_body]
pub struct ExJsonValue(serde_json::Value);

/// Whether a JSON value is `null`, as `Value::is_null` tells.
pub uninterp spec fn json_is_null(v: serde_json::Value) -> bool;

/// Relies on serde_json's `Default` for `Value`, which gives `Value::Null`.
pub assume_specification[ <serde_json::Value as core::default::Default>::default ]() -> (r: serde_json::Value)
    ensures
        json_is_null(r),
;

/// Relies on the derived `Clone` of serde_json's `Value`: a field-by-field copy.
pub assume_specification[ <serde_json::Value as core::clone::Clone>::clone ](v: &serde_json::Value) -> (r: serde_json::Value)
    ensures
        r == *v,
;

} // verus!

verus! {

/// Relies on serde_json::to_vec: the JSON encoding of a value, or the encoder's
/// failure. Nothing is assumed of the bytes.
#[verifier::external_body]
pub(crate) fn json_to_vec<T: serde::Serialize + ?Sized>(v: &T) -> (r: Result<Vec<u8>, serde_json::Error>) {
    serde_json::to_vec(v)
}

} // verus!

verus! {

/// The lower-case hexadecimal digit of a number below sixteen.
pub open spec fn hex_lower(d: nat) -> char {
    if d < 10 {
        digit_char(d)
    } else {
        ((d + 87) as u8) as char
    }
}

/// The JSON text of one character inside a string: `"` and `\` and the
/// control characters below 0x20 are escaped, short forms where JSON has them
/// and `\u00xx` otherwise; every other character stands for itself.
pub open spec fn json_escape_char(c: char) -> Seq<char> {
    if c == '"' {
        seq!['\\', '"']
    } else if c == '\\' {
        seq!['\\', '\\']
    } else if c == '\x08' {
        seq!['\\', 'b']
    } else if c == '\x0C' {
        seq!['\\', 'f']
    } else if c == '\n' {
        seq!['\\', 'n']
    } else if c == '\r' {
        seq!['\\', 'r']
    } else if c == '\t' {
        seq!['\\', 't']
    } else if (c as u32) < 0x20 {
        seq!['\\', 'u', '0', '0', hex_lower((c as u32 / 16) as nat), hex_lower((c as u32 % 16) as nat)]
    } else {
        seq![c]
    }
}

/// The escaped characters of a string, character by character.
pub open spec fn json_escaped(s: Seq<char>) -> Seq<char>
    decreases s.len(),
{
    if s.len() == 0 {
        Seq::empty()
    } else {
        json_escaped(s.drop_last()) + json_escape_char(s.last())
    }
}

/// The JSON text of a string: quoted, with the characters that JSON reserves
/// escaped.
pub open spec fn json_string_of(s: Seq<char>) -> Seq<char> {
    seq!['"'] + json_escaped(s) + seq!['"']
}

/// Relies on serde_json::to_string on a `str`: the quoted text with `"`, `\`
/// and control characters escaped. Written into a buffer in memory, it does not
/// fail.
#[verifier::external_body]
pub(crate) fn json_string(s: &str) -> (r: Result<String, serde_json::Error>)
    ensures
        r is Ok,
        r->Ok_0@ == json_string_of(s@),
{
    serde_json::to_string(s)
}

/// The JSON encoding of a JSON patch document.
pub uninterp spec fn json_patch_bytes(p: json_patch::Patch) -> Seq<u8>;

/// Relies on serde_json::to_vec on a json_patch `Patch`: the encoding depends on
/// the operations alone, and a document of strings and JSON values written into
/// a buffer in memory does not fail.
#[verifier::external_body]
pub(crate) fn json_patch_to_vec(p: &json_patch::Patch) -> (r: Result<Vec<u8>, serde_json::Error>)
    ensures
        r is Ok,
        r->Ok_0@ == json_patch_bytes(*p),
{
    serde_json::to_vec(p)
}

/// The decimal digit of a number below ten.
pub open spec fn digit_char(d: nat) -> char {
    ((d + 48) as u8) as char
}

/// The decimal text of a number, without sign or leading zeros.
pub open spec fn decimal_of(n: nat) -> Seq<char>
    decreases n,
{
    if n < 10 {
        seq![digit_char(n)]
    } else {
        decimal_of(n / 10).push(digit_char(n % 10))
    }
}

/// Relies on `ToString` of `u32`: the decimal text of the number.
#[verifier::external_body]
pub(crate) fn decimal_text(n: u32) -> (r: String)
    ensures
        r@ == decimal_of(n as nat),
{
    n.to_string()
}

/// The `Debug` text of a string: quoted, with the characters that
/// `str::escape_debug` escapes escaped.
pub uninterp spec fn debug_text_of(s: Seq<char>) -> Seq<char>;

/// Relies on `Debug` of `str` through `format!`: the quoted and escaped text,
/// which depends on the string alone.
#[verifier::external_body]
pub(crate) fn debug_text(s: &str) -> (r: String)
    ensures
        r@ == debug_text_of(s@),
{
    format!("{:?}", s)
}

/// The members of a JSON object, separated by commas.
pub open spec fn join_members(members: Seq<Seq<char>>) -> Seq<char>
    decreases members.len(),
{
    if members.len() == 0 {
        Seq::empty()
    } else if members.len() == 1 {
        members[0]
    } else {
        join_members(members.drop_last()) + seq![','] + members.last()
    }
}

/// The views of a sequence of strings.
pub open spec fn texts(v: Seq<String>) -> Seq<Seq<char>> {
    v.map_values(|s: String| s@)
}

/// A JSON object of the given members, in order.
pub fn json_object(members: &Vec<String>) -> (r: String)
    ensures
        r@ == seq!['{'] + join_members(texts(members@)) + seq!['}'],
{
    proof {
        reveal_strlit("{");
        reveal_strlit("}");
        reveal_strlit(",");
    }
    let mut acc = String::from_str("{");
    let mut i: usize = 0;
    while i < members.len()
        invariant
            i <= members@.len(),
            acc@ == seq!['{'] + join_members(texts(members@.subrange(0, i as int))),
        decreases members@.len() - i,
    {
        let ghost before = members@.subrange(0, i as int);
        let ghost after = members@.subrange(0, i + 1);
        assert(texts(after).drop_last() =~= texts(before));
        assert(texts(after).last() == members@[i as int]@);
        let ghost prev = acc@;
        proof {
            reveal_strlit(",");
        }
        if i > 0 {
            acc = acc.concat(",");
            assert(acc@ =~= prev + seq![',']);
        }
        let ghost mid = acc@;
        acc = acc.concat(members[i].as_str());
        assert(acc@ == mid + members@[i as int]@);
        proof {
            if i == 0 {
                assert(texts(after).len() == 1);
                assert(join_members(texts(after)) == members@[0]@);
                assert(join_members(texts(before)) == Seq::<char>::empty());
            } else {
                assert(texts(after).len() >= 2);
                assert(join_members(texts(after)) == join_members(texts(before)) + seq![',']
                    + members@[i as int]@);
            }
        }
        assert(acc@ =~= seq!['{'] + join_members(texts(after)));
        i = i + 1;
    }
    assert(members@.subrange(0, members@.len() as int) =~= members@);
    acc.concat("}")
}

} // verus!
