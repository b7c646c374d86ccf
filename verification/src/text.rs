//! Text properties: decoding their bytes, and picking the application name
//! out of a window class.

use vstd::prelude::*;
use vstd::std_specs::iter::IteratorSpec;
use vstd::string::{StrSliceExecFns, StringSliceAdditionalSpecFns};
use vstd::utf8::{decode_utf8, valid_utf8};
use crate::error::WindowError;

verus! {

/// `core::str::Utf8Error`, the reason that `core::str::from_utf8` gives for
/// a refusal. Nothing is claimed of what it holds.
#[verifier::external_type_specification]
#[verifier::external_body]
pub struct ExUtf8Error(core::str::Utf8Error);

/// Taken on trust of `core::str::from_utf8`: it succeeds exactly on
/// well-formed UTF-8, and the string slice that it then returns is made of
/// the bytes that it was given.
pub assume_specification<'a>[ core::str::from_utf8 ](v: &'a [u8]) -> (r: Result<
    &'a str,
    core::str::Utf8Error,
>)
    ensures
        r is Ok <==> valid_utf8(v@),
        r matches Ok(s) ==> s.spec_bytes() == v@,
;

/// The text that a property's bytes stand for.
pub open spec fn spec_decode_text(bytes: Seq<u8>) -> Result<Seq<char>, WindowError> {
    if valid_utf8(bytes) {
        Ok(decode_utf8(bytes))
    } else {
        Err(WindowError::TextDecodeError)
    }
}

/// Decodes the bytes of a text property as UTF-8. Bytes that are not
/// well-formed are an error; nothing is cut off or replaced.
pub fn decode_text(bytes: &[u8]) -> (r: Result<String, WindowError>)
    ensures
        match r {
            Ok(text) => spec_decode_text(bytes@) == Ok::<Seq<char>, WindowError>(text@),
            Err(e) => spec_decode_text(bytes@) == Err::<Seq<char>, WindowError>(e),
        },
{
    match core::str::from_utf8(bytes) {
        Ok(s) => {
            proof {
                vstd::utf8::encode_utf8_decode_utf8(s@);
            }
            Ok(s.to_owned())
        },
        Err(_) => Err(WindowError::TextDecodeError),
    }
}

/// The character that separates the parts of a window class.
pub const NUL: char = '\0';

/// Whether `from..to` is the first non-empty run of `text` that holds no
/// separator and is bounded by separators or the ends of `text`. Where `text`
/// holds nothing but separators the run is empty and lies at its end.
pub open spec fn is_first_component(text: Seq<char>, from: int, to: int) -> bool {
    &&& 0 <= from <= to <= text.len()
    &&& forall|k: int| 0 <= k < from ==> text[k] == NUL
    &&& forall|k: int| from <= k < to ==> text[k] != NUL
    &&& from < text.len() ==> from < to
    &&& to < text.len() ==> text[to] == NUL
}

/// The application name in a window class: the first of its
/// separator-delimited parts that is not empty, or the empty text where
/// there is none.
pub open spec fn spec_app_name(class: Seq<char>) -> Seq<char> {
    let (from, to) = choose|from: int, to: int| is_first_component(class, from, to);
    class.subrange(from, to)
}

/// A text has one first component and no other.
pub proof fn first_component_unique(text: Seq<char>, from: int, to: int)
    requires
        is_first_component(text, from, to),
    ensures
        spec_app_name(text) == text.subrange(from, to),
{
    let (f, t) = choose|f: int, t: int| is_first_component(text, f, t);
    assert(is_first_component(text, f, t));
    if f < from {
        assert(text[f] == NUL);
        assert(text[f] != NUL);
    }
    if from < f {
        assert(text[from] == NUL);
        assert(text[from] != NUL);
    }
    if t < to {
        assert(text[t] == NUL);
        assert(text[t] != NUL);
    }
    if to < t {
        assert(text[to] == NUL);
        assert(text[to] != NUL);
    }
}

/// Picks the application name out of a decoded window class.
pub fn app_name(class: &str) -> (name: String)
    ensures
        name@ == spec_app_name(class@),
{
    broadcast use vstd::string::group_string_axioms;

    let len: usize = class.unicode_len();
    let mut chars = class.chars();
    let mut from: usize = 0;
    let mut in_component: bool = false;
    while from < len && !in_component
        invariant
            len == class@.len(),
            from <= len,
            forall|k: int| 0 <= k < from ==> class@[k] == NUL,
            in_component ==> from < len && class@[from as int] != NUL,
            chars.remaining() == class@.subrange(
                if in_component { from + 1 } else { from as int },
                len as int,
            ),
        decreases len - from + if in_component { 0int } else { 1int },
    {
        let next = chars.next();
        assert(next == Some(class@[from as int]));
        if next == Some(NUL) {
            from = from + 1;
        } else {
            in_component = true;
        }
    }
    let mut to: usize = if in_component { from + 1 } else { from };
    let mut at_end: bool = false;
    while to < len && !at_end
        invariant
            len == class@.len(),
            from <= to <= len,
            from < len ==> from < to,
            forall|k: int| from <= k < to ==> class@[k] != NUL,
            at_end ==> to < len && class@[to as int] == NUL,
            !at_end ==> chars.remaining() == class@.subrange(to as int, len as int),
        decreases len - to + if at_end { 0int } else { 1int },
    {
        let next = chars.next();
        assert(next == Some(class@[to as int]));
        if next == Some(NUL) {
            at_end = true;
        } else {
            to = to + 1;
        }
    }
    proof {
        first_component_unique(class@, from as int, to as int);
    }
    class.substring_char(from, to).to_owned()
}

} // verus!
