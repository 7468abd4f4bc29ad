use vstd::prelude::*;

verus! {

/// The text that the bytes `b` encode as UTF-8, or `None` where they are not
/// well-formed UTF-8.
pub uninterp spec fn utf8_text(b: Seq<u8>) -> Option<Seq<char>>;

/// Relies on `String::from_utf8`: it succeeds exactly on well-formed UTF-8,
/// with the decoded text, and the empty byte string is the empty text.
#[verifier::external_body]
pub(crate) fn decode_utf8(b: Vec<u8>) -> (r: Option<String>)
    ensures
        r is Some <==> utf8_text(b@) is Some,
        r matches Some(t) ==> utf8_text(b@) == Some(t@),
        r matches Some(t) ==> (b@.len() == 0 ==> t@.len() == 0),
        r is None ==> b@.len() > 0,
{
    String::from_utf8(b).ok()
}

/// The text, or the empty text where the bytes were not well-formed.
pub open spec fn text_or_empty_spec(decoded: Option<Seq<char>>) -> Seq<char> {
    match decoded {
        Some(t) => t,
        None => Seq::empty(),
    }
}

/// Keeps a decoded text, or substitutes the empty string for one that failed
/// to decode.
pub fn text_or_empty(decoded: Option<String>) -> (r: String)
    ensures
        r@ == text_or_empty_spec(
            match decoded {
                Some(t) => Some(t@),
                None => None,
            },
        ),
{
    match decoded {
        Some(t) => t,
        None => String::new(),
    }
}

} // verus!
