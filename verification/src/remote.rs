//! What comes back from a remote service. The exchange itself is the caller's: it
//! issues one GET request and hands over the whole body of the answer, or the failure.

use crate::errors::Error;
use vstd::prelude::*;
use vstd::utf8::decode_utf8;
use vstd::utf8::valid_utf8;

verus! {

/// `base` without its final slash, where it ends in one.
pub open spec fn without_final_slash(base: Seq<char>) -> Seq<char> {
    if base.len() > 0 && base.last() == '/' {
        base.drop_last()
    } else {
        base
    }
}

/// The address of `path` under the address `base` of a service. `path` begins with a
/// slash; a slash at the end of `base` is not written a second time, so the same
/// address comes of a base with and without it.
pub open spec fn address_under(base: Seq<char>, path: Seq<char>) -> Seq<char> {
    without_final_slash(base) + path
}

/// Computes [`address_under`].
pub fn under(base: &str, path: &str) -> (address: String)
    ensures
        address@ == address_under(base@, path@),
{
    let length = base.unicode_len();
    let mut address = if length > 0 && base.get_char(length - 1) == '/' {
        let front = base.substring_char(0, length - 1).to_string();
        assert(front@ =~= base@.drop_last());
        front
    } else {
        base.to_string()
    };
    address.append(path);
    address
}

/// Calls `String::from_utf8`: the text that `bytes` encode in UTF-8, or nothing where
/// they are not UTF-8.
#[verifier::external_body]
fn text_of(bytes: Vec<u8>) -> (text: Option<String>)
    ensures
        match text {
            Some(text) => valid_utf8(bytes@) && text@ == decode_utf8(bytes@),
            None => !valid_utf8(bytes@),
        },
{
    String::from_utf8(bytes).ok()
}

/// The text of a fetched body, or the failure that stands in its way.
pub open spec fn text_outcome(fetched: Result<Seq<u8>, Error>) -> Result<Seq<char>, Error> {
    match fetched {
        Ok(bytes) => if valid_utf8(bytes) {
            Ok(decode_utf8(bytes))
        } else {
            Err(Error::Decode)
        },
        Err(failure) => Err(failure),
    }
}

/// What was fetched, by its bytes.
pub open spec fn fetched_view(fetched: Result<Vec<u8>, Error>) -> Result<Seq<u8>, Error> {
    match fetched {
        Ok(bytes) => Ok(bytes@),
        Err(failure) => Err(failure),
    }
}

/// A failure of transport is the outcome of reading the body: there is no text, not
/// even an empty one, and no other failure takes its place.
pub proof fn lemma_transport_failure_is_surfaced()
    ensures
        text_outcome(Err(Error::Transport)) == Err::<Seq<char>, Error>(Error::Transport),
{
}

/// Reads a fetched body as text. A failure of the exchange is handed on as it is; a body
/// that is not UTF-8 is a failure to decode.
pub fn body_text(fetched: Result<Vec<u8>, Error>) -> (text: Result<String, Error>)
    ensures
        match text_outcome(fetched_view(fetched)) {
            Ok(chars) => text is Ok && text->Ok_0@ == chars,
            Err(failure) => text == Err::<String, Error>(failure),
        },
{
    match fetched {
        Ok(bytes) => match text_of(bytes) {
            Some(text) => Ok(text),
            None => Err(Error::Decode),
        },
        Err(failure) => Err(failure),
    }
}

} // verus!
