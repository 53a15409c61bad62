//! Addresses of catalog resources, as the `url` crate writes them.

use crate::errors::Error;
use vstd::prelude::*;
use vstd::utf8::encode_utf8;

verus! {

/// The error of `url::Url::parse` and of `url::Url::parse_with_params`. Nothing is read
/// from it.
#[verifier::external_type_specification]
#[verifier::external_body]
pub struct ExParseError(::url::ParseError);

/// The text of the URL that `url::Url::parse` reads in `input`, as the crate writes it,
/// or `None` where it reads no absolute URL in `input`.
pub uninterp spec fn parsed_url(input: Seq<char>) -> Option<Seq<char>>;

/// The text of the URL that `url::Url::parse_with_params` makes of `input` and the query
/// pairs `params`: the absolute URL that it reads in `input`, with one `key=value` for each
/// pair added to the query string in the encoding of HTML forms. `None` where it reads
/// no absolute URL in `input`.
pub uninterp spec fn url_with_params(input: Seq<char>, params: Seq<(Seq<char>, Seq<char>)>) -> Option<
    Seq<char>,
>;

/// The number of bytes that `text` takes in UTF-8.
pub open spec fn byte_len(text: Seq<char>) -> nat {
    encode_utf8(text).len()
}

/// An upper bound on the bytes that the query pairs `params` add to a URL: the encoding
/// of HTML forms writes at most three bytes for a byte of a key or a value, and each
/// pair brings a `=` and at most one `&`.
pub open spec fn pairs_weight(params: Seq<(Seq<char>, Seq<char>)>) -> nat
    decreases params.len(),
{
    if params.len() == 0 {
        0
    } else {
        pairs_weight(params.drop_last()) + 3 * (byte_len(params.last().0) + byte_len(
            params.last().1,
        )) + 2
    }
}

/// Whether the URL with the text `parsed` stays within the length that the `url` crate
/// can hold once the pairs `params` and the `?` before them are added: it counts the
/// bytes of a URL in 32 bits.
pub open spec fn within_reach(parsed: Seq<char>, params: Seq<(Seq<char>, Seq<char>)>) -> bool {
    byte_len(parsed) + 1 + pairs_weight(params) <= u32::MAX
}

/// The address that is written for `input` and `params`: what the `url` crate makes of
/// them, where it reads a URL in `input` that stays within its reach with the pairs
/// added, and nothing else.
pub open spec fn address_with_params(input: Seq<char>, params: Seq<(Seq<char>, Seq<char>)>) -> Option<
    Seq<char>,
> {
    match parsed_url(input) {
        Some(parsed) => if within_reach(parsed, params) {
            url_with_params(input, params)
        } else {
            None
        },
        None => None,
    }
}

/// Calls `url::Url::parse` and hands on the URL as the text that it is held as, or the
/// error. The contract gives the outcome its name, [`parsed_url`]: the crate computes
/// it from `input` alone. The parser answers a text that passes its limits with an
/// error.
#[verifier::external_body]
pub(crate) fn parse(input: &str) -> (parsed: Result<String, ::url::ParseError>)
    ensures
        match parsed {
            Ok(address) => parsed_url(input@) == Some(address@),
            Err(_) => parsed_url(input@) is None,
        },
{
    ::url::Url::parse(input).map(String::from)
}

/// Calls `url::Url::parse_with_params` and hands on the URL as the text that it is
/// held as, or the error. The contract gives the outcome its name, [`url_with_params`]:
/// the crate computes it from `input` and `params` alone.
///
/// Where it adds the pairs, the crate takes for granted that the URL fits its 32-bit
/// count of bytes, before the `?` and after the last pair, and stops the program where
/// it does not. So the call is for a URL that is [`within_reach`] with its pairs.
#[verifier::external_body]
pub(crate) fn parse_with_params(input: &str, params: &Vec<(String, String)>) -> (parsed: Result<
    String,
    ::url::ParseError,
>)
    requires
        parsed_url(input@) matches Some(text) ==> within_reach(text, params.deep_view()),
    ensures
        match parsed {
            Ok(address) => url_with_params(input@, params.deep_view()) == Some(address@),
            Err(_) => url_with_params(input@, params.deep_view()) is None,
        },
{
    ::url::Url::parse_with_params(input, params).map(String::from)
}

/// What is made of the outcome of writing an address: the address, or the failure to
/// form a request.
pub fn address_or_failure(parsed: Result<String, ::url::ParseError>) -> (address: Result<
    String,
    Error,
>)
    ensures
        match parsed {
            Ok(text) => address == Ok::<String, Error>(text),
            Err(_) => address == Err::<String, Error>(Error::Transport),
        },
{
    match parsed {
        Ok(text) => Ok(text),
        Err(_) => Err(Error::Transport),
    }
}

/// The weight of the first pairs of a list is at most the weight of the list.
proof fn lemma_weight_grows(params: Seq<(Seq<char>, Seq<char>)>, count: int)
    requires
        0 <= count <= params.len(),
    ensures
        pairs_weight(params.take(count)) <= pairs_weight(params),
    decreases params.len(),
{
    if count == params.len() {
        assert(params.take(count) =~= params);
    } else {
        assert(params.drop_last().take(count) =~= params.take(count));
        lemma_weight_grows(params.drop_last(), count);
    }
}

/// Tells whether the URL with the text `parsed` stays [`within_reach`] with the pairs
/// `params`.
pub fn is_within_reach(parsed: &str, params: &Vec<(String, String)>) -> (fits: bool)
    ensures
        fits == within_reach(parsed@, params.deep_view()),
{
    let ghost pairs = params.deep_view();
    let limit: u64 = 0xffff_ffff;
    let length: usize = parsed.as_bytes().len();
    if length >= 0xffff_ffff {
        return false;
    }
    let mut room: u64 = limit - length as u64 - 1;
    let mut index: usize = 0;
    assert(pairs.take(0) =~= Seq::<(Seq<char>, Seq<char>)>::empty());
    while index < params.len()
        invariant
            index <= params.len(),
            pairs == params.deep_view(),
            limit == u32::MAX,
            room <= limit,
            byte_len(parsed@) + 1 + pairs_weight(pairs.take(index as int)) + room == limit,
        decreases params.len() - index,
    {
        let key: usize = params[index].0.as_str().as_bytes().len();
        let value: usize = params[index].1.as_str().as_bytes().len();
        proof {
            assert(pairs.take(index + 1).drop_last() =~= pairs.take(index as int));
            assert(pairs.take(index + 1).last() == pairs[index as int]);
            assert(pairs[index as int].0 == params[index as int].0@);
            assert(pairs[index as int].1 == params[index as int].1@);
            lemma_weight_grows(pairs, index + 1);
        }
        if room < 2 {
            return false;
        }
        room = room - 2;
        if key > 0xffff_ffff || key as u64 > room / 3 {
            return false;
        }
        room = room - 3 * (key as u64);
        if value > 0xffff_ffff || value as u64 > room / 3 {
            return false;
        }
        room = room - 3 * (value as u64);
        index = index + 1;
    }
    assert(pairs.take(index as int) =~= pairs);
    true
}

/// Writes the address for `input` and `params`: the URL that the `url` crate makes of
/// them. Where it reads no URL in `input`, or the URL would pass the length that the
/// crate can hold, no request can be formed.
pub fn write_address(input: &str, params: &Vec<(String, String)>) -> (address: Result<String, Error>)
    ensures
        match address_with_params(input@, params.deep_view()) {
            Some(text) => address is Ok && address->Ok_0@ == text,
            None => address == Err::<String, Error>(Error::Transport),
        },
{
    match parse(input) {
        Ok(parsed) => {
            if is_within_reach(parsed.as_str(), params) {
                address_or_failure(parse_with_params(input, params))
            } else {
                Err(Error::Transport)
            }
        },
        Err(_) => Err(Error::Transport),
    }
}

} // verus!
