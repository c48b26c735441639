//! Client credentials carried by an `Authorization: Basic` header.

use vstd::prelude::*;
use vstd::slice::{slice_subrange, slice_to_vec};
use vstd::utf8::{decode_utf8, encode_utf8, encode_utf8_decode_utf8, valid_utf8};

verus! {

/// `base64::DecodeError`, carried from the decoder to where it is dropped.
/// Nothing is claimed of what it holds.
#[verifier::external_type_specification]
#[verifier::external_body]
pub struct ExDecodeError(base64::DecodeError);

/// `std::string::FromUtf8Error`, carried in the same way.
#[verifier::external_type_specification]
#[verifier::external_body]
pub struct ExFromUtf8Error(std::string::FromUtf8Error);

/// The octet that parts the client identifier from the secret.
pub const COLON: u8 = 0x3a;

/// The octets that `base64::decode` reads out of `text`, or `None` where it
/// refuses the text.
pub uninterp spec fn base64_decoded(text: Seq<char>) -> Option<Seq<u8>>;

/// Calls `base64::decode`, which reads the standard alphabet and computes
/// from its input alone. Trusted: the result is, by definition, what
/// [`base64_decoded`] names for this text.
#[verifier::external_body]
fn decode_base64(text: &str) -> (decoded: Result<Vec<u8>, base64::DecodeError>)
    ensures
        match decoded {
            Ok(octets) => base64_decoded(text@) == Some(octets@),
            Err(_) => base64_decoded(text@) is None,
        },
{
    base64::decode(text)
}

/// Calls `String::from_utf8`. Trusted: it fails exactly where the octets
/// are not valid UTF-8, and else gives the string that is made of these
/// very octets.
#[verifier::external_body]
fn text_from_utf8(octets: Vec<u8>) -> (text: Result<String, std::string::FromUtf8Error>)
    ensures
        match text {
            Ok(text) => valid_utf8(octets@) && encode_utf8(text@) == octets@,
            Err(_) => !valid_utf8(octets@),
        },
{
    String::from_utf8(octets)
}

/// The header's scheme: the word `Basic` and one space.
pub open spec fn basic_prefix() -> Seq<char> {
    seq!['B', 'a', 's', 'i', 'c', ' ']
}

/// Whether `header` begins with the scheme, letter for letter.
pub open spec fn has_basic_prefix(header: Seq<char>) -> bool {
    header.len() >= 6 && header.subrange(0, 6) == basic_prefix()
}

/// The credentials in decoded octets: the client identifier is what stands
/// before the first colon, as UTF-8, and the secret is all that follows it.
/// There are none without a colon, or where the identifier is not UTF-8.
pub open spec fn split_credentials(decoded: Seq<u8>) -> Option<(Seq<char>, Seq<u8>)> {
    match decoded.index_of_first(COLON) {
        Some(at) => {
            let client = decoded.subrange(0, at);
            if valid_utf8(client) {
                Some((decode_utf8(client), decoded.subrange(at + 1, decoded.len() as int)))
            } else {
                None
            }
        },
        None => None,
    }
}

/// The credentials that a header value carries: behind the scheme, the rest
/// is decoded as a whole and then parted at the first colon.
pub open spec fn basic_credentials(header: Seq<char>) -> Option<(Seq<char>, Seq<u8>)> {
    if has_basic_prefix(header) {
        match base64_decoded(header.skip(6)) {
            Some(decoded) => split_credentials(decoded),
            None => None,
        }
    } else {
        None
    }
}

/// Credentials as plain values.
pub open spec fn credentials_view(credentials: Option<(String, Vec<u8>)>) -> Option<
    (Seq<char>, Seq<u8>),
> {
    match credentials {
        Some((client, secret)) => Some((client@, secret@)),
        None => None,
    }
}

/// Parts decoded octets into client identifier and secret.
pub fn split_decoded(decoded: Vec<u8>) -> (credentials: Option<(String, Vec<u8>)>)
    ensures
        credentials_view(credentials) == split_credentials(decoded@),
{
    proof {
        decoded@.index_of_first_ensures(COLON);
    }
    let mut at: usize = 0;
    while at < decoded.len() && decoded[at] != COLON
        invariant
            at <= decoded@.len(),
            forall|j: int| 0 <= j < at ==> decoded@[j] != COLON,
        decreases decoded@.len() - at,
    {
        at += 1;
    }
    if at == decoded.len() {
        assert(!decoded@.contains(COLON));
        return None;
    }
    assert(decoded@.contains(COLON));
    assert(decoded@.index_of_first(COLON) == Some(at as int)) by {
        let first = decoded@.index_of_first(COLON).unwrap();
        assert(decoded@[first] == COLON);
        assert(first >= at);
    }
    let client = slice_to_vec(slice_subrange(decoded.as_slice(), 0, at));
    let secret = slice_to_vec(slice_subrange(decoded.as_slice(), at + 1, decoded.len()));
    match text_from_utf8(client) {
        Ok(client) => {
            proof {
                encode_utf8_decode_utf8(client@);
            }
            Some((client, secret))
        },
        Err(_) => None,
    }
}

/// Whether `header` begins with the scheme; `length` is its length in
/// characters.
fn starts_with_basic(header: &str, length: usize) -> (found: bool)
    requires
        length == header@.len(),
    ensures
        found == has_basic_prefix(header@),
{
    if length < 6 {
        return false;
    }
    let found = header.get_char(0) == 'B' && header.get_char(1) == 'a' && header.get_char(2) == 's'
        && header.get_char(3) == 'i' && header.get_char(4) == 'c' && header.get_char(5) == ' ';
    proof {
        let head = header@.subrange(0, 6);
        if found {
            assert(head =~= basic_prefix());
        } else {
            assert(head[0] == header@[0] && head[1] == header@[1] && head[2] == header@[2]
                && head[3] == header@[3] && head[4] == header@[4] && head[5] == header@[5]);
            assert(basic_prefix()[0] == 'B' && basic_prefix()[1] == 'a' && basic_prefix()[2] == 's'
                && basic_prefix()[3] == 'i' && basic_prefix()[4] == 'c' && basic_prefix()[5]
                == ' ');
        }
    }
    found
}

/// Reads the client credentials out of the value of an `Authorization`
/// header. `None` stands for a header that is refused: another scheme, text
/// that is not base64, no colon in what it decodes to, or a client
/// identifier that is not UTF-8.
pub fn parse_basic(header: &str) -> (credentials: Option<(String, Vec<u8>)>)
    ensures
        credentials_view(credentials) == basic_credentials(header@),
{
    let length = header.unicode_len();
    if !starts_with_basic(header, length) {
        return None;
    }
    let encoded = header.substring_char(6, length);
    assert(encoded@ =~= header@.skip(6));
    match decode_base64(encoded) {
        Ok(decoded) => split_decoded(decoded),
        Err(_) => None,
    }
}

} // verus!
