//! The text under which a key is stored.

use vstd::prelude::*;
use vstd::slice::slice_to_vec;

use super::command::SqliteError;

verus! {

/// The text of the content identifier that `bytes` begin with, if they begin
/// with one: what `Cid::try_from` makes of the bytes, written out as
/// `Cid::to_string` does.
pub uninterp spec fn cid_text(bytes: Seq<u8>) -> Option<Seq<char>>;

/// What an optional string holds.
pub open spec fn text_of(text: Option<String>) -> Option<Seq<char>> {
    match text {
        Some(text) => Some(text@),
        None => None,
    }
}

/// Calls `Cid::try_from` of the `cid` crate on a byte slice. The identifier
/// that comes out, if one does, is handed on as text. Both depend on the bytes
/// alone. The text begins with `b` or `Q`. As a byte neither is the version of
/// a content identifier, so the bytes of the text are not those of one.
#[verifier::external_body]
fn parse_cid(bytes: &[u8]) -> (text: Option<String>)
    ensures
        text_of(text) == cid_text(bytes@),
        text matches Some(text) ==> cid_text(vstd::utf8::encode_utf8(text@)) is None,
{
    match cid::Cid::try_from(bytes) {
        Ok(cid) => Some(cid.to_string()),
        Err(_) => None,
    }
}

/// Calls `String::from_utf8`, which succeeds exactly on valid UTF-8 and then
/// gives the characters that the bytes encode.
#[verifier::external_body]
fn parse_utf8(bytes: Vec<u8>) -> (text: Option<String>)
    ensures
        text is Some <==> vstd::utf8::valid_utf8(bytes@),
        text matches Some(text) ==> text@ == vstd::utf8::decode_utf8(bytes@),
{
    match String::from_utf8(bytes) {
        Ok(text) => Some(text),
        Err(_) => None,
    }
}

/// The text for the key `bytes`, given the text of the content identifier in
/// it: that text if there is one, or else the characters that the bytes
/// encode, if they are valid UTF-8.
pub open spec fn key_text(cid: Option<Seq<char>>, bytes: Seq<u8>) -> Option<Seq<char>> {
    if cid is Some {
        cid
    } else if vstd::utf8::valid_utf8(bytes) {
        Some(vstd::utf8::decode_utf8(bytes))
    } else {
        None
    }
}

/// The text for the key `bytes`, given the text of the content identifier in it.
pub fn key_from_parts(cid: Option<String>, bytes: &[u8]) -> (key: Result<String, SqliteError>)
    ensures
        match key {
            Ok(key) => key_text(text_of(cid), bytes@) == Some(key@),
            Err(error) => {
                &&& key_text(text_of(cid), bytes@) is None
                &&& error == SqliteError::UnserializableKey
            },
        },
        key is Ok <==> cid is Some || vstd::utf8::valid_utf8(bytes@),
        key matches Ok(text) ==> match cid {
            Some(cid) => text@ == cid@,
            None => vstd::utf8::encode_utf8(text@) == bytes@,
        },
{
    proof {
        if vstd::utf8::valid_utf8(bytes@) {
            vstd::utf8::decode_utf8_encode_utf8(bytes@);
        }
    }
    match cid {
        Some(text) => Ok(text),
        None => match parse_utf8(slice_to_vec(bytes)) {
            Some(text) => Ok(text),
            None => Err(SqliteError::UnserializableKey),
        },
    }
}

/// Whether `text` stands for the whole of `key`: it is the text of the content
/// identifier in it, or else encodes to exactly its bytes.
pub open spec fn is_whole_key(key: Seq<u8>, text: Seq<char>) -> bool {
    match cid_text(key) {
        Some(cid) => text == cid,
        None => vstd::utf8::encode_utf8(text) == key,
    }
}

/// The text that the key `bytes` is stored under, if it can be stored.
pub open spec fn stored_key(bytes: Seq<u8>) -> Option<Seq<char>> {
    key_text(cid_text(bytes), bytes)
}

/// The text that `key` is stored under, taken as a key itself, is stored under
/// the same text. So the bytes of a content identifier and its text name the
/// same row.
pub open spec fn goes_by_its_text(key: Seq<u8>) -> bool {
    stored_key(key) matches Some(text) ==> stored_key(vstd::utf8::encode_utf8(text)) == Some(text)
}

/// The text for a key. A key that is a content identifier is stored as the
/// text of the identifier, any other key as the text that it encodes.
pub fn key_bytes_to_key(key: &[u8]) -> (text: Result<String, SqliteError>)
    ensures
        match text {
            Ok(text) => stored_key(key@) == Some(text@),
            Err(error) => {
                &&& stored_key(key@) is None
                &&& error == SqliteError::UnserializableKey
            },
        },
        goes_by_its_text(key@),
        text is Ok <==> cid_text(key@) is Some || vstd::utf8::valid_utf8(key@),
        text matches Ok(text) ==> is_whole_key(key@, text@),
{
    let cid: Option<String> = parse_cid(key);
    proof {
        if let Some(text) = stored_key(key@) {
            if cid is Some {
                vstd::utf8::encode_utf8_valid_utf8(text);
                vstd::utf8::encode_utf8_decode_utf8(text);
            } else {
                vstd::utf8::decode_utf8_encode_utf8(key@);
            }
        }
    }
    key_from_parts(cid, key)
}

/// Keys that are no content identifiers are stored under the same text only if
/// they are the same, byte for byte.
pub proof fn law_different_keys_have_different_texts(first: Seq<u8>, second: Seq<u8>)
    requires
        cid_text(first) is None,
        cid_text(second) is None,
        stored_key(first) is Some,
        stored_key(first) == stored_key(second),
    ensures
        first == second,
{
    vstd::utf8::decode_utf8_encode_utf8(first);
    vstd::utf8::decode_utf8_encode_utf8(second);
}

/// A key can be stored exactly if it is a content identifier or valid UTF-8. It
/// is stored under the text of the identifier, or else under the text that it
/// encodes, in full.
pub proof fn law_keys_are_stored_in_full(key: Seq<u8>)
    ensures
        stored_key(key) is Some <==> cid_text(key) is Some || vstd::utf8::valid_utf8(key),
        cid_text(key) is Some ==> stored_key(key) == cid_text(key),
        cid_text(key) is None ==> (stored_key(key) matches Some(text) ==> vstd::utf8::encode_utf8(
            text,
        ) == key),
{
    if vstd::utf8::valid_utf8(key) {
        vstd::utf8::decode_utf8_encode_utf8(key);
    }
}

} // verus!
