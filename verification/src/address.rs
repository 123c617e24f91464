//! The URL at which a server can be reached.

use vstd::prelude::*;
use vstd::string::*;

use crate::text::decimal_text;

verus! {

/// What `Url::parse` makes of a text: the URL written out, or the error in
/// words.
pub uninterp spec fn url_parsed(text: Seq<char>) -> Result<Seq<char>, Seq<char>>;

/// What a result of two strings holds.
pub open spec fn texts_of(result: Result<String, String>) -> Result<Seq<char>, Seq<char>> {
    match result {
        Ok(text) => Ok(text@),
        Err(text) => Err(text@),
    }
}

/// Calls `Url::parse` of the `url` crate. The URL or the error that comes out
/// is handed on as text. Both depend on the text that is parsed alone.
#[verifier::external_body]
fn parse_url(text: &str) -> (url: Result<String, String>)
    ensures
        texts_of(url) == url_parsed(text@),
{
    match url::Url::parse(text) {
        Ok(url) => Ok(url.to_string()),
        Err(error) => Err(error.to_string()),
    }
}

/// The text that is parsed as the URL of a socket address.
pub open spec fn socket_text(ip: Seq<char>, port: u16) -> Seq<char> {
    "http://"@ + ip + ":"@ + crate::text::decimal(port as nat)
}

/// The text that is parsed as the URL of a socket address.
pub fn socket_addr_text(ip: &str, port: u16) -> (text: String)
    ensures
        text@ == socket_text(ip@, port),
{
    let text: String = "http://".to_owned();
    let number: String = decimal_text(port as u64);
    text.concat(ip).concat(":").concat(number.as_str())
}

/// The URL of the socket address with the given IP address, which is put in
/// as it is written, without brackets, and port.
pub fn socket_addr_to_url(ip: &str, port: u16) -> (url: Result<String, String>)
    ensures
        texts_of(url) == url_parsed(socket_text(ip@, port)),
{
    let text: String = socket_addr_text(ip, port);
    parse_url(text.as_str())
}

/// The text of a socket address is `http://`, then the IP address in full, then
/// a colon, then digits that stand for the port.
pub proof fn law_socket_text_names_address_and_port(ip: Seq<char>, port: u16)
    ensures
        ({
            let text = socket_text(ip, port);
            let colon = 7 + ip.len() as int;
            &&& text.take(7) == "http://"@
            &&& text.subrange(7, colon) == ip
            &&& text[colon] == ':'
            &&& crate::text::value_of(text.skip(colon + 1)) == port
            &&& forall|i: int| colon < i < text.len() ==> '0' <= #[trigger] text[i] <= '9'
        }),
{
    reveal_strlit("http://");
    reveal_strlit(":");
    let text = socket_text(ip, port);
    let colon = 7 + ip.len() as int;
    crate::text::law_decimal_notation_stands_for_the_number(port as nat);
    assert(text.take(7) =~= "http://"@);
    assert(text.subrange(7, colon) =~= ip);
    assert(text.skip(colon + 1) =~= crate::text::decimal(port as nat));
    assert forall|i: int| colon < i < text.len() implies '0' <= #[trigger] text[i] <= '9' by {
        assert(text[i] == crate::text::decimal(port as nat)[i - colon - 1]);
    }
}

} // verus!
