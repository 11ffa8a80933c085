//! The strings a proxy check sends: the proxy addresses and the basic
//! authorization header value.

use vstd::prelude::*;

use base64::Engine;

use crate::text::{host_port, spec_decimal};

verus! {

/// The standard-alphabet base64 encoding of a string's bytes.
pub uninterp spec fn b64_of(s: Seq<char>) -> Seq<char>;

/// Relies on base64's standard-alphabet encoder (`STANDARD.encode`): the
/// encoding depends on the input bytes alone.
#[verifier::external_body]
fn encode_base64(s: &str) -> (r: String)
    ensures
        r@ == b64_of(s@),
{
    base64::engine::general_purpose::STANDARD.encode(s)
}

/// The credential pair joined for basic authentication.
pub fn join_credentials(username: &str, password: &str) -> (r: String)
    ensures
        r@ == username@ + ":"@ + password@,
{
    let mut s = String::from_str(username);
    s.append(":");
    s.append(password);
    s
}

/// The `Proxy-Authorization` value carrying basic credentials: the scheme
/// word and the encoded `username:password` pair.
pub fn basic_auth_value(username: &str, password: &str) -> (r: String)
    ensures
        r@ == "Basic "@ + b64_of(username@ + ":"@ + password@),
{
    let joined = join_credentials(username, password);
    let encoded = encode_base64(joined.as_str());
    let mut s = String::from_str("Basic ");
    s.append(encoded.as_str());
    s
}

/// The address of a socks5 proxy: the scheme prefix before host and port.
pub fn proxy_socks5_address(ip: &str, port: u32) -> (r: String)
    ensures
        r@ == "socks5h://"@ + ip@ + ":"@ + spec_decimal(port as nat),
{
    let mut s = String::from_str("socks5h://");
    let hp = host_port(ip, port);
    s.append(hp.as_str());
    proof {
        assert("socks5h://"@ + (ip@ + ":"@ + spec_decimal(port as nat)) =~= "socks5h://"@ + ip@
            + ":"@ + spec_decimal(port as nat));
    }
    s
}

} // verus!
