//! What a host application sees: the names of the shipped profiles, the
//! artifacts a connection needs before any I/O, and the server lifecycle.

use vstd::prelude::*;
use vstd::utf8::encode_utf8;
use crate::builtin::builtin_names;
use crate::catalog::Catalog;
use crate::client_hello::{
    HelloError, KeyShare, build_client_hello, params_ok, profile_hello, shares_view,
};
use crate::h2::{FrameError, connection_preface, connection_writes, MAX_WINDOW_INCREMENT};
use crate::hello_format::{exts_bytes, hello_message, MAX_U16};
use crate::profile::Profile;

verus! {

/// The profile names of `c`, in enumeration order.
pub fn available_profiles(c: &Catalog) -> (r: Vec<String>)
    ensures
        r@.map_values(|s: String| s@) == c.names(),
{
    c.list()
}

/// The names of the shipped profiles, in enumeration order.
pub fn get_fingerprints() -> (r: Vec<String>)
    ensures
        r@.map_values(|s: String| s@) == builtin_names(),
{
    available_profiles(&Catalog::builtin())
}

/// Stops the embedded server. No server runs in this library, so there is
/// never anything to report.
pub fn stop_server() -> (r: Option<String>)
    ensures
        r is None,
{
    None
}

/// Why a connection could not be prepared.
#[derive(Clone, Copy, Debug, PartialEq, Eq, Structural)]
pub enum PrepareError {
    Hello(HelloError),
    Frame(FrameError),
}

/// The bytes a connection sends on the profile's behalf.
pub struct Handshake {
    pub client_hello: Vec<u8>,
    /// The HTTP/2 writes after the TLS handshake, one entry per write.
    pub preface_writes: Vec<Vec<u8>>,
}

/// Builds everything `p` sends while opening a connection to `host`, so that
/// every profile error surfaces before any I/O.
pub fn prepare_connection(
    p: &Profile,
    host: &str,
    key_shares: &Vec<KeyShare>,
    random: &Vec<u8>,
    session_id: &Vec<u8>,
    grease: u16,
) -> (r: Result<Handshake, PrepareError>)
    ensures
        !p.valid() ==> r == Err::<Handshake, PrepareError>(
            PrepareError::Hello(HelloError::InvalidProfile),
        ),
        p.valid() && !params_ok(encode_utf8(host@), random@, session_id@, grease) ==> r == Err::<
            Handshake,
            PrepareError,
        >(PrepareError::Hello(HelloError::InvalidParameter)),
        p.valid() && params_ok(encode_utf8(host@), random@, session_id@, grease) ==> {
            let parts = profile_hello(
                *p,
                encode_utf8(host@),
                shares_view(key_shares@),
                random@,
                session_id@,
                grease,
            );
            if exts_bytes(parts.extensions).len() > MAX_U16 {
                r == Err::<Handshake, PrepareError>(PrepareError::Hello(HelloError::TooLarge))
            } else if p.window_increment > MAX_WINDOW_INCREMENT {
                r == Err::<Handshake, PrepareError>(PrepareError::Frame(FrameError::InvalidWindow))
            } else {
                r matches Ok(h) && h.client_hello@ == hello_message(parts)
                    && h.preface_writes@.map_values(|b: Vec<u8>| b@) == connection_writes(*p)
            }
        },
{
    let client_hello = match build_client_hello(p, host, key_shares, random, session_id, grease) {
        Ok(b) => b,
        Err(e) => {
            return Err(PrepareError::Hello(e));
        },
    };
    match connection_preface(p) {
        Ok(preface_writes) => Ok(Handshake { client_hello, preface_writes }),
        Err(e) => Err(PrepareError::Frame(e)),
    }
}

} // verus!
