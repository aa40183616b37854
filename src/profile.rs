//! The description of one emulated client and the rules that make it
//! internally consistent.

use vstd::prelude::*;
use vstd::utf8::is_ascii_chars;

verus! {

/// The TLS 1.2 protocol version code.
pub const TLS1_2: u16 = 0x0303;

/// The TLS 1.3 protocol version code.
pub const TLS1_3: u16 = 0x0304;

/// The code that marks a GREASE position in a cipher or extension list.
pub const GREASE_PLACEHOLDER: u16 = 0x0a0a;

/// Most entries a list of 16-bit values may hold under a 16-bit length
/// field.
pub const MAX_U16_LIST: usize = 32767;

/// Most entries a list of 16-bit values may hold under an 8-bit length field.
pub const MAX_U8_LIST: usize = 127;

/// Most SETTINGS parameters one frame can carry under its 24-bit length.
pub const MAX_SETTINGS: usize = 2796202;

/// The smallest record size limit a client may announce.
pub const MIN_RECORD_SIZE_LIMIT: u16 = 64;

/// An HTTP/2 pseudo-header, in the order a client emits them.
#[derive(Clone, Copy, Debug, PartialEq, Eq, Structural)]
pub enum PseudoHeader {
    Method,
    Authority,
    Scheme,
    Path,
}

/// One parameter of the initial HTTP/2 SETTINGS frame.
#[derive(Clone, Copy, Debug, PartialEq, Eq, Structural)]
pub struct Setting {
    pub id: u16,
    pub value: u32,
}

/// A named recipe for the handshake and transport behaviour of one client.
#[derive(Clone, Debug)]
pub struct Profile {
    pub name: String,
    /// Cipher suites in the order they are offered; `GREASE_PLACEHOLDER`
    /// marks where a GREASE value goes.
    pub cipher_suites: Vec<u16>,
    /// Extension types in the order they are sent; `GREASE_PLACEHOLDER`
    /// marks where a GREASE extension goes.
    pub extensions: Vec<u16>,
    pub tls_versions: Vec<u16>,
    pub groups: Vec<u16>,
    pub signature_algorithms: Vec<u16>,
    /// Certificate compression algorithms, in preference order.
    pub cert_compression: Vec<u16>,
    /// Signature schemes accepted for delegated credentials.
    pub delegated_credentials: Vec<u16>,
    /// The record size limit announced by extension 28; unused when the
    /// profile does not list that extension.
    pub record_size_limit: u16,
    pub alpn: Vec<String>,
    /// Protocols announced by application settings (extension 17613).
    pub alps: Vec<String>,
    pub h2_settings: Vec<Setting>,
    pub pseudo_order: Vec<PseudoHeader>,
    /// Connection window increment sent after SETTINGS; zero sends none.
    pub window_increment: u32,
    /// Whether SETTINGS and WINDOW_UPDATE leave in one write.
    pub coalesce_window_update: bool,
}

/// A GREASE value (RFC 8701): both bytes equal and of the form `0x?A`.
pub open spec fn is_grease(x: u16) -> bool {
    x % 16 == 10 && (x / 256) % 16 == 10 && x / 256 == x % 256
}

/// An ALPN protocol name: one to 255 ASCII characters.
pub open spec fn alpn_name_ok(s: Seq<char>) -> bool {
    1 <= s.len() <= 255 && is_ascii_chars(s)
}

/// Extensions whose body is empty in a ClientHello: status of SCTs,
/// padding of length zero, encrypt-then-MAC, extended master secret, a new
/// session ticket request, early data and post-handshake auth.
pub open spec fn empty_body_ext(t: u16) -> bool {
    t == 18 || t == 21 || t == 22 || t == 23 || t == 35 || t == 42 || t == 49
}

/// Tells whether extension `t` has an empty body in a ClientHello.
pub fn has_empty_body(t: u16) -> (r: bool)
    ensures
        r == empty_body_ext(t),
{
    t == 18 || t == 21 || t == 22 || t == 23 || t == 35 || t == 42 || t == 49
}

/// Every name is one to 255 ASCII characters long.
pub fn names_ok(names: &Vec<String>) -> (r: bool)
    ensures
        r == forall|i: int| 0 <= i < names@.len() ==> alpn_name_ok((#[trigger] names@[i])@),
{
    let mut k: usize = 0;
    while k < names.len()
        invariant
            k <= names@.len(),
            forall|i: int| 0 <= i < k ==> alpn_name_ok((#[trigger] names@[i])@),
        decreases names@.len() - k,
    {
        let name = names[k].as_str();
        let n = name.unicode_len();
        if n == 0 || n > 255 || !name.is_ascii() {
            assert(!alpn_name_ok(names@[k as int]@));
            return false;
        }
        k += 1;
    }
    true
}

/// Extensions that only TLS 1.3 defines.
pub open spec fn needs_tls13(ext: u16) -> bool {
    ext == 41 || ext == 42 || ext == 43 || ext == 44 || ext == 45 || ext == 49 || ext == 51
}

/// Tells whether `ext` is an extension that only TLS 1.3 defines.
pub fn requires_tls13(ext: u16) -> (r: bool)
    ensures
        r == needs_tls13(ext),
{
    ext == 41 || ext == 42 || ext == 43 || ext == 44 || ext == 45 || ext == 49 || ext == 51
}

/// Tells whether `x` is a GREASE value.
pub fn grease_value(x: u16) -> (r: bool)
    ensures
        r == is_grease(x),
{
    x % 16 == 10 && (x / 256) % 16 == 10 && x / 256 == x % 256
}

impl Profile {
    /// The profile's ALPN protocols as character sequences.
    pub open spec fn alpn_view(&self) -> Seq<Seq<char>> {
        self.alpn@.map_values(|s: String| s@)
    }

    /// No extension asks for a TLS version the profile does not offer.
    pub open spec fn versions_consistent(&self) -> bool {
        forall|i: int|
            0 <= i < self.extensions@.len() && needs_tls13(#[trigger] self.extensions@[i])
                ==> self.tls_versions@.contains(TLS1_3)
    }

    /// Every list fits its length field, and every ALPN and ALPS name is one
    /// to 255 ASCII characters long.
    pub open spec fn sizes_fit(&self) -> bool {
        &&& self.cipher_suites@.len() <= MAX_U16_LIST
        &&& self.tls_versions@.len() <= MAX_U8_LIST
        &&& self.groups@.len() <= MAX_U16_LIST
        &&& self.signature_algorithms@.len() <= MAX_U16_LIST
        &&& self.cert_compression@.len() <= MAX_U8_LIST
        &&& self.delegated_credentials@.len() <= MAX_U16_LIST
        &&& forall|i: int|
            0 <= i < self.alpn@.len() ==> alpn_name_ok((#[trigger] self.alpn@[i])@)
        &&& forall|i: int|
            0 <= i < self.alps@.len() ==> alpn_name_ok((#[trigger] self.alps@[i])@)
        &&& self.h2_settings@.len() <= MAX_SETTINGS
    }

    /// Extension `t` can be sent with a well-formed body: either it is one
    /// whose body the profile or the connection fills in, and the list that
    /// fills it is not empty, or its body is empty by definition.
    pub open spec fn body_known(&self, t: u16) -> bool {
        ||| t == GREASE_PLACEHOLDER
        ||| empty_body_ext(t)
        ||| t == 0 || t == 5 || t == 11 || t == 43 || t == 45 || t == 51 || t == 65281
        ||| t == 10 && self.groups@.len() > 0
        ||| t == 13 && self.signature_algorithms@.len() > 0
        ||| t == 16 && self.alpn@.len() > 0
        ||| t == 27 && self.cert_compression@.len() > 0
        ||| t == 28 && self.record_size_limit >= MIN_RECORD_SIZE_LIMIT
        ||| t == 34 && self.delegated_credentials@.len() > 0
        ||| t == 17613 && self.alps@.len() > 0
    }

    /// Every extension the profile lists can be sent well formed.
    pub open spec fn bodies_known(&self) -> bool {
        forall|i: int| 0 <= i < self.extensions@.len() ==> self.body_known(#[trigger] self.extensions@[i])
    }

    /// A profile that can be put on the wire as it stands.
    pub open spec fn valid(&self) -> bool {
        &&& self.cipher_suites@.len() > 0
        &&& self.extensions@.len() > 0
        &&& self.tls_versions@.len() > 0
        &&& self.versions_consistent()
        &&& self.bodies_known()
        &&& self.sizes_fit()
    }

    /// Whether extension `t` can be sent with a well-formed body.
    pub fn knows_body(&self, t: u16) -> (r: bool)
        ensures
            r == self.body_known(t),
    {
        t == GREASE_PLACEHOLDER || has_empty_body(t) || t == 0 || t == 5 || t == 11 || t == 43
            || t == 45 || t == 51 || t == 65281 || (t == 10 && self.groups.len() > 0) || (t == 13
            && self.signature_algorithms.len() > 0) || (t == 16 && self.alpn.len() > 0) || (t
            == 27 && self.cert_compression.len() > 0) || (t == 28 && self.record_size_limit
            >= MIN_RECORD_SIZE_LIMIT) || (t == 34 && self.delegated_credentials.len() > 0) || (t
            == 17613 && self.alps.len() > 0)
    }

    /// Checks that the profile is `valid`.
    pub fn check(&self) -> (r: bool)
        ensures
            r == self.valid(),
    {
        if self.cipher_suites.len() == 0 || self.extensions.len() == 0
            || self.tls_versions.len() == 0 {
            return false;
        }
        if self.cipher_suites.len() > MAX_U16_LIST || self.tls_versions.len() > MAX_U8_LIST
            || self.groups.len() > MAX_U16_LIST || self.signature_algorithms.len() > MAX_U16_LIST
            || self.cert_compression.len() > MAX_U8_LIST || self.delegated_credentials.len()
            > MAX_U16_LIST || self.h2_settings.len() > MAX_SETTINGS {
            return false;
        }
        if !names_ok(&self.alpn) || !names_ok(&self.alps) {
            return false;
        }
        let has13 = self.offers_tls13();
        let mut j: usize = 0;
        while j < self.extensions.len()
            invariant
                j <= self.extensions@.len(),
                has13 == self.tls_versions@.contains(TLS1_3),
                forall|i: int|
                    0 <= i < j && needs_tls13(#[trigger] self.extensions@[i]) ==> has13,
                forall|i: int| 0 <= i < j ==> self.body_known(#[trigger] self.extensions@[i]),
            decreases self.extensions@.len() - j,
        {
            let t = self.extensions[j];
            if requires_tls13(t) && !has13 {
                assert(needs_tls13(self.extensions@[j as int]));
                return false;
            }
            if !self.knows_body(t) {
                return false;
            }
            j += 1;
        }
        true
    }

    /// Whether a server may settle on version `v`: the profile offers it and
    /// it is not a GREASE value. A server without TLS 1.3 thus falls back to
    /// TLS 1.2 exactly when the profile offers TLS 1.2.
    pub fn accepts_version(&self, v: u16) -> (r: bool)
        ensures
            r == (self.tls_versions@.contains(v) && !is_grease(v)),
    {
        if grease_value(v) {
            return false;
        }
        let mut k: usize = 0;
        while k < self.tls_versions.len()
            invariant
                k <= self.tls_versions@.len(),
                !is_grease(v),
                forall|i: int| 0 <= i < k ==> self.tls_versions@[i] != v,
            decreases self.tls_versions@.len() - k,
        {
            if self.tls_versions[k] == v {
                assert(self.tls_versions@[k as int] == v);
                return true;
            }
            k += 1;
        }
        false
    }

    /// Whether the profile offers TLS 1.3.
    pub fn offers_tls13(&self) -> (r: bool)
        ensures
            r == self.tls_versions@.contains(TLS1_3),
    {
        let mut k: usize = 0;
        while k < self.tls_versions.len()
            invariant
                k <= self.tls_versions@.len(),
                forall|i: int| 0 <= i < k ==> self.tls_versions@[i] != TLS1_3,
            decreases self.tls_versions@.len() - k,
        {
            if self.tls_versions[k] == TLS1_3 {
                assert(self.tls_versions@[k as int] == TLS1_3);
                return true;
            }
            k += 1;
        }
        false
    }
}

} // verus!
