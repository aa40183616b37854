//! The profiles that ship with the library.

use vstd::prelude::*;
use vstd::string::*;
use crate::catalog::{
    Catalog, all_valid, names_unique, names_of, lemma_listed_profiles_are_consistent,
};
use crate::client_hello::{
    compact, grease_all, params_ok, profile_extensions, profile_hello, lemma_compact_round_trip,
    MAX_KEY_SHARE_BYTES,
};
use crate::hello_format::{exts_bytes, hello_message, parse_hello, MAX_U16};
use crate::profile::{Profile, PseudoHeader, Setting, GREASE_PLACEHOLDER, TLS1_2, TLS1_3};

verus! {

/// The names of the shipped profiles, in enumeration order.
pub open spec fn builtin_names() -> Seq<Seq<char>> {
    seq!["Safari18_1_1_iOS"@, "Chrome131"@, "Firefox133"@]
}

/// The names in `v` as character sequences.
pub open spec fn names_view(v: Seq<String>) -> Seq<Seq<char>> {
    v.map_values(|s: String| s@)
}

/// What the Safari 18.1.1 on iOS profile holds.
pub open spec fn is_safari_18_1_1_ios(p: Profile) -> bool {
    &&& p.name@ == "Safari18_1_1_iOS"@
    &&& p.cipher_suites@ == seq![
        GREASE_PLACEHOLDER, 0x1301, 0x1302, 0x1303, 0xc02c, 0xc02b, 0xcca9, 0xc030, 0xc02f,
        0xcca8, 0xc00a, 0xc009, 0xc014, 0xc013, 0x009d, 0x009c, 0x0035, 0x002f, 0xc008,
        0xc012, 0x000a,
    ]
    &&& p.extensions@ == seq![
        GREASE_PLACEHOLDER, 0, 23, 65281, 10, 11, 16, 5, 13, 18, 51, 45, 43, 27, 21,
    ]
    &&& p.tls_versions@ == seq![GREASE_PLACEHOLDER, TLS1_3, TLS1_2, 0x0302, 0x0301]
    &&& p.groups@ == seq![GREASE_PLACEHOLDER, 0x001d, 0x0017, 0x0018, 0x0019]
    &&& p.signature_algorithms@ == seq![
        0x0403u16, 0x0804, 0x0401, 0x0503, 0x0203, 0x0805, 0x0805, 0x0501, 0x0806, 0x0601,
        0x0201,
    ]
    &&& p.cert_compression@ == seq![1u16]
    &&& p.delegated_credentials@ == Seq::<u16>::empty()
    &&& p.record_size_limit == 0
    &&& names_view(p.alpn@) == seq!["h2"@, "http/1.1"@]
    &&& names_view(p.alps@) == Seq::<Seq<char>>::empty()
    &&& p.h2_settings@ == seq![
        Setting { id: 2, value: 0 },
        Setting { id: 3, value: 100 },
        Setting { id: 4, value: 2097152 },
        Setting { id: 9, value: 1 },
    ]
    &&& p.pseudo_order@ == seq![
        PseudoHeader::Method,
        PseudoHeader::Scheme,
        PseudoHeader::Path,
        PseudoHeader::Authority,
    ]
    &&& p.window_increment == 10420225
    &&& p.coalesce_window_update
}

/// Safari 18.1.1 on iOS.
pub fn safari_18_1_1_ios() -> (p: Profile)
    ensures
        is_safari_18_1_1_ios(p),
        p.valid(),
        compact(p),
{
    let p = Profile {
        name: String::from_str("Safari18_1_1_iOS"),
        cipher_suites: vec![
            GREASE_PLACEHOLDER, 0x1301, 0x1302, 0x1303, 0xc02c, 0xc02b, 0xcca9, 0xc030, 0xc02f,
            0xcca8, 0xc00a, 0xc009, 0xc014, 0xc013, 0x009d, 0x009c, 0x0035, 0x002f, 0xc008,
            0xc012, 0x000a,
        ],
        extensions: vec![
            GREASE_PLACEHOLDER, 0, 23, 65281, 10, 11, 16, 5, 13, 18, 51, 45, 43, 27, 21,
        ],
        tls_versions: vec![GREASE_PLACEHOLDER, TLS1_3, TLS1_2, 0x0302, 0x0301],
        groups: vec![GREASE_PLACEHOLDER, 0x001d, 0x0017, 0x0018, 0x0019],
        signature_algorithms: vec![
            0x0403, 0x0804, 0x0401, 0x0503, 0x0203, 0x0805, 0x0805, 0x0501, 0x0806, 0x0601,
            0x0201,
        ],
        cert_compression: vec![1],
        delegated_credentials: Vec::new(),
        record_size_limit: 0,
        alpn: vec![String::from_str("h2"), String::from_str("http/1.1")],
        alps: Vec::new(),
        h2_settings: vec![
            Setting { id: 2, value: 0 },
            Setting { id: 3, value: 100 },
            Setting { id: 4, value: 2097152 },
            Setting { id: 9, value: 1 },
        ],
        pseudo_order: vec![
            PseudoHeader::Method,
            PseudoHeader::Scheme,
            PseudoHeader::Path,
            PseudoHeader::Authority,
        ],
        window_increment: 10420225,
        coalesce_window_update: true,
    };
    proof {
        assert(p.cipher_suites@ =~= seq![
            GREASE_PLACEHOLDER, 0x1301, 0x1302, 0x1303, 0xc02c, 0xc02b, 0xcca9, 0xc030, 0xc02f,
            0xcca8, 0xc00a, 0xc009, 0xc014, 0xc013, 0x009d, 0x009c, 0x0035, 0x002f, 0xc008,
            0xc012, 0x000a,
        ]);
        assert(p.extensions@ =~= seq![
            GREASE_PLACEHOLDER, 0, 23, 65281, 10, 11, 16, 5, 13, 18, 51, 45, 43, 27, 21,
        ]);
        assert(p.tls_versions@ =~= seq![GREASE_PLACEHOLDER, TLS1_3, TLS1_2, 0x0302, 0x0301]);
        assert(p.groups@ =~= seq![GREASE_PLACEHOLDER, 0x001d, 0x0017, 0x0018, 0x0019]);
        assert(p.signature_algorithms@ =~= seq![
            0x0403u16, 0x0804, 0x0401, 0x0503, 0x0203, 0x0805, 0x0805, 0x0501, 0x0806, 0x0601,
            0x0201,
        ]);
        assert(p.cert_compression@ =~= seq![1u16]);
        assert(p.delegated_credentials@ =~= Seq::<u16>::empty());
        assert(p.h2_settings@ =~= seq![
            Setting { id: 2, value: 0 },
            Setting { id: 3, value: 100 },
            Setting { id: 4, value: 2097152 },
            Setting { id: 9, value: 1 },
        ]);
        assert(p.pseudo_order@ =~= seq![
            PseudoHeader::Method,
            PseudoHeader::Scheme,
            PseudoHeader::Path,
            PseudoHeader::Authority,
        ]);
        reveal_strlit("h2");
        reveal_strlit("http/1.1");
        assert(p.tls_versions@[1] == TLS1_3);
        assert(names_view(p.alpn@) =~= seq!["h2"@, "http/1.1"@]);
        assert(names_view(p.alps@) =~= Seq::<Seq<char>>::empty());
    }
    p
}

/// What the Chrome 131 profile holds.
pub open spec fn is_chrome_131(p: Profile) -> bool {
    &&& p.name@ == "Chrome131"@
    &&& p.cipher_suites@ == seq![
        GREASE_PLACEHOLDER, 0x1301, 0x1302, 0x1303, 0xc02b, 0xc02f, 0xc02c, 0xc030, 0xcca9,
        0xcca8, 0xc013, 0xc014, 0x009c, 0x009d, 0x002f, 0x0035,
    ]
    &&& p.extensions@ == seq![
        GREASE_PLACEHOLDER, 0, 23, 65281, 10, 11, 35, 16, 5, 13, 18, 51, 45, 43, 27, 17613,
    ]
    &&& p.tls_versions@ == seq![GREASE_PLACEHOLDER, TLS1_3, TLS1_2]
    &&& p.groups@ == seq![GREASE_PLACEHOLDER, 0x11ec, 0x001d, 0x0017, 0x0018]
    &&& p.signature_algorithms@ == seq![
        0x0403u16, 0x0804, 0x0401, 0x0503, 0x0805, 0x0501, 0x0806, 0x0601,
    ]
    &&& p.cert_compression@ == seq![2u16]
    &&& p.delegated_credentials@ == Seq::<u16>::empty()
    &&& p.record_size_limit == 0
    &&& names_view(p.alpn@) == seq!["h2"@, "http/1.1"@]
    &&& names_view(p.alps@) == seq!["h2"@]
    &&& p.h2_settings@ == seq![
        Setting { id: 1, value: 65536 },
        Setting { id: 2, value: 0 },
        Setting { id: 4, value: 6291456 },
        Setting { id: 6, value: 262144 },
    ]
    &&& p.pseudo_order@ == seq![
        PseudoHeader::Method,
        PseudoHeader::Authority,
        PseudoHeader::Scheme,
        PseudoHeader::Path,
    ]
    &&& p.window_increment == 15663105
    &&& p.coalesce_window_update
}

/// Chrome 131.
pub fn chrome_131() -> (p: Profile)
    ensures
        is_chrome_131(p),
        p.valid(),
        compact(p),
{
    let p = Profile {
        name: String::from_str("Chrome131"),
        cipher_suites: vec![
            GREASE_PLACEHOLDER, 0x1301, 0x1302, 0x1303, 0xc02b, 0xc02f, 0xc02c, 0xc030, 0xcca9,
            0xcca8, 0xc013, 0xc014, 0x009c, 0x009d, 0x002f, 0x0035,
        ],
        extensions: vec![
            GREASE_PLACEHOLDER, 0, 23, 65281, 10, 11, 35, 16, 5, 13, 18, 51, 45, 43, 27, 17613,
        ],
        tls_versions: vec![GREASE_PLACEHOLDER, TLS1_3, TLS1_2],
        groups: vec![GREASE_PLACEHOLDER, 0x11ec, 0x001d, 0x0017, 0x0018],
        signature_algorithms: vec![
            0x0403, 0x0804, 0x0401, 0x0503, 0x0805, 0x0501, 0x0806, 0x0601,
        ],
        cert_compression: vec![2],
        delegated_credentials: Vec::new(),
        record_size_limit: 0,
        alpn: vec![String::from_str("h2"), String::from_str("http/1.1")],
        alps: vec![String::from_str("h2")],
        h2_settings: vec![
            Setting { id: 1, value: 65536 },
            Setting { id: 2, value: 0 },
            Setting { id: 4, value: 6291456 },
            Setting { id: 6, value: 262144 },
        ],
        pseudo_order: vec![
            PseudoHeader::Method,
            PseudoHeader::Authority,
            PseudoHeader::Scheme,
            PseudoHeader::Path,
        ],
        window_increment: 15663105,
        coalesce_window_update: true,
    };
    proof {
        assert(p.cipher_suites@ =~= seq![
            GREASE_PLACEHOLDER, 0x1301, 0x1302, 0x1303, 0xc02b, 0xc02f, 0xc02c, 0xc030, 0xcca9,
            0xcca8, 0xc013, 0xc014, 0x009c, 0x009d, 0x002f, 0x0035,
        ]);
        assert(p.extensions@ =~= seq![
            GREASE_PLACEHOLDER, 0, 23, 65281, 10, 11, 35, 16, 5, 13, 18, 51, 45, 43, 27, 17613,
        ]);
        assert(p.tls_versions@ =~= seq![GREASE_PLACEHOLDER, TLS1_3, TLS1_2]);
        assert(p.groups@ =~= seq![GREASE_PLACEHOLDER, 0x11ec, 0x001d, 0x0017, 0x0018]);
        assert(p.signature_algorithms@ =~= seq![
            0x0403u16, 0x0804, 0x0401, 0x0503, 0x0805, 0x0501, 0x0806, 0x0601,
        ]);
        assert(p.cert_compression@ =~= seq![2u16]);
        assert(p.delegated_credentials@ =~= Seq::<u16>::empty());
        assert(p.h2_settings@ =~= seq![
            Setting { id: 1, value: 65536 },
            Setting { id: 2, value: 0 },
            Setting { id: 4, value: 6291456 },
            Setting { id: 6, value: 262144 },
        ]);
        assert(p.pseudo_order@ =~= seq![
            PseudoHeader::Method,
            PseudoHeader::Authority,
            PseudoHeader::Scheme,
            PseudoHeader::Path,
        ]);
        reveal_strlit("h2");
        reveal_strlit("http/1.1");
        assert(p.tls_versions@[1] == TLS1_3);
        assert(names_view(p.alpn@) =~= seq!["h2"@, "http/1.1"@]);
        assert(names_view(p.alps@) =~= seq!["h2"@]);
    }
    p
}

/// What the Firefox 133 profile holds.
pub open spec fn is_firefox_133(p: Profile) -> bool {
    &&& p.name@ == "Firefox133"@
    &&& p.cipher_suites@ == seq![
        0x1301u16, 0x1303, 0x1302, 0xc02b, 0xc02f, 0xcca9, 0xcca8, 0xc02c, 0xc030, 0xc00a,
        0xc009, 0xc013, 0xc014, 0x009c, 0x009d, 0x002f, 0x0035,
    ]
    &&& p.extensions@ == seq![0u16, 23, 65281, 10, 11, 35, 16, 5, 34, 18, 51, 43, 13, 45, 28, 27]
    &&& p.tls_versions@ == seq![TLS1_3, TLS1_2]
    &&& p.groups@ == seq![0x11ecu16, 0x001d, 0x0017, 0x0018, 0x0019, 0x0100, 0x0101]
    &&& p.signature_algorithms@ == seq![
        0x0403u16, 0x0503, 0x0603, 0x0804, 0x0805, 0x0806, 0x0401, 0x0501, 0x0601, 0x0203,
        0x0201,
    ]
    &&& p.cert_compression@ == seq![1u16, 2, 3]
    &&& p.delegated_credentials@ == seq![0x0403u16, 0x0503, 0x0603, 0x0203]
    &&& p.record_size_limit == 16385
    &&& names_view(p.alpn@) == seq!["h2"@, "http/1.1"@]
    &&& names_view(p.alps@) == Seq::<Seq<char>>::empty()
    &&& p.h2_settings@ == seq![
        Setting { id: 1, value: 65536 },
        Setting { id: 2, value: 0 },
        Setting { id: 4, value: 131072 },
        Setting { id: 5, value: 16384 },
    ]
    &&& p.pseudo_order@ == seq![
        PseudoHeader::Method,
        PseudoHeader::Path,
        PseudoHeader::Authority,
        PseudoHeader::Scheme,
    ]
    &&& p.window_increment == 12517377
    &&& !p.coalesce_window_update
}

/// Firefox 133.
pub fn firefox_133() -> (p: Profile)
    ensures
        is_firefox_133(p),
        p.valid(),
        compact(p),
{
    let p = Profile {
        name: String::from_str("Firefox133"),
        cipher_suites: vec![
            0x1301, 0x1303, 0x1302, 0xc02b, 0xc02f, 0xcca9, 0xcca8, 0xc02c, 0xc030, 0xc00a,
            0xc009, 0xc013, 0xc014, 0x009c, 0x009d, 0x002f, 0x0035,
        ],
        extensions: vec![
            0, 23, 65281, 10, 11, 35, 16, 5, 34, 18, 51, 43, 13, 45, 28, 27,
        ],
        tls_versions: vec![TLS1_3, TLS1_2],
        groups: vec![0x11ec, 0x001d, 0x0017, 0x0018, 0x0019, 0x0100, 0x0101],
        signature_algorithms: vec![
            0x0403, 0x0503, 0x0603, 0x0804, 0x0805, 0x0806, 0x0401, 0x0501, 0x0601, 0x0203,
            0x0201,
        ],
        cert_compression: vec![1, 2, 3],
        delegated_credentials: vec![0x0403, 0x0503, 0x0603, 0x0203],
        record_size_limit: 16385,
        alpn: vec![String::from_str("h2"), String::from_str("http/1.1")],
        alps: Vec::new(),
        h2_settings: vec![
            Setting { id: 1, value: 65536 },
            Setting { id: 2, value: 0 },
            Setting { id: 4, value: 131072 },
            Setting { id: 5, value: 16384 },
        ],
        pseudo_order: vec![
            PseudoHeader::Method,
            PseudoHeader::Path,
            PseudoHeader::Authority,
            PseudoHeader::Scheme,
        ],
        window_increment: 12517377,
        coalesce_window_update: false,
    };
    proof {
        assert(p.cipher_suites@ =~= seq![
            0x1301u16, 0x1303, 0x1302, 0xc02b, 0xc02f, 0xcca9, 0xcca8, 0xc02c, 0xc030, 0xc00a,
            0xc009, 0xc013, 0xc014, 0x009c, 0x009d, 0x002f, 0x0035,
        ]);
        assert(p.extensions@ =~= seq![0u16, 23, 65281, 10, 11, 35, 16, 5, 34, 18, 51, 43, 13, 45, 28, 27]);
        assert(p.tls_versions@ =~= seq![TLS1_3, TLS1_2]);
        assert(p.groups@ =~= seq![0x11ecu16, 0x001d, 0x0017, 0x0018, 0x0019, 0x0100, 0x0101]);
        assert(p.signature_algorithms@ =~= seq![
            0x0403u16, 0x0503, 0x0603, 0x0804, 0x0805, 0x0806, 0x0401, 0x0501, 0x0601, 0x0203,
            0x0201,
        ]);
        assert(p.cert_compression@ =~= seq![1u16, 2, 3]);
        assert(p.delegated_credentials@ =~= seq![0x0403u16, 0x0503, 0x0603, 0x0203]);
        assert(p.h2_settings@ =~= seq![
            Setting { id: 1, value: 65536 },
            Setting { id: 2, value: 0 },
            Setting { id: 4, value: 131072 },
            Setting { id: 5, value: 16384 },
        ]);
        assert(p.pseudo_order@ =~= seq![
            PseudoHeader::Method,
            PseudoHeader::Path,
            PseudoHeader::Authority,
            PseudoHeader::Scheme,
        ]);
        reveal_strlit("h2");
        reveal_strlit("http/1.1");
        assert(p.tls_versions@[0] == TLS1_3);
        assert(names_view(p.alpn@) =~= seq!["h2"@, "http/1.1"@]);
        assert(names_view(p.alps@) =~= Seq::<Seq<char>>::empty());
    }
    p
}

impl Catalog {
    /// The catalog of shipped profiles: Safari 18.1.1 on iOS, Chrome 131 and
    /// Firefox 133, in that order, each small enough that its ClientHello
    /// always fits.
    pub fn builtin() -> (r: Catalog)
        ensures
            r.wf(),
            r.names() == builtin_names(),
            is_safari_18_1_1_ios(r@[0]),
            is_chrome_131(r@[1]),
            is_firefox_133(r@[2]),
            forall|i: int| 0 <= i < r@.len() ==> compact(#[trigger] r@[i]),
    {
        let profiles = vec![safari_18_1_1_ios(), chrome_131(), firefox_133()];
        proof {
            reveal_strlit("Safari18_1_1_iOS");
            reveal_strlit("Chrome131");
            reveal_strlit("Firefox133");
            assert(all_valid(profiles@));
            assert(profiles@[0].name@.len() == 16);
            assert(profiles@[1].name@.len() == 9);
            assert(profiles@[2].name@.len() == 10);
            assert forall|i: int, j: int|
                0 <= i < profiles@.len() && 0 <= j < profiles@.len() && i != j implies (
                #[trigger] profiles@[i]).name@ != (#[trigger] profiles@[j]).name@ by {
                assert(profiles@[i].name@.len() != profiles@[j].name@.len());
            }
            assert(names_of(profiles@) =~= builtin_names());
        }
        match Catalog::from_profiles(profiles) {
            Ok(c) => c,
            Err(_) => {
                proof {
                    assert(false);
                }
                Catalog::empty()
            },
        }
    }
}

/// In a catalog whose profiles are all compact, such as the shipped one,
/// every listed name leads to a profile whose ClientHello fits its length
/// fields and, parsed back, offers the profile's cipher suites and
/// extensions in the profile's order, each GREASE placeholder holding the
/// GREASE value.
pub proof fn lemma_listed_round_trip(
    c: &Catalog,
    name: Seq<char>,
    host: Seq<u8>,
    ks: Seq<(u16, Seq<u8>)>,
    random: Seq<u8>,
    session_id: Seq<u8>,
    g: u16,
)
    requires
        c.wf(),
        forall|i: int| 0 <= i < c@.len() ==> compact(#[trigger] c@[i]),
        c.names().contains(name),
        params_ok(host, random, session_id, g),
        exts_bytes(ks).len() <= MAX_KEY_SHARE_BYTES,
    ensures
        c.lookup(name) matches Some(p) && (exts_bytes(profile_extensions(p, host, ks, g)).len()
            <= MAX_U16 && (parse_hello(
            hello_message(profile_hello(p, host, ks, random, session_id, g)),
        ) matches Some(h) && h.cipher_suites == grease_all(p.cipher_suites@, g)
            && h.extensions.map_values(|e: (u16, Seq<u8>)| e.0) == grease_all(p.extensions@, g))),
{
    lemma_listed_profiles_are_consistent(c, name);
    let j = choose|j: int| 0 <= j < c@.len() && (#[trigger] c@[j]).name@ == name;
    let p = c@[j];
    assert(p.valid());
    assert(compact(p));
    lemma_compact_round_trip(p, host, ks, random, session_id, g);
}

} // verus!
