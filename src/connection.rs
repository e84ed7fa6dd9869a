use vstd::prelude::*;

use celestia_types::nmt::Namespace;
use vstd::string::StringSliceAdditionalSpecFns;

use crate::error::{DataAvailabilityError, Error};

verus! {

#[verifier::external_type_specification]
#[verifier::external_body]
pub struct ExNamespace(Namespace);

/// The text before the first `:` of a connection string, if it has one.
#[verifier::opaque]
pub open spec fn scheme_of(s: Seq<char>) -> Option<Seq<char>> {
    if exists|i: int| 0 <= i < s.len() && s[i] == ':' {
        let i = choose|i: int|
            0 <= i < s.len() && s[i] == ':' && forall|j: int| 0 <= j < i ==> s[j] != ':';
        Some(s.subrange(0, i))
    } else {
        None
    }
}

/// A connection string is accepted where it declares the scheme `ws` or `wss`.
pub open spec fn scheme_supported(s: Seq<char>) -> bool {
    scheme_of(s) == Some(seq!['w', 's']) || scheme_of(s) == Some(seq!['w', 's', 's'])
}

/// The value of one hexadecimal digit, in either case.
pub open spec fn hex_digit(c: u8) -> Option<int> {
    if 48 <= c <= 57 {
        Some(c - 48)
    } else if 97 <= c <= 102 {
        Some(c - 87)
    } else if 65 <= c <= 70 {
        Some(c - 55)
    } else {
        None
    }
}

/// Text that decodes as hexadecimal: an even number of hexadecimal digits.
pub open spec fn hex_valid(b: Seq<u8>) -> bool {
    b.len() % 2 == 0 && forall|i: int| 0 <= i < b.len() ==> (#[trigger] hex_digit(b[i])) is Some
}

/// The bytes that hexadecimal text denotes, two digits each, high digit first.
pub open spec fn hex_bytes(b: Seq<u8>) -> Seq<u8> {
    Seq::new(
        (b.len() / 2) as nat,
        |i: int| (hex_digit(b[2 * i])->0 * 16 + hex_digit(b[2 * i + 1])->0) as u8,
    )
}

/// An identifier that makes a version-0 namespace: at most ten bytes, or
/// twenty-eight bytes of which the first eighteen are zero.
pub open spec fn namespace_v0_valid(id: Seq<u8>) -> bool {
    id.len() <= 10 || (id.len() == 28 && forall|i: int| 0 <= i < 18 ==> id[i] == 0)
}

/// Namespace text that backend construction accepts.
pub open spec fn namespace_hex_valid(hex: Seq<u8>) -> bool {
    hex_valid(hex) && namespace_v0_valid(hex_bytes(hex))
}

/// Relies on `str::split_once`: splits at the first occurrence of the
/// delimiter, and gives `None` where there is none.
#[verifier::external_body]
fn split_at_colon(s: &str) -> (r: Option<(&str, &str)>)
    ensures
        r is None <==> !s@.contains(':'),
        r matches Some(p) ==> s@ == p.0@ + seq![':'] + p.1@ && !p.0@.contains(':'),
{
    s.split_once(':')
}

/// Relies on `hex::decode`: it fails on odd length or on a character that is
/// not a hexadecimal digit, and else yields one byte for each two digits.
#[verifier::external_body]
fn decode_hex(s: &str) -> (r: Option<Vec<u8>>)
    ensures
        r is Some <==> hex_valid(s.spec_bytes()),
        r matches Some(v) ==> v@ == hex_bytes(s.spec_bytes()),
{
    hex::decode(s).ok()
}

/// Relies on `celestia_types::nmt::Namespace::new_v0`: it accepts an
/// identifier of at most ten bytes, or of twenty-eight bytes with eighteen
/// leading zero bytes, and refuses any other.
#[verifier::external_body]
fn namespace_v0(id: &[u8]) -> (r: Option<Namespace>)
    ensures
        r is Some <==> namespace_v0_valid(id@),
{
    Namespace::new_v0(id).ok()
}

proof fn lemma_no_scheme(s: Seq<char>)
    requires
        !s.contains(':'),
    ensures
        scheme_of(s) is None,
{
    reveal(scheme_of);
}

proof fn lemma_scheme_of(s: Seq<char>, a: Seq<char>, b: Seq<char>)
    requires
        s == a + seq![':'] + b,
        !a.contains(':'),
    ensures
        scheme_of(s) == Some(a),
{
    reveal(scheme_of);
    let n = a.len() as int;
    assert(s[n] == ':');
    assert forall|j: int| 0 <= j < n implies s[j] != ':' by {
        assert(s[j] == a[j]);
    }
    let i = choose|i: int|
        0 <= i < s.len() && s[i] == ':' && forall|j: int| 0 <= j < i ==> s[j] != ':';
    if i < n {
        assert(s[i] == a[i]);
    }
    if i > n {
        assert(s[n] != ':');
    }
    assert(s.subrange(0, n) =~= a);
}

/// Whether a connection string declares a supported scheme (`ws` or `wss`).
pub fn protocol_supported(conn_str: &str) -> (r: bool)
    ensures
        r == scheme_supported(conn_str@),
{
    match split_at_colon(conn_str) {
        None => {
            proof {
                lemma_no_scheme(conn_str@);
            }
            false
        },
        Some((proto, rest)) => {
            proof {
                lemma_scheme_of(conn_str@, proto@, rest@);
            }
            let p = proto.to_owned();
            let ws = "ws".to_owned();
            let wss = "wss".to_owned();
            proof {
                reveal_strlit("ws");
                reveal_strlit("wss");
                assert(ws@ =~= seq!['w', 's']);
                assert(wss@ =~= seq!['w', 's', 's']);
            }
            p == ws || p == wss
        },
    }
}

/// Checks the scheme of a JSON-RPC connection string before any connection
/// is attempted: only `ws` and `wss` are supported.
pub fn check_connection_string(conn_str: &str) -> (r: Result<(), Error>)
    ensures
        r is Ok <==> scheme_supported(conn_str@),
        r matches Err(e) ==> e matches Error::ProtocolNotSupported(s) && s@ == conn_str@,
{
    if protocol_supported(conn_str) {
        Ok(())
    } else {
        Err(Error::ProtocolNotSupported(conn_str.to_owned()))
    }
}

/// Decodes hexadecimal namespace text into a version-0 namespace.
pub fn namespace_from_hex(namespace_hex: &str) -> (r: Result<Namespace, DataAvailabilityError>)
    ensures
        r is Ok <==> namespace_hex_valid(namespace_hex.spec_bytes()),
        r matches Err(e) ==> e is InitializationError,
{
    match decode_hex(namespace_hex) {
        None => Err(DataAvailabilityError::InitializationError("Hex decoding failed".to_owned())),
        Some(bytes) => match namespace_v0(bytes.as_slice()) {
            Some(ns) => Ok(ns),
            None => Err(DataAvailabilityError::InitializationError("Namespace creation failed".to_owned())),
        },
    }
}

/// What a backend needs before it opens any connection: a connection string
/// with a supported scheme, and the namespace its payloads are published under.
pub struct ConnectionSettings {
    pub connection_string: String,
    pub namespace_id: Namespace,
}

impl ConnectionSettings {
    /// Validates the connection string, then the namespace, with no network
    /// I/O: a bad scheme gives `ProtocolNotSupported`, bad namespace text
    /// `InitializationError`.
    pub fn new(connection_string: &str, namespace_hex: &str) -> (r: Result<ConnectionSettings, DataAvailabilityError>)
        ensures
            r is Ok <==> scheme_supported(connection_string@) && namespace_hex_valid(namespace_hex.spec_bytes()),
            r matches Ok(s) ==> s.connection_string@ == connection_string@,
            r matches Err(e) ==> if scheme_supported(connection_string@) {
                e is InitializationError
            } else {
                e is ProtocolNotSupported
            },
    {
        if !protocol_supported(connection_string) {
            return Err(DataAvailabilityError::ProtocolNotSupported(connection_string.to_owned()));
        }
        let namespace_id = namespace_from_hex(namespace_hex)?;
        Ok(ConnectionSettings { connection_string: connection_string.to_owned(), namespace_id })
    }
}

} // verus!
