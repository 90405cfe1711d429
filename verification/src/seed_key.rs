use vstd::prelude::*;
use vstd::string::StringSliceAdditionalSpecFns;

use crate::identity::generate_ed25519_keypair;
use crate::identity::keypair_from_protobuf;
use crate::identity::protobuf_keypair_accepted;
use crate::identity::KeySource;
use crate::identity::NodeKeypair;

verus! {

/// Why a hex string could not be decoded; the variants of `hex::FromHexError`.
#[derive(Debug, PartialEq, Eq, Structural, Clone, Copy)]
pub enum HexError {
    /// The byte at `index` is not one of `0-9`, `a-f`, `A-F`; `c` is that byte as a char.
    InvalidHexCharacter { c: char, index: usize },
    /// The number of digits is odd.
    OddLength,
    /// The decoded length does not fit the target.
    InvalidStringLength,
}

/// The value of a hex digit byte, if it is one.
pub open spec fn hex_digit_value(b: u8) -> Option<u8> {
    if 48 <= b <= 57 {
        Some((b - 48) as u8)
    } else if 97 <= b <= 102 {
        Some((b - 87) as u8)
    } else if 65 <= b <= 70 {
        Some((b - 55) as u8)
    } else {
        None
    }
}

/// The first position at or after `i` whose byte is not a hex digit.
pub open spec fn first_non_hex_from(h: Seq<u8>, i: nat) -> Option<nat>
    decreases h.len() - i,
{
    if i >= h.len() {
        None
    } else if hex_digit_value(h[i as int]) is None {
        Some(i)
    } else {
        first_non_hex_from(h, i + 1)
    }
}

/// The byte that the two hex digits at `2 * k` and `2 * k + 1` spell.
pub open spec fn hex_pair_byte(h: Seq<u8>, k: int) -> u8 {
    (hex_digit_value(h[2 * k]).unwrap() * 16 + hex_digit_value(h[2 * k + 1]).unwrap()) as u8
}

/// What decoding the hex digits `h` gives: an error for an odd count, else the first
/// byte that is no hex digit, else one byte for each pair of digits.
pub open spec fn hex_decode_spec(h: Seq<u8>) -> Result<Seq<u8>, HexError> {
    if h.len() % 2 != 0 {
        Err(HexError::OddLength)
    } else {
        match first_non_hex_from(h, 0) {
            Some(i) => Err(HexError::InvalidHexCharacter { c: (h[i as int] as u32) as char, index: i as usize }),
            None => Ok(Seq::new(h.len() / 2, |k: int| hex_pair_byte(h, k))),
        }
    }
}

/// Calls `hex::decode`. Trusted: its result is `hex_decode_spec` of the input bytes
/// (odd length first, then the first non-digit, then pairs of digits, high first),
/// as the crate's source computes it.
#[verifier::external_body]
fn hex_decode(data: &[u8]) -> (r: Result<Vec<u8>, HexError>)
    ensures
        match r {
            Ok(v) => hex_decode_spec(data@) == Ok::<Seq<u8>, HexError>(v@),
            Err(e) => hex_decode_spec(data@) == Err::<Seq<u8>, HexError>(e),
        },
{
    match hex::decode(data) {
        Ok(v) => Ok(v),
        Err(hex::FromHexError::InvalidHexCharacter { c, index }) => Err(HexError::InvalidHexCharacter { c, index }),
        Err(hex::FromHexError::OddLength) => Err(HexError::OddLength),
        Err(hex::FromHexError::InvalidStringLength) => Err(HexError::InvalidStringLength),
    }
}

/// Why a configured seed key was refused.
#[derive(Debug, PartialEq, Eq, Structural, Clone, Copy)]
pub enum SeedKeyError {
    /// The configured text is not hex.
    Hex(HexError),
    /// The decoded bytes are not a protobuf-encoded private key.
    Protobuf,
}

/// The bytes of the configured text, if a text is configured.
pub open spec fn configured_bytes(configured: Option<&str>) -> Option<Seq<u8>> {
    match configured {
        Some(s) => Some(s.spec_bytes()),
        None => None,
    }
}

/// Whether a seed key can be had from the configured text: always when nothing is
/// configured, else when the text is hex of a protobuf-encoded private key.
pub open spec fn seed_key_loadable(configured: Option<Seq<u8>>) -> bool {
    match configured {
        None => true,
        Some(h) => match hex_decode_spec(h) {
            Ok(bytes) => protobuf_keypair_accepted(bytes),
            Err(_) => false,
        },
    }
}

/// The source of the seed key for a configured text: the bytes the hex text spells,
/// or a fresh ed25519 key when nothing is configured.
pub open spec fn seed_key_source(configured: Option<Seq<u8>>) -> KeySource {
    match configured {
        None => KeySource::FreshEd25519,
        Some(h) => KeySource::Protobuf(hex_decode_spec(h)->Ok_0),
    }
}

/// What trying to load the seed key gives for a configured text: the hex error, or the
/// protobuf refusal, or the key's source.
pub open spec fn seed_key_outcome(configured: Option<Seq<u8>>) -> Result<KeySource, SeedKeyError> {
    match configured {
        None => Ok(KeySource::FreshEd25519),
        Some(h) => match hex_decode_spec(h) {
            Err(e) => Err(SeedKeyError::Hex(e)),
            Ok(bytes) => if protobuf_keypair_accepted(bytes) {
                Ok(KeySource::Protobuf(bytes))
            } else {
                Err(SeedKeyError::Protobuf)
            },
        },
    }
}

/// Loads the seed node's keypair from the configured hex-encoded protobuf private key,
/// or generates a fresh ed25519 keypair when none is configured. The configured text
/// must be hex of a protobuf-encoded private key; `try_load_or_gen_keypair` checks it.
pub fn load_or_gen_keypair(configured: Option<&str>) -> (k: NodeKeypair)
    requires
        seed_key_loadable(configured_bytes(configured)),
    ensures
        k.source() == seed_key_source(configured_bytes(configured)),
{
    match configured {
        None => generate_ed25519_keypair(),
        Some(text) => match hex_decode(text.as_bytes()) {
            Ok(bytes) => match keypair_from_protobuf(bytes.as_slice()) {
                Ok(k) => k,
                Err(_) => vstd::pervasive::unreached(),
            },
            Err(_) => vstd::pervasive::unreached(),
        },
    }
}

/// Loads the seed key as `load_or_gen_keypair` does when the configured text gives one,
/// and otherwise says why it cannot; each text is decoded once.
pub fn try_load_or_gen_keypair(configured: Option<&str>) -> (r: Result<NodeKeypair, SeedKeyError>)
    ensures
        match (r, seed_key_outcome(configured_bytes(configured))) {
            (Ok(k), Ok(expected)) => k.source() == expected,
            (Err(e), Err(expected)) => e == expected,
            _ => false,
        },
{
    match configured {
        None => Ok(load_or_gen_keypair(None)),
        Some(text) => {
            let bytes = match hex_decode(text.as_bytes()) {
                Ok(b) => b,
                Err(e) => {
                    return Err(SeedKeyError::Hex(e));
                },
            };
            match keypair_from_protobuf(bytes.as_slice()) {
                Ok(k) => Ok(k),
                Err(_) => Err(SeedKeyError::Protobuf),
            }
        },
    }
}

/// The lower-case hex digit for a value below sixteen.
pub open spec fn hex_digit_lower(n: u8) -> u8 {
    if n < 10 {
        (48 + n) as u8
    } else {
        (87 + n) as u8
    }
}

/// The lower-case hex text of `bytes`, two digits per byte, high digit first.
pub open spec fn hex_encode_lower(bytes: Seq<u8>) -> Seq<u8> {
    Seq::new(
        2 * bytes.len(),
        |i: int|
            if i % 2 == 0 {
                hex_digit_lower(bytes[i / 2] / 16)
            } else {
                hex_digit_lower(bytes[i / 2] % 16)
            },
    )
}

proof fn lemma_no_non_hex_from(h: Seq<u8>, i: nat)
    requires
        forall|j: int| i <= j < h.len() ==> hex_digit_value(#[trigger] h[j]) is Some,
    ensures
        first_non_hex_from(h, i) is None,
    decreases h.len() - i,
{
    if i < h.len() {
        lemma_no_non_hex_from(h, i + 1);
    }
}

/// Any private key written out in hex decodes back to the same bytes.
pub proof fn law_hex_round_trip(bytes: Seq<u8>)
    ensures
        hex_decode_spec(hex_encode_lower(bytes)) == Ok::<Seq<u8>, HexError>(bytes),
{
    let h = hex_encode_lower(bytes);
    assert(h.len() % 2 == 0);
    assert forall|j: int| 0 <= j < h.len() implies hex_digit_value(#[trigger] h[j]) is Some by {
        let n = if j % 2 == 0 { bytes[j / 2] / 16 } else { bytes[j / 2] % 16 };
        assert(n < 16);
        assert(h[j] == hex_digit_lower(n));
    }
    lemma_no_non_hex_from(h, 0);
    let decoded = Seq::new(h.len() / 2, |k: int| hex_pair_byte(h, k));
    assert forall|k: int| 0 <= k < bytes.len() implies decoded[k] == bytes[k] by {
        let b = bytes[k];
        assert((2 * k) % 2 == 0 && (2 * k) / 2 == k);
        assert((2 * k + 1) % 2 == 1 && (2 * k + 1) / 2 == k);
        assert(h[2 * k] == hex_digit_lower(b / 16));
        assert(h[2 * k + 1] == hex_digit_lower(b % 16));
        assert(hex_digit_value(hex_digit_lower(b / 16)) == Some((b / 16) as u8));
        assert(hex_digit_value(hex_digit_lower(b % 16)) == Some((b % 16) as u8));
        assert(b == (b / 16) * 16 + b % 16);
    }
    assert(decoded =~= bytes);
}

/// The ASCII upper-case form of a byte.
pub open spec fn ascii_upper(b: u8) -> u8 {
    if 97 <= b <= 122 {
        (b - 32) as u8
    } else {
        b
    }
}

proof fn lemma_upper_first_non_hex(h: Seq<u8>, i: nat)
    ensures
        first_non_hex_from(h.map_values(|b: u8| ascii_upper(b)), i) == first_non_hex_from(h, i),
    decreases h.len() - i,
{
    let u = h.map_values(|b: u8| ascii_upper(b));
    if i < h.len() {
        assert(u[i as int] == ascii_upper(h[i as int]));
        lemma_upper_first_non_hex(h, i + 1);
    }
}

/// Hex digits are read without regard to case: a text and its upper-case form decode to
/// the same bytes, or fail in the same way at the same position.
pub proof fn law_hex_case_insensitive(h: Seq<u8>)
    ensures
        ({
            let u = h.map_values(|b: u8| ascii_upper(b));
            match (hex_decode_spec(h), hex_decode_spec(u)) {
                (Ok(a), Ok(b)) => a == b,
                (Err(HexError::OddLength), Err(HexError::OddLength)) => true,
                (Err(HexError::InvalidHexCharacter { index: i, .. }), Err(HexError::InvalidHexCharacter { index: j, .. })) => i == j,
                _ => false,
            }
        }),
{
    let u = h.map_values(|b: u8| ascii_upper(b));
    lemma_upper_first_non_hex(h, 0);
    if h.len() % 2 == 0 && first_non_hex_from(h, 0) is None {
        lemma_all_hex_from_none(h, 0);
        let a = Seq::new(h.len() / 2, |k: int| hex_pair_byte(h, k));
        let b = Seq::new(u.len() / 2, |k: int| hex_pair_byte(u, k));
        assert forall|k: int| 0 <= k < a.len() implies a[k] == b[k] by {
            assert(hex_digit_value(h[2 * k]) is Some);
            assert(hex_digit_value(h[2 * k + 1]) is Some);
            assert(u[2 * k] == ascii_upper(h[2 * k]));
            assert(u[2 * k + 1] == ascii_upper(h[2 * k + 1]));
        }
        assert(a =~= b);
    }
}

proof fn lemma_all_hex_from_none(h: Seq<u8>, i: nat)
    requires
        first_non_hex_from(h, i) is None,
    ensures
        forall|j: int| i <= j < h.len() ==> hex_digit_value(#[trigger] h[j]) is Some,
    decreases h.len() - i,
{
    if i < h.len() {
        lemma_all_hex_from_none(h, i + 1);
    }
}

/// A key written out as hex of its protobuf encoding, in either case, loads back as the
/// key decoded from that encoding; so a node configured with one text gets the same key,
/// and the same peer id, on every start.
pub proof fn law_written_key_loads(encoded: Seq<u8>)
    requires
        protobuf_keypair_accepted(encoded),
    ensures
        seed_key_loadable(Some(hex_encode_lower(encoded))),
        seed_key_source(Some(hex_encode_lower(encoded))) == KeySource::Protobuf(encoded),
        seed_key_loadable(Some(hex_encode_lower(encoded).map_values(|b: u8| ascii_upper(b)))),
        seed_key_source(Some(hex_encode_lower(encoded).map_values(|b: u8| ascii_upper(b)))) == KeySource::Protobuf(encoded),
{
    law_hex_round_trip(encoded);
    law_hex_case_insensitive(hex_encode_lower(encoded));
}

/// A configured key is never replaced by a generated one: whenever a text is configured,
/// the loaded key is the one the text encodes, and otherwise loading reports why not.
pub proof fn law_configured_key_not_replaced(configured: Seq<u8>)
    ensures
        seed_key_outcome(Some(configured)) matches Ok(source) ==> source == KeySource::Protobuf(hex_decode_spec(configured)->Ok_0),
        seed_key_outcome(Some(configured)) is Ok <==> seed_key_loadable(Some(configured)),
{
}

/// The loader's domain is exactly the texts that give a key: a configured text is refused
/// as hex exactly when it is not hex, and as a key exactly when it is hex of bytes that
/// are no protobuf-encoded private key; the key is generated exactly when nothing is
/// configured. These are the texts on which the seed node stops, with the hex refusal
/// reported first.
pub proof fn law_seed_key_refusals(configured: Option<Seq<u8>>)
    ensures
        seed_key_loadable(configured) <==> seed_key_outcome(configured) is Ok,
        seed_key_loadable(configured) ==> seed_key_outcome(configured) == Ok::<KeySource, SeedKeyError>(seed_key_source(configured)),
        seed_key_loadable(configured) ==> (seed_key_source(configured) is FreshEd25519 <==> configured is None),
        configured matches Some(h) ==> (seed_key_outcome(configured) matches Err(SeedKeyError::Hex(_)) <==> hex_decode_spec(h) is Err),
        configured matches Some(h) ==> (seed_key_outcome(configured) == Err::<KeySource, SeedKeyError>(SeedKeyError::Protobuf)
            <==> (hex_decode_spec(h) is Ok && !protobuf_keypair_accepted(hex_decode_spec(h)->Ok_0))),
{
}

} // verus!
