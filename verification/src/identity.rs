use libp2p::identity::DecodingError;
use libp2p::identity::Keypair;
use vstd::prelude::*;

verus! {

#[verifier::external_type_specification]
#[verifier::external_body]
pub struct ExKeypair(Keypair);

#[verifier::external_type_specification]
#[verifier::external_body]
pub struct ExDecodingError(DecodingError);

/// Where a node keypair came from.
pub enum KeySource {
    /// Decoded by `Keypair::from_protobuf_encoding` from these bytes.
    Protobuf(Seq<u8>),
    /// Drawn fresh by `Keypair::generate_ed25519`.
    FreshEd25519,
}

/// A node keypair together with what it was made from. Only the two functions
/// below make one, so its source is always the one they record; the encoded bytes are
/// recorded as ghost state only, so no copy of the private key is kept.
pub struct NodeKeypair {
    keypair: Keypair,
    generated: bool,
    encoded: Ghost<Seq<u8>>,
    generated_id: Ghost<Seq<char>>,
}

impl NodeKeypair {
    /// What the keypair was made from.
    pub closed spec fn source(&self) -> KeySource {
        if self.generated {
            KeySource::FreshEd25519
        } else {
            KeySource::Protobuf(self.encoded@)
        }
    }

    /// The base58 text of the peer id of this keypair's own public key: for a decoded
    /// keypair the one named for its bytes, for a fresh one the id recorded when it was
    /// drawn.
    pub closed spec fn peer_id_of(&self) -> Seq<char> {
        if self.generated {
            self.generated_id@
        } else {
            protobuf_peer_id_text(self.encoded@)
        }
    }

    /// Whether the keypair was drawn fresh.
    pub fn is_generated(&self) -> (b: bool)
        ensures
            b == (self.source() is FreshEd25519),
    {
        self.generated
    }

    /// The base58 text of the keypair's own peer id; for a decoded keypair it depends on
    /// the decoded bytes alone.
    pub fn peer_id(&self) -> (id: String)
        ensures
            id@ == self.peer_id_of(),
            self.source() matches KeySource::Protobuf(bytes) ==> id@ == protobuf_peer_id_text(bytes),
    {
        peer_id_text(self)
    }

    /// The libp2p keypair.
    pub fn keypair(&self) -> &Keypair {
        &self.keypair
    }

    /// The libp2p keypair, for building the swarm.
    pub fn into_keypair(self) -> Keypair {
        self.keypair
    }
}

/// Whether `Keypair::from_protobuf_encoding` accepts these bytes.
pub uninterp spec fn protobuf_keypair_accepted(bytes: Seq<u8>) -> bool;

/// The base58 text of the peer id of the keypair that `Keypair::from_protobuf_encoding`
/// decodes from these bytes.
pub uninterp spec fn protobuf_peer_id_text(bytes: Seq<u8>) -> Seq<char>;

/// Calls `libp2p::identity::Keypair::from_protobuf_encoding`. Trusted: it succeeds
/// exactly on the bytes that `protobuf_keypair_accepted` names, and the keypair is
/// recorded as decoded from those bytes.
#[verifier::external_body]
pub(crate) fn keypair_from_protobuf(bytes: &[u8]) -> (r: Result<NodeKeypair, DecodingError>)
    ensures
        r is Ok == protobuf_keypair_accepted(bytes@),
        r matches Ok(k) ==> k.source() == KeySource::Protobuf(bytes@),
{
    Keypair::from_protobuf_encoding(bytes).map(|keypair| NodeKeypair { keypair, generated: false, encoded: Ghost(bytes@), generated_id: Ghost(Seq::empty()) })
}

/// Calls `libp2p::identity::Keypair::generate_ed25519`, which draws a fresh random
/// ed25519 key, and records the base58 text of its peer id (`PeerId::to_base58` of its
/// public key's peer id) beside it; the key is recorded as drawn fresh, and nothing is
/// stated of its value.
#[verifier::external_body]
pub(crate) fn generate_ed25519_keypair() -> (k: NodeKeypair)
    ensures
        k.source() == KeySource::FreshEd25519,
{
    let keypair = Keypair::generate_ed25519();
    let id = keypair.public().to_peer_id().to_base58();
    NodeKeypair { keypair, generated: true, encoded: Ghost(Seq::empty()), generated_id: Ghost(id@) }
}

/// Calls `PeerId::to_base58` on the peer id of the keypair's public key. Trusted: the
/// peer id of a decoded keypair is a function of the bytes it was decoded from, named by
/// `protobuf_peer_id_text`; that of a fresh key is the one recorded when it was drawn,
/// computed the same way from the same key.
#[verifier::external_body]
fn peer_id_text(k: &NodeKeypair) -> (id: String)
    ensures
        id@ == k.peer_id_of(),
        k.source() matches KeySource::Protobuf(bytes) ==> id@ == protobuf_peer_id_text(bytes),
{
    k.keypair.public().to_peer_id().to_base58()
}

/// Every keypair reports its own peer id: a decoded one the id named for the bytes it
/// was decoded from (so one configured key gives one peer id), a fresh one the id
/// recorded from that very key, whatever other keys are drawn.
pub proof fn law_peer_id_is_own(k: NodeKeypair, other: NodeKeypair)
    ensures
        k.source() matches KeySource::Protobuf(bytes) ==> k.peer_id_of() == protobuf_peer_id_text(bytes),
        (k.source() matches KeySource::Protobuf(a) && other.source() matches KeySource::Protobuf(b) && a == b)
            ==> k.peer_id_of() == other.peer_id_of(),
{
}

} // verus!
