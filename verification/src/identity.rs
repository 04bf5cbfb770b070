//! The node's cryptographic identity.
use vstd::prelude::*;

verus! {

/// The outside type `libp2p::identity::Keypair`: carried through, never looked into.
#[verifier::external_type_specification]
#[verifier::external_body]
pub struct ExKeypair(libp2p::identity::Keypair);

/// The outside type `libp2p::identity::PeerId`: carried through, never looked into.
#[verifier::external_type_specification]
#[verifier::external_body]
pub struct ExPeerId(libp2p::identity::PeerId);

/// The public identifier that belongs to a key pair.
pub uninterp spec fn public_identifier(keypair: libp2p::identity::Keypair) -> libp2p::identity::PeerId;

/// Calls `Keypair::generate_ed25519`, which draws a fresh key pair from the
/// system's random source. Nothing is claimed of the key that comes back.
#[verifier::external_body]
fn generate_keypair() -> (keypair: libp2p::identity::Keypair) {
    libp2p::identity::Keypair::generate_ed25519()
}

/// Calls `Keypair::public` and `PublicKey::to_peer_id`: the identifier is the
/// hash of the encoded public key, so it depends on the key pair alone.
#[verifier::external_body]
fn derive_peer_id(keypair: &libp2p::identity::Keypair) -> (peer: libp2p::identity::PeerId)
    ensures
        peer == public_identifier(*keypair),
{
    keypair.public().to_peer_id()
}

/// A key pair together with the public identifier derived from it.
#[derive(Debug)]
pub struct NodeIdentity {
    keypair: libp2p::identity::Keypair,
    peer_id: libp2p::identity::PeerId,
}

impl NodeIdentity {
    /// The secret key pair, in contracts.
    pub closed spec fn spec_keypair(&self) -> libp2p::identity::Keypair {
        self.keypair
    }

    /// The public identifier, in contracts.
    pub closed spec fn spec_peer_id(&self) -> libp2p::identity::PeerId {
        self.peer_id
    }

    /// The identifier is the one that belongs to the key pair.
    pub open spec fn well_formed(&self) -> bool {
        self.spec_peer_id() == public_identifier(self.spec_keypair())
    }

    /// The identity of a node: the key pair that was handed in, or a fresh
    /// one where none was. Either way the identifier is derived from it.
    pub fn create(existing: Option<libp2p::identity::Keypair>) -> (identity: NodeIdentity)
        ensures
            identity.well_formed(),
            existing matches Some(k) ==> identity.spec_keypair() == k,
    {
        let keypair = match existing {
            Some(k) => k,
            None => generate_keypair(),
        };
        let peer_id = derive_peer_id(&keypair);
        NodeIdentity { keypair, peer_id }
    }

    /// The secret key pair.
    pub fn keypair(&self) -> (keypair: &libp2p::identity::Keypair)
        ensures
            *keypair == self.spec_keypair(),
    {
        &self.keypair
    }

    /// The public identifier.
    pub fn peer_id(&self) -> (peer: &libp2p::identity::PeerId)
        ensures
            *peer == self.spec_peer_id(),
    {
        &self.peer_id
    }
}

} // verus!
