use vstd::prelude::*;

use solana_sdk::signature::Signer;

verus! {

/// A fixed-length public identifier naming a program or account on the
/// ledger. The 32-byte representation is held directly, so every value of
/// the type is the right length by construction.
#[derive(Clone, Copy, Debug)]
pub struct Identity {
    pub bytes: [u8; 32],
}

impl View for Identity {
    type V = Seq<u8>;

    open spec fn view(&self) -> Seq<u8> {
        self.bytes@
    }
}

impl Identity {
    /// Wrap caller-supplied identity bytes. This is the injection seam for
    /// production deployments that bring their own identity instead of a
    /// freshly generated one.
    pub fn from_bytes(bytes: [u8; 32]) -> (r: Identity)
        ensures
            r@ == bytes@,
    {
        Identity { bytes }
    }
}

impl PartialEq for Identity {
    fn eq(&self, other: &Identity) -> (r: bool) {
        let mut i: usize = 0;
        while i < 32
            invariant
                0 <= i <= 32,
                forall|j: int| 0 <= j < i ==> self.bytes@[j] == other.bytes@[j],
            decreases 32 - i,
        {
            if self.bytes[i] != other.bytes[i] {
                return false;
            }
            i = i + 1;
        }
        assert(self.bytes@ =~= other.bytes@);
        true
    }
}

impl Eq for Identity {

}

impl vstd::std_specs::cmp::PartialEqSpecImpl for Identity {
    open spec fn obeys_eq_spec() -> bool {
        true
    }

    open spec fn eq_spec(&self, other: &Identity) -> bool {
        self.bytes@ == other.bytes@
    }
}

/// Relies on solana_sdk's Keypair::new and Signer::pubkey: a fresh random
/// ed25519 keypair's 32-byte public key. The value is random, so nothing is
/// assumed about it beyond its presence.
#[verifier::external_body]
fn random_identity_bytes() -> (r: [u8; 32]) {
    solana_sdk::signature::Keypair::new().pubkey().to_bytes()
}

/// Generate a fresh identity for a newly built artifact: a stand-in for a
/// caller-supplied identity. No two calls are related, so nothing holds of
/// the value beyond what the type gives.
pub fn fresh_identity() -> (r: Identity) {
    Identity { bytes: random_identity_bytes() }
}

} // verus!
