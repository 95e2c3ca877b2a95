//! Certificate pinning.
//!
//! Trust is decided by exact byte equality against a small fixed set of
//! pinned certificates; chain validation, expiry and hostnames play no
//! part.  A presented certificate is trusted iff it is byte-for-byte
//! identical to one member of the set; otherwise it is rejected with a
//! fixed reason.

use vstd::prelude::*;
use vstd::string::*;

verus! {

/// True when `presented` is byte-identical to some member of `pinned`.
pub open spec fn trusted_spec(pinned: Seq<Seq<u8>>, presented: Seq<u8>) -> bool {
    exists|i: int| 0 <= i < pinned.len() && pinned[i] == presented
}

/// Byte-vector equality.
pub fn bytes_equal(a: &Vec<u8>, b: &Vec<u8>) -> (r: bool)
    ensures
        r == (a@ == b@),
{
    if a.len() != b.len() {
        return false;
    }
    let mut i: usize = 0;
    while i < a.len()
        invariant
            i <= a.len(),
            a@.len() == b@.len(),
            forall|j: int| 0 <= j < i ==> a@[j] == b@[j],
        decreases a.len() - i,
    {
        if a[i] != b[i] {
            return false;
        }
        i += 1;
    }
    proof {
        assert(a@ =~= b@);
    }
    true
}

/// Accepts a presented server certificate exactly when it is a member
/// of the pinned set, bypassing chain-of-trust validation entirely.
pub struct AcceptSpecificCertsVerifier {
    pub certs: Vec<Vec<u8>>,
}

impl AcceptSpecificCertsVerifier {
    /// The pinned set as raw byte sequences.
    pub open spec fn pinned(&self) -> Seq<Seq<u8>> {
        self.certs@.map_values(|c: Vec<u8>| c@)
    }

    /// Build a verifier over a pinned set.
    pub fn new(certs: Vec<Vec<u8>>) -> (r: Self)
        ensures
            r.pinned() == certs@.map_values(|c: Vec<u8>| c@),
    {
        AcceptSpecificCertsVerifier { certs }
    }

    /// Decide trust for the presented end-entity certificate: `Ok` iff
    /// it is byte-identical to a pinned certificate, otherwise a fixed
    /// rejection reason.
    pub fn verify_server_cert(&self, end_entity: &Vec<u8>) -> (r: Result<(), String>)
        ensures
            r is Ok <==> trusted_spec(self.pinned(), end_entity@),
            r matches Err(m) ==> m@ == "Unknown certificate issuer."@,
    {
        let mut i: usize = 0;
        while i < self.certs.len()
            invariant
                i <= self.certs.len(),
                forall|j: int| 0 <= j < i ==> self.certs@[j]@ != end_entity@,
            decreases self.certs.len() - i,
        {
            if bytes_equal(&self.certs[i], end_entity) {
                assert(self.pinned()[i as int] == end_entity@);
                return Ok(());
            }
            i += 1;
        }
        assert(forall|j: int| 0 <= j < self.pinned().len() ==> self.pinned()[j] != end_entity@);
        Err(String::from_str("Unknown certificate issuer."))
    }
}

/// Pinning is exact: if the sole pinned certificate differs from the
/// presented bytes at even one position, the presented certificate is
/// rejected.
pub proof fn lemma_mutation_rejected(cert: Seq<u8>, mutated: Seq<u8>, k: int)
    requires
        0 <= k < cert.len(),
        mutated.len() == cert.len(),
        mutated[k] != cert[k],
    ensures
        !trusted_spec(seq![cert], mutated),
{
    assert(seq![cert][0] == cert);
}

} // verus!
