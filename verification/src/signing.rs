//! The canonical signing protocol: a mutating request carries a signature
//! field; the signature is computed over the request serialized with that
//! field cleared, so signer and verifier agree on exactly which bytes are
//! covered.  The key operation itself is the cryptography collaborator's.

use vstd::prelude::*;

use crate::Error;
use helium_crypto::Sign;

verus! {

/// Declares helium_crypto::Keypair so signatures of this module can carry
/// it.  The keypair is opaque here: the library only ever hands it to the
/// signing operation, never reads it.
#[verifier::external_type_specification]
#[verifier::external_body]
pub struct ExKeypair(helium_crypto::Keypair);

/// Relies on helium_crypto::Sign::sign (via the Keypair impl): computes an
/// asymmetric signature over `msg` with the keypair's private key, and fails
/// only if the underlying key operation fails.  Nothing is assumed about the
/// signature bytes themselves.
#[verifier::external_body]
pub(crate) fn crypto_sign(keypair: &helium_crypto::Keypair, msg: &[u8]) -> (r: Result<
    Vec<u8>,
    String,
>) {
    keypair.sign(msg).map_err(|e| e.to_string())
}

/// A structured request that carries a mutable signature field beside its
/// payload.  The view-level operations pin down what the signature field is
/// and what the deterministic serialization produces; `lemma_signature_field`
/// obliges every implementation to treat the field as exactly a field.
pub trait MsgSign: View + Sized {
    /// The signature bytes a message in state `v` carries.
    spec fn spec_signature(v: Self::V) -> Seq<u8>;

    /// State `v` with its signature field replaced by `sig`, nothing else
    /// changed.
    spec fn spec_with_signature(v: Self::V, sig: Seq<u8>) -> Self::V;

    /// The deterministic wire form of a message in state `v`.
    spec fn spec_encoding(v: Self::V) -> Seq<u8>;

    /// The signature field is a field: writing it twice keeps the last value,
    /// writing then reading gives back what was written, and the payload --
    /// hence the serialization of the cleared message -- is untouched.
    proof fn lemma_signature_field(v: Self::V, s1: Seq<u8>, s2: Seq<u8>)
        ensures
            Self::spec_with_signature(Self::spec_with_signature(v, s1), s2)
                == Self::spec_with_signature(v, s2),
            Self::spec_signature(Self::spec_with_signature(v, s1)) == s1,
    ;

    /// Serialize with the signature field cleared: exactly the bytes a
    /// signature of this message covers.
    fn canonical_bytes(&self) -> (r: Vec<u8>)
        ensures
            r@ == Self::spec_encoding(Self::spec_with_signature(self@, Seq::empty())),
    ;

    /// Write a computed signature into the message.
    fn set_signature(&mut self, sig: Vec<u8>)
        ensures
            final(self)@ == Self::spec_with_signature(old(self)@, sig@),
    ;

    /// Canonicalize and sign: the signature is computed over
    /// `spec_canonical` of the message, never over the signature field.
    fn sign(&self, keypair: &helium_crypto::Keypair) -> (r: Result<Vec<u8>, Error>)
        ensures
            r matches Err(e) ==> e is Signing,
    ;
}

/// The canonical bytes of a message in state `v`: its serialization with the
/// signature field cleared.
pub open spec fn spec_canonical<T: MsgSign>(v: T::V) -> Seq<u8> {
    T::spec_encoding(T::spec_with_signature(v, Seq::empty()))
}

/// What a signature covers does not depend on the signature bytes the message
/// happened to carry: a message and the same message with any signature
/// written into it have the same canonical bytes.  So zeroing the signature
/// field of a signed message and re-serializing reproduces exactly the bytes
/// that were signed.
pub proof fn lemma_canonical_ignores_signature<T: MsgSign>(v: T::V, sig: Seq<u8>)
    ensures
        spec_canonical::<T>(T::spec_with_signature(v, sig)) == spec_canonical::<T>(v),
{
    T::lemma_signature_field(v, sig, Seq::empty());
}

/// The outcome of signing a batch element by element: the signed requests in
/// input order, and for each element that could not be signed, its position
/// among the inputs together with the failure.  Nothing is silently dropped:
/// every input is accounted for on one of the two sides.
pub struct BatchSignOutcome<R> {
    pub succeeded: Vec<R>,
    pub failed: Vec<(usize, Error)>,
}

/// The successfully signed requests of a per-element result list, in order.
pub open spec fn batch_oks<R>(results: Seq<Result<R, Error>>) -> Seq<R>
    decreases results.len(),
{
    if results.len() == 0 {
        Seq::empty()
    } else {
        let prefix = batch_oks(results.drop_last());
        match results.last() {
            Ok(m) => prefix.push(m),
            Err(_) => prefix,
        }
    }
}

/// Split a per-element result list into the partial-failure report: the
/// signed requests in order, and each failed element's input position with
/// its error, positions strictly ascending.
pub fn split_outcome<R>(results: Vec<Result<R, Error>>) -> (r: BatchSignOutcome<R>)
    ensures
        r.succeeded@ == batch_oks(results@),
        r.succeeded@.len() + r.failed@.len() == results@.len(),
        forall|k: int| 0 <= k < r.failed@.len()
            ==> (#[trigger] r.failed@[k]).0 < results@.len()
                && (results@[r.failed@[k].0 as int] matches Err(e) && e == r.failed@[k].1),
        forall|k1: int, k2: int| 0 <= k1 < k2 < r.failed@.len()
            ==> (#[trigger] r.failed@[k1]).0 < (#[trigger] r.failed@[k2]).0,
{
    let ghost orig: Seq<Result<R, Error>> = results@;
    let total = results.len();
    let mut rest = results;
    let mut succeeded: Vec<R> = Vec::new();
    let mut failed: Vec<(usize, Error)> = Vec::new();
    let mut idx: usize = 0;
    proof {
        assert(orig.take(0) =~= Seq::<Result<R, Error>>::empty());
    }
    while rest.len() > 0
        invariant
            orig.len() == total,
            rest@ =~= orig.skip(idx as int),
            0 <= idx <= total,
            succeeded@ == batch_oks(orig.take(idx as int)),
            succeeded@.len() + failed@.len() == idx,
            forall|k: int| 0 <= k < failed@.len()
                ==> (#[trigger] failed@[k]).0 < idx
                    && (orig[failed@[k].0 as int] matches Err(e) && e == failed@[k].1),
            forall|k1: int, k2: int| 0 <= k1 < k2 < failed@.len()
                ==> (#[trigger] failed@[k1]).0 < (#[trigger] failed@[k2]).0,
        decreases rest@.len(),
    {
        let item = rest.remove(0);
        proof {
            assert(item == orig[idx as int]);
            assert(orig.take(idx + 1).drop_last() =~= orig.take(idx as int));
            assert(orig.take(idx + 1).last() == orig[idx as int]);
        }
        match item {
            Ok(m) => {
                succeeded.push(m);
            }
            Err(e) => {
                failed.push((idx, e));
            }
        }
        idx = idx + 1;
        proof {
            assert(rest@ =~= orig.skip(idx as int));
        }
    }
    proof {
        assert(orig.take(orig.len() as int) =~= orig);
    }
    BatchSignOutcome { succeeded, failed }
}

/// Canonicalize `msg` and sign the canonical bytes with `keypair`.
pub fn sign_msg<T: MsgSign>(msg: &T, keypair: &helium_crypto::Keypair) -> (r: Result<
    Vec<u8>,
    Error,
>)
    ensures
        r matches Err(e) ==> e is Signing,
{
    let bytes = msg.canonical_bytes();
    match crypto_sign(keypair, bytes.as_slice()) {
        Ok(sig) => Ok(sig),
        Err(text) => Err(Error::Signing(text)),
    }
}

/// Sign `msg` and hand it back carrying its fresh signature: the result is
/// the input with only the signature field changed.
pub fn signed<T: MsgSign>(msg: T, keypair: &helium_crypto::Keypair) -> (r: Result<T, Error>)
    ensures
        r matches Ok(m) ==> m@ == T::spec_with_signature(msg@, T::spec_signature(m@)),
        r matches Err(e) ==> e is Signing,
{
    let mut m = msg;
    match sign_msg(&m, keypair) {
        Ok(sig) => {
            proof {
                T::lemma_signature_field(m@, sig@, sig@);
            }
            m.set_signature(sig);
            Ok(m)
        }
        Err(e) => Err(e),
    }
}

} // verus!
