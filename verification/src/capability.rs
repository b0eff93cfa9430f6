//! The capability contract: the operation set a symmetric cipher must expose
//! to be usable through the opaque handle.
//!
//! The contract is deliberately minimal. It fixes the shape of the four
//! operations and the little that every algorithm must honour; key-length
//! rules, output-sizing rules and the transformation itself are left to each
//! implementation, which describes them through the spec functions below.
use vstd::prelude::*;

verus! {

/// The operations every concrete cipher must provide, together with the
/// abstract model an implementation exposes to the verifier.
///
/// The model is six spec functions over the instance's current state. An
/// implementation is free to keep whatever internal state it likes (key
/// schedules, counters, scratch buffers); callers reason only about the model.
///
/// Policy choices this contract fixes, where a cipher family could reasonably
/// differ, so that every implementation behaves alike:
/// - `accepts_key` and `output_fits` are algorithm properties, not state:
///   every operation leaves both unchanged, so a caller that keyed an
///   instance once can key it again and size later buffers.
/// - `initialize_context` may be called at any time and any number of times;
///   it never requires a key and never discards an installed one.
/// - `set_key` and the two transformations preserve readiness.
/// - `encrypt` and `decrypt` fill the whole output buffer; the buffer must be
///   sized exactly as the algorithm's sizing rule (`output_fits`) demands.
///
/// The `Send + Sync` bound is the concurrency contract: a handle may be moved
/// to, or shared read-only with, another thread, so the instance it owns must
/// itself be safe to move and to reference across threads. Every mutating
/// operation takes `&mut self`, so exclusive access to a handle is demanded
/// by the type system rather than by documentation; no internal locking is
/// provided or needed.
pub trait Encryption: Send + Sync {
    /// Whether the context has been prepared by `initialize_context`.
    spec fn ready(&self) -> bool;

    /// The key material currently installed, if any.
    spec fn key(&self) -> Option<Seq<u8>>;

    /// Which key material the algorithm accepts (its own length rule).
    spec fn accepts_key(&self, key: Seq<u8>) -> bool;

    /// The algorithm's output-sizing rule: whether a buffer of
    /// `output_len` bytes receives the result for `input_len` input bytes.
    spec fn output_fits(&self, input_len: nat, output_len: nat) -> bool;

    /// The ciphertext the instance, in its current state, produces from
    /// `plain`. Meaningful only while a key is installed.
    spec fn ciphertext(&self, plain: Seq<u8>) -> Seq<u8>;

    /// The plaintext the instance, in its current state, recovers from
    /// `cipher`. Meaningful only while a key is installed.
    spec fn plaintext(&self, cipher: Seq<u8>) -> Seq<u8>;

    /// Prepares internal state so the instance is ready to accept a key and
    /// perform transformations. Idempotent; an installed key survives.
    fn initialize_context(&mut self)
        ensures
            final(self).ready(),
            final(self).key() == old(self).key(),
            forall|k: Seq<u8>| #[trigger] final(self).accepts_key(k) == old(self).accepts_key(k),
            forall|i: nat, o: nat|
                #[trigger] final(self).output_fits(i, o) == old(self).output_fits(i, o),
    ;

    /// Installs `key`, replacing any previously installed key. Each
    /// implementation validates its own length requirement through
    /// `accepts_key`.
    fn set_key(&mut self, key: &[u8])
        requires
            old(self).accepts_key(key@),
        ensures
            final(self).key() == Some(key@),
            final(self).ready() == old(self).ready(),
            forall|k: Seq<u8>| #[trigger] final(self).accepts_key(k) == old(self).accepts_key(k),
            forall|i: nat, o: nat|
                #[trigger] final(self).output_fits(i, o) == old(self).output_fits(i, o),
    ;

    /// Writes into `output` the ciphertext for `input`; `input` is read only.
    /// A key must have been installed and `output` must be sized to receive
    /// the result. The installed key is still in use afterwards.
    fn encrypt(&mut self, input: &[u8], output: &mut [u8])
        requires
            old(self).key() is Some,
            old(self).output_fits(input@.len(), old(output)@.len()),
        ensures
            final(output)@ == old(self).ciphertext(input@),
            final(self).key() == old(self).key(),
            final(self).ready() == old(self).ready(),
            forall|k: Seq<u8>| #[trigger] final(self).accepts_key(k) == old(self).accepts_key(k),
            forall|i: nat, o: nat|
                #[trigger] final(self).output_fits(i, o) == old(self).output_fits(i, o),
    ;

    /// Inverse companion of `encrypt`: writes into `output` the plaintext
    /// recovered from `input`, under the same preconditions.
    fn decrypt(&mut self, input: &[u8], output: &mut [u8])
        requires
            old(self).key() is Some,
            old(self).output_fits(input@.len(), old(output)@.len()),
        ensures
            final(output)@ == old(self).plaintext(input@),
            final(self).key() == old(self).key(),
            final(self).ready() == old(self).ready(),
            forall|k: Seq<u8>| #[trigger] final(self).accepts_key(k) == old(self).accepts_key(k),
            forall|i: nat, o: nat|
                #[trigger] final(self).output_fits(i, o) == old(self).output_fits(i, o),
    ;
}

} // verus!
