//! The opaque handle: an owning wrapper that holds exactly one concrete
//! cipher instance behind the capability contract, hiding which kind it
//! holds from callers.
//!
//! The handle performs no cryptographic work itself: every operation is
//! forwarded unchanged to the held instance, and every contract below is the
//! capability contract's own, restated over the held instance's model. The
//! handle adds no failure modes and no validation of its own. It dispatches
//! over [`CipherKind`] rather than a trait object so that the constructor
//! can state, and Verus can prove, that wrapping loses nothing of the
//! instance's model.
use crate::capability::Encryption;
use crate::kind::CipherKind;
use crate::xor_cipher;
use vstd::prelude::*;
use vstd::string::StringExecFns;

verus! {

/// Owns exactly one concrete cipher instance for its whole lifetime; the
/// instance is fixed at construction, never swapped or shared, and destroyed
/// with the handle. Callers drive it only through the capability contract.
///
/// The handle is `Send` and `Sync` because the contract demands both of the
/// held instance. All mutating operations take `&mut self`, so two threads
/// can never drive the same handle at once: the single-owner-at-a-time
/// discipline is enforced by the type system, not merely documented.
pub struct EncryptionContext {
    context: CipherKind,
}

/// The fixed placeholder a handle renders as: it names the wrapper and a
/// stand-in for its contents, and nothing of the instance's state, so no key
/// or text material can leak through a diagnostic path.
pub open spec fn diagnostic_text() -> Seq<char> {
    "EncryptionContext { context: \"Encrypted Data\" }"@
}

impl EncryptionContext {
    /// The instance this handle owns.
    pub closed spec fn held(&self) -> CipherKind {
        self.context
    }

    /// Whether the held instance's context has been prepared.
    pub closed spec fn ready(&self) -> bool {
        self.context.ready()
    }

    /// The key material installed in the held instance, if any.
    pub closed spec fn key(&self) -> Option<Seq<u8>> {
        self.context.key()
    }

    /// Which key material the held instance accepts.
    pub closed spec fn accepts_key(&self, key: Seq<u8>) -> bool {
        self.context.accepts_key(key)
    }

    /// The held instance's output-sizing rule.
    pub closed spec fn output_fits(&self, input_len: nat, output_len: nat) -> bool {
        self.context.output_fits(input_len, output_len)
    }

    /// The ciphertext the held instance currently produces from `plain`.
    pub closed spec fn ciphertext(&self, plain: Seq<u8>) -> Seq<u8> {
        self.context.ciphertext(plain)
    }

    /// The plaintext the held instance currently recovers from `cipher`.
    pub closed spec fn plaintext(&self, cipher: Seq<u8>) -> Seq<u8> {
        self.context.plaintext(cipher)
    }

    /// Takes ownership of the given instance and wraps it. There is no
    /// failure mode: construction is total, for every instance.
    ///
    /// Wrapping is lossless: the handle holds exactly the given instance,
    /// and its whole model — readiness, installed key, key rule, sizing
    /// rule, both transformations — is the instance's own.
    pub fn new(context: CipherKind) -> (r: EncryptionContext)
        ensures
            r.held() == context,
            r.ready() == context.ready(),
            r.key() == context.key(),
            forall|k: Seq<u8>| #[trigger] r.accepts_key(k) == context.accepts_key(k),
            forall|i: nat, o: nat| #[trigger] r.output_fits(i, o) == context.output_fits(i, o),
            forall|p: Seq<u8>| #[trigger] r.ciphertext(p) == context.ciphertext(p),
            forall|s: Seq<u8>| #[trigger] r.plaintext(s) == context.plaintext(s),
    {
        EncryptionContext { context }
    }

    /// Forwards `initialize_context` to the held instance, unchanged.
    pub fn initialize_context(&mut self)
        ensures
            final(self).ready(),
            final(self).key() == old(self).key(),
            forall|k: Seq<u8>| #[trigger] final(self).accepts_key(k) == old(self).accepts_key(k),
            forall|i: nat, o: nat|
                #[trigger] final(self).output_fits(i, o) == old(self).output_fits(i, o),
    {
        self.context.initialize_context()
    }

    /// Forwards `set_key` to the held instance, unchanged.
    pub fn set_key(&mut self, key: &[u8])
        requires
            old(self).accepts_key(key@),
        ensures
            final(self).key() == Some(key@),
            final(self).ready() == old(self).ready(),
            forall|k: Seq<u8>| #[trigger] final(self).accepts_key(k) == old(self).accepts_key(k),
            forall|i: nat, o: nat|
                #[trigger] final(self).output_fits(i, o) == old(self).output_fits(i, o),
    {
        self.context.set_key(key)
    }

    /// Forwards `encrypt` to the held instance, unchanged.
    pub fn encrypt(&mut self, input: &[u8], output: &mut [u8])
        requires
            old(self).key() is Some,
            old(self).output_fits(input@.len(), old(output)@.len()),
        ensures
            final(output)@ == old(self).ciphertext(input@),
            final(self).key() == old(self).key(),
            final(self).ready() == old(self).ready(),
            forall|k: Seq<u8>| #[trigger] final(self).accepts_key(k) == old(self).accepts_key(k),
            forall|i: nat, o: nat|
                #[trigger] final(self).output_fits(i, o) == old(self).output_fits(i, o),
    {
        self.context.encrypt(input, output)
    }

    /// Forwards `decrypt` to the held instance, unchanged.
    pub fn decrypt(&mut self, input: &[u8], output: &mut [u8])
        requires
            old(self).key() is Some,
            old(self).output_fits(input@.len(), old(output)@.len()),
        ensures
            final(output)@ == old(self).plaintext(input@),
            final(self).key() == old(self).key(),
            final(self).ready() == old(self).ready(),
            forall|k: Seq<u8>| #[trigger] final(self).accepts_key(k) == old(self).accepts_key(k),
            forall|i: nat, o: nat|
                #[trigger] final(self).output_fits(i, o) == old(self).output_fits(i, o),
    {
        self.context.decrypt(input, output)
    }

    /// Renders the handle's diagnostic form: the same fixed placeholder for
    /// every handle in every state, so the rendering reveals nothing of the
    /// held instance, its key, or any text that passed through it.
    pub fn diagnostic(&self) -> (r: String)
        ensures
            r@ == diagnostic_text(),
    {
        String::from_str("EncryptionContext { context: \"Encrypted Data\" }")
    }
}

/// Every kind the handle can hold transforms by XOR with its installed key
/// byte, in both directions: once a handle's key is known, so is each byte
/// it will write.
pub proof fn lemma_handle_transforms_are_xor(h: EncryptionContext, k: u8, s: Seq<u8>)
    requires
        h.key() == Some(seq![k]),
    ensures
        h.ciphertext(s) == xor_cipher::xor_with(k, s),
        h.plaintext(s) == xor_cipher::xor_with(k, s),
{
    match h.context {
        CipherKind::Xor(c) => {
            xor_cipher::lemma_transforms_are_xor(c, k, s);
        },
    }
}

/// Round trip through a handle's model: whatever a handle encrypts, it
/// decrypts back to the original plaintext, for every plaintext and every
/// held state.
pub proof fn lemma_handle_round_trip(h: EncryptionContext, plain: Seq<u8>)
    ensures
        h.plaintext(h.ciphertext(plain)) == plain,
{
    match h.context {
        CipherKind::Xor(c) => {
            xor_cipher::lemma_round_trip(c, plain);
        },
    }
}

/// Two handles holding equal keys transform every input alike: independently
/// wrapped instances share no hidden state.
pub proof fn lemma_handles_agree(h1: EncryptionContext, h2: EncryptionContext, s: Seq<u8>)
    requires
        h1.key() == h2.key(),
    ensures
        h1.ciphertext(s) == h2.ciphertext(s),
        h1.plaintext(s) == h2.plaintext(s),
{
    match (h1.context, h2.context) {
        (CipherKind::Xor(c1), CipherKind::Xor(c2)) => {
            xor_cipher::lemma_no_hidden_state(c1, c2, s);
        },
    }
}

} // verus!
