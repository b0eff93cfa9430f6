//! The tagged variant behind the opaque handle: one arm per cipher kind the
//! crate dispatches over.
//!
//! The handle erases which kind it holds by dispatching through this enum
//! rather than through a trait object: Verus can then prove, at the handle's
//! constructor, that the wrapped value keeps the instance's whole model —
//! something it cannot yet state across a trait-object coercion. The cost is
//! that the set of kinds is closed: a new cipher joins by adding an arm here
//! and extending each match below.
use crate::capability::Encryption;
use crate::xor_cipher::XorCipher;
use vstd::prelude::*;

verus! {

/// A concrete cipher instance of one of the kinds the handle can hold. Every
/// operation and every model function passes straight through to the held
/// instance's own.
pub enum CipherKind {
    Xor(XorCipher),
}

impl Encryption for CipherKind {
    open spec fn ready(&self) -> bool {
        match self {
            CipherKind::Xor(c) => c.ready(),
        }
    }

    open spec fn key(&self) -> Option<Seq<u8>> {
        match self {
            CipherKind::Xor(c) => c.key(),
        }
    }

    open spec fn accepts_key(&self, key: Seq<u8>) -> bool {
        match self {
            CipherKind::Xor(c) => c.accepts_key(key),
        }
    }

    open spec fn output_fits(&self, input_len: nat, output_len: nat) -> bool {
        match self {
            CipherKind::Xor(c) => c.output_fits(input_len, output_len),
        }
    }

    open spec fn ciphertext(&self, plain: Seq<u8>) -> Seq<u8> {
        match self {
            CipherKind::Xor(c) => c.ciphertext(plain),
        }
    }

    open spec fn plaintext(&self, cipher: Seq<u8>) -> Seq<u8> {
        match self {
            CipherKind::Xor(c) => c.plaintext(cipher),
        }
    }

    fn initialize_context(&mut self) {
        match self {
            CipherKind::Xor(c) => c.initialize_context(),
        }
    }

    fn set_key(&mut self, key: &[u8]) {
        match self {
            CipherKind::Xor(c) => c.set_key(key),
        }
    }

    fn encrypt(&mut self, input: &[u8], output: &mut [u8]) {
        match self {
            CipherKind::Xor(c) => c.encrypt(input, output),
        }
    }

    fn decrypt(&mut self, input: &[u8], output: &mut [u8]) {
        match self {
            CipherKind::Xor(c) => c.decrypt(input, output),
        }
    }
}

} // verus!
