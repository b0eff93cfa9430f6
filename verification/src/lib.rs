//! A minimal runtime-polymorphic layer for symmetric ciphers: a capability
//! contract that any cipher implementation can satisfy, and an owning handle
//! that hides which cipher kind it holds, so calling code can carry "some
//! cipher" behind one uniform type and swap the kind without changing itself.
pub mod capability;
pub mod handle;
pub mod kind;
pub mod xor_cipher;

pub use capability::Encryption;
pub use handle::EncryptionContext;
pub use kind::CipherKind;
pub use xor_cipher::XorCipher;
