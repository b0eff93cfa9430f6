//! A small, fully verified cipher satisfying the capability contract: each
//! byte is XORed with a single installed key byte, so the transformation is
//! its own inverse. It exists to exercise the contract and the handle with a
//! concrete, reversible algorithm; it provides no cryptographic security.
use crate::capability::Encryption;
use vstd::prelude::*;

verus! {

/// Pointwise XOR of `s` with the key byte `k`.
pub open spec fn xor_with(k: u8, s: Seq<u8>) -> Seq<u8> {
    Seq::new(s.len(), |i: int| s[i] ^ k)
}

/// A stream cipher over a one-byte key: encryption and decryption both XOR
/// every input byte with the installed key byte, into an output buffer of
/// exactly the input's length. It holds no state beyond the key and the
/// readiness flag, and keeps no state across transformations.
pub struct XorCipher {
    key_byte: Option<u8>,
    prepared: bool,
}

impl XorCipher {
    /// The key byte the transformations use; zero until a key is installed.
    closed spec fn key_or_zero(&self) -> u8 {
        match self.key_byte {
            Some(b) => b,
            None => 0,
        }
    }

    /// A fresh instance: no key installed, context not yet prepared.
    pub fn new() -> (c: XorCipher)
        ensures
            !c.ready(),
            c.key() is None,
    {
        XorCipher { key_byte: None, prepared: false }
    }
}

impl Encryption for XorCipher {
    closed spec fn ready(&self) -> bool {
        self.prepared
    }

    closed spec fn key(&self) -> Option<Seq<u8>> {
        match self.key_byte {
            Some(b) => Some(seq![b]),
            None => None,
        }
    }

    open spec fn accepts_key(&self, key: Seq<u8>) -> bool {
        key.len() == 1
    }

    open spec fn output_fits(&self, input_len: nat, output_len: nat) -> bool {
        input_len == output_len
    }

    closed spec fn ciphertext(&self, plain: Seq<u8>) -> Seq<u8> {
        xor_with(self.key_or_zero(), plain)
    }

    closed spec fn plaintext(&self, cipher: Seq<u8>) -> Seq<u8> {
        xor_with(self.key_or_zero(), cipher)
    }

    fn initialize_context(&mut self) {
        self.prepared = true;
    }

    fn set_key(&mut self, key: &[u8]) {
        self.key_byte = Some(key[0]);
        proof {
            assert(seq![key@[0]] =~= key@);
        }
    }

    fn encrypt(&mut self, input: &[u8], output: &mut [u8])
        ensures
            *final(self) == *old(self),
    {
        let k: u8 = match self.key_byte {
            Some(b) => b,
            None => 0,
        };
        let mut i: usize = 0;
        while i < input.len()
            invariant
                i <= input@.len(),
                output@.len() == input@.len(),
                k == self.key_or_zero(),
                forall|j: int| 0 <= j < i ==> output@[j] == (input@[j] ^ k),
            decreases input@.len() - i,
        {
            output[i] = input[i] ^ k;
            i += 1;
        }
        proof {
            assert(output@ =~= xor_with(k, input@));
        }
    }

    fn decrypt(&mut self, input: &[u8], output: &mut [u8])
        ensures
            *final(self) == *old(self),
    {
        let k: u8 = match self.key_byte {
            Some(b) => b,
            None => 0,
        };
        let mut i: usize = 0;
        while i < input.len()
            invariant
                i <= input@.len(),
                output@.len() == input@.len(),
                k == self.key_or_zero(),
                forall|j: int| 0 <= j < i ==> output@[j] == (input@[j] ^ k),
            decreases input@.len() - i,
        {
            output[i] = input[i] ^ k;
            i += 1;
        }
        proof {
            assert(output@ =~= xor_with(k, input@));
        }
    }
}

/// XOR with one key byte is its own inverse: applying it twice gives the
/// original sequence back.
pub proof fn lemma_xor_with_involutive(k: u8, s: Seq<u8>)
    ensures
        xor_with(k, xor_with(k, s)) == s,
{
    assert forall|i: int| 0 <= i < s.len() implies xor_with(k, xor_with(k, s))[i] == s[i] by {
        let b = s[i];
        assert((b ^ k) ^ k == b) by (bit_vector);
    }
    assert(xor_with(k, xor_with(k, s)) =~= s);
}

/// Round trip: whatever this cipher encrypts, it decrypts back to the
/// original plaintext, for every plaintext and every instance state.
pub proof fn lemma_round_trip(c: XorCipher, plain: Seq<u8>)
    ensures
        c.plaintext(c.ciphertext(plain)) == plain,
{
    lemma_xor_with_involutive(c.key_or_zero(), plain);
}

/// With key byte `k` installed, both transformations are exactly `xor_with`
/// by `k`: the cipher's behaviour is a function of its installed key alone.
pub proof fn lemma_transforms_are_xor(c: XorCipher, k: u8, s: Seq<u8>)
    requires
        c.key() == Some(seq![k]),
    ensures
        c.ciphertext(s) == xor_with(k, s),
        c.plaintext(s) == xor_with(k, s),
{
    assert(c.key_byte is Some);
    let kb = c.key_byte->0;
    assert(seq![kb] == seq![k]);
    assert(kb == seq![kb][0] && k == seq![k][0]);
}

/// Two instances holding the same key transform every input alike: instances
/// share no hidden state.
pub proof fn lemma_no_hidden_state(a: XorCipher, b: XorCipher, s: Seq<u8>)
    requires
        a.key() == b.key(),
    ensures
        a.ciphertext(s) == b.ciphertext(s),
        a.plaintext(s) == b.plaintext(s),
{
    if a.key_byte is Some {
        let ka = a.key_byte->0;
        let kb = b.key_byte->0;
        assert(seq![ka] == seq![kb]);
        assert(ka == seq![ka][0] && kb == seq![kb][0]);
    }
}

} // verus!
