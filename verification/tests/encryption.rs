use cryptography::CipherKind;
use cryptography::Encryption;
use cryptography::EncryptionContext;
use cryptography::XorCipher;

const PLACEHOLDER: &str = "EncryptionContext { context: \"Encrypted Data\" }";

fn keyed_handle(key: &[u8]) -> EncryptionContext {
    let mut h = EncryptionContext::new(CipherKind::Xor(XorCipher::new()));
    h.initialize_context();
    h.set_key(key);
    h
}

#[test]
fn xor_scenario_encrypts_and_decrypts() {
    let mut c = XorCipher::new();
    c.initialize_context();
    c.set_key(&[0x5A]);

    let mut ciphertext = vec![0u8; 3];
    c.encrypt(&[0x00, 0x01, 0x02], &mut ciphertext);
    assert_eq!(ciphertext, vec![0x5A, 0x5B, 0x58]);

    let mut plaintext = vec![0u8; 3];
    c.decrypt(&[0x5A, 0x5B, 0x58], &mut plaintext);
    assert_eq!(plaintext, vec![0x00, 0x01, 0x02]);
}

#[test]
fn xor_scenario_through_handle() {
    let mut h = keyed_handle(&[0x5A]);

    let mut ciphertext = vec![0u8; 3];
    h.encrypt(&[0x00, 0x01, 0x02], &mut ciphertext);
    assert_eq!(ciphertext, vec![0x5A, 0x5B, 0x58]);

    let mut plaintext = vec![0u8; 3];
    h.decrypt(&[0x5A, 0x5B, 0x58], &mut plaintext);
    assert_eq!(plaintext, vec![0x00, 0x01, 0x02]);
}

#[test]
fn handle_forwards_byte_identically() {
    let input = [0xDE, 0xAD, 0xBE, 0xEF, 0x00, 0x7F];

    let mut direct = XorCipher::new();
    direct.initialize_context();
    direct.set_key(&[0x33]);
    let mut direct_out = vec![0u8; input.len()];
    direct.encrypt(&input, &mut direct_out);

    let mut wrapped = keyed_handle(&[0x33]);
    let mut wrapped_out = vec![0u8; input.len()];
    wrapped.encrypt(&input, &mut wrapped_out);

    assert_eq!(wrapped_out, direct_out);

    let mut direct_back = vec![0u8; input.len()];
    direct.decrypt(&direct_out, &mut direct_back);
    let mut wrapped_back = vec![0u8; input.len()];
    wrapped.decrypt(&wrapped_out, &mut wrapped_back);

    assert_eq!(wrapped_back, direct_back);
    assert_eq!(wrapped_back, input.to_vec());
}

#[test]
fn round_trip_recovers_plaintext() {
    let plain = [0x00, 0xFF, 0x10, 0x80, 0x7F, 0x01];
    let mut h = keyed_handle(&[0xA7]);

    let mut ciphertext = vec![0u8; plain.len()];
    h.encrypt(&plain, &mut ciphertext);
    assert_ne!(ciphertext, plain.to_vec());

    let mut recovered = vec![0u8; plain.len()];
    h.decrypt(&ciphertext, &mut recovered);
    assert_eq!(recovered, plain.to_vec());
}

#[test]
fn construction_always_succeeds() {
    let fresh = EncryptionContext::new(CipherKind::Xor(XorCipher::new()));
    assert_eq!(fresh.diagnostic(), PLACEHOLDER);

    let mut keyed = XorCipher::new();
    keyed.initialize_context();
    keyed.set_key(&[0x01]);
    let wrapped = EncryptionContext::new(CipherKind::Xor(keyed));
    assert_eq!(wrapped.diagnostic(), PLACEHOLDER);
}

#[test]
fn diagnostic_is_fixed_placeholder() {
    let mut h = keyed_handle(&[0x5A]);
    assert_eq!(h.diagnostic(), PLACEHOLDER);

    let mut ciphertext = vec![0u8; 3];
    h.encrypt(&[0x41, 0x42, 0x43], &mut ciphertext);
    assert_eq!(h.diagnostic(), PLACEHOLDER);
}

#[test]
fn diagnostic_never_contains_key_or_text() {
    let key = [0x5A];
    let plain = [0x00, 0x01, 0x02];
    let mut h = keyed_handle(&key);
    let mut ciphertext = vec![0u8; plain.len()];
    h.encrypt(&plain, &mut ciphertext);

    let rendered = h.diagnostic();
    for b in key.iter().chain(plain.iter()).chain(ciphertext.iter()) {
        assert!(!rendered.as_bytes().contains(b));
    }
}

#[test]
fn independent_instances_agree() {
    let input = [0x10, 0x20, 0x30];

    let mut first = keyed_handle(&[0x44]);
    let mut second = keyed_handle(&[0x44]);

    let mut first_out = vec![0u8; input.len()];
    first.encrypt(&input, &mut first_out);
    let mut second_out = vec![0u8; input.len()];
    second.encrypt(&input, &mut second_out);

    assert_eq!(first_out, second_out);
}

fn encrypt_elsewhere(mut taken: EncryptionContext, input: &[u8]) -> Vec<u8> {
    let mut out = vec![0u8; input.len()];
    taken.encrypt(input, &mut out);
    out
}

#[test]
fn handle_moved_to_new_owner_behaves_identically() {
    let input = [0x01, 0x02, 0x03, 0x04];

    let mut stayed = keyed_handle(&[0x21]);
    let mut expected = vec![0u8; input.len()];
    stayed.encrypt(&input, &mut expected);

    let moved = keyed_handle(&[0x21]);
    let from_elsewhere = encrypt_elsewhere(moved, &input);

    assert_eq!(from_elsewhere, expected);
}

#[test]
fn empty_input_gives_empty_output() {
    let mut h = keyed_handle(&[0x11]);
    let mut out: Vec<u8> = Vec::new();
    h.encrypt(&[], &mut out);
    assert_eq!(out, Vec::<u8>::new());
}

#[test]
fn set_key_replaces_previous_key() {
    let mut h = keyed_handle(&[0x01]);
    h.set_key(&[0xFF]);

    let mut out = vec![0u8; 1];
    h.encrypt(&[0x0F], &mut out);
    assert_eq!(out, vec![0x0F ^ 0xFF]);
}

#[test]
fn initialize_context_is_idempotent() {
    let mut h = keyed_handle(&[0x5A]);
    h.initialize_context();
    h.initialize_context();

    let mut out = vec![0u8; 1];
    h.encrypt(&[0x00], &mut out);
    assert_eq!(out, vec![0x5A]);
}
