use chacha20poly1305::aead::Aead;
use chacha20poly1305::{KeyInit, XChaCha20Poly1305};
use promptpilot_core::error::ErrorKind;
use promptpilot_core::users::{
    decrypt_identity, decrypt_private, derive_identity, encrypt_private, generate_identity, kdf,
    seal_private,
};

const SECRET: [u8; 32] = [
    157, 97, 177, 157, 239, 253, 90, 96, 186, 132, 74, 244, 146, 236, 44, 196, 68, 73, 197, 105,
    123, 50, 105, 25, 112, 59, 172, 3, 28, 174, 127, 96,
];

const PUBLIC: [u8; 32] = [
    215, 90, 152, 1, 130, 177, 10, 183, 213, 75, 254, 211, 201, 100, 7, 58, 14, 225, 114, 243,
    218, 166, 35, 37, 175, 2, 26, 104, 247, 7, 81, 26,
];

#[test]
fn kdf_is_sha256_of_the_passphrase() {
    let expected: [u8; 32] = [
        186, 120, 22, 191, 143, 1, 207, 234, 65, 65, 64, 222, 93, 174, 34, 35, 176, 3, 97, 163,
        150, 23, 122, 156, 180, 16, 255, 97, 242, 0, 21, 173,
    ];
    assert_eq!(kdf("abc"), expected);
    assert_ne!(kdf("abd"), expected);
}

#[test]
fn encrypt_then_decrypt_returns_the_key() {
    let passphrases = ["correct-horse", "", "pässwörd ✓", "a much longer passphrase with spaces"];
    let keys: [[u8; 32]; 3] = [[0u8; 32], [255u8; 32], SECRET];
    for pass in passphrases.iter() {
        for key in keys.iter() {
            let blob = encrypt_private(key, pass);
            assert_eq!(blob.len(), 72);
            assert_eq!(decrypt_private(&blob, pass), Some(key.to_vec()));
            assert_eq!(decrypt_identity(&blob, pass).unwrap(), key.to_vec());
        }
    }
}

#[test]
fn encrypt_then_decrypt_returns_keys_of_other_lengths() {
    let empty: [u8; 0] = [];
    let blob = encrypt_private(&empty, "p");
    assert_eq!(blob.len(), 40);
    assert_eq!(decrypt_private(&blob, "p"), Some(Vec::new()));
    let long = vec![7u8; 1000];
    let blob = encrypt_private(&long, "p");
    assert_eq!(blob.len(), 24 + 1000 + 16);
    assert_eq!(decrypt_private(&blob, "p"), Some(long));
}

#[test]
fn wrong_passphrase_fails_with_credential_error() {
    let blob = encrypt_private(&SECRET, "correct-horse");
    for wrong in ["wrong", "", "correct-horse ", "Correct-horse"].iter() {
        assert_eq!(decrypt_private(&blob, wrong), None);
        let err = decrypt_identity(&blob, wrong).unwrap_err();
        assert_eq!(err.kind, ErrorKind::Credential);
        assert_eq!(err.detail, "decrypt failed");
    }
}

#[test]
fn truncated_blob_fails_with_credential_error() {
    let blob = encrypt_private(&SECRET, "p");
    for cut in [0usize, 1, 23, 24, 39, 40, 71].iter() {
        let err = decrypt_identity(&blob[..*cut], "p").unwrap_err();
        assert_eq!(err.kind, ErrorKind::Credential);
        assert_eq!(err.detail, "decrypt failed");
    }
}

#[test]
fn damaged_blob_fails_with_the_same_error_as_a_wrong_passphrase() {
    let blob = encrypt_private(&SECRET, "p");
    let wrong = decrypt_identity(&blob, "q").unwrap_err();
    for position in [0usize, 10, 24, 50, 71].iter() {
        let mut damaged = blob.clone();
        damaged[*position] ^= 1;
        let err = decrypt_identity(&damaged, "p").unwrap_err();
        assert_eq!(err.kind, wrong.kind);
        assert_eq!(err.detail, wrong.detail);
    }
}

#[test]
fn sealing_puts_the_nonce_before_the_ciphertext() {
    let nonce = [9u8; 24];
    let blob = seal_private(&SECRET, "correct-horse", &nonce);
    assert_eq!(&blob[..24], &nonce[..]);
    let key = kdf("correct-horse");
    let cipher = XChaCha20Poly1305::new((&key).into());
    let expected = cipher.encrypt((&nonce).into(), &SECRET[..]).unwrap();
    assert_eq!(&blob[24..], &expected[..]);
    assert_ne!(&blob[24..56], &SECRET[..]);
    assert_eq!(seal_private(&SECRET, "correct-horse", &nonce), blob);
}

#[test]
fn each_encryption_draws_a_new_nonce() {
    let first = encrypt_private(&SECRET, "p");
    let second = encrypt_private(&SECRET, "p");
    assert_ne!(first[..24], second[..24]);
    assert_ne!(first, second);
}

#[test]
fn derived_identity_has_the_public_key_of_the_secret() {
    let nonce = [3u8; 24];
    let (public, blob) = derive_identity(&SECRET, "pw", &nonce);
    assert_eq!(public, PUBLIC);
    assert_eq!(blob.len(), 72);
    assert_eq!(decrypt_identity(&blob, "pw").unwrap(), SECRET.to_vec());
}

#[test]
fn generated_identity_opens_to_the_key_behind_its_public_key() {
    let (public, blob) = generate_identity("correct-horse");
    assert_eq!(blob.len(), 72);
    let secret = decrypt_identity(&blob, "correct-horse").unwrap();
    assert_eq!(secret.len(), 32);
    let mut bytes = [0u8; 32];
    bytes.copy_from_slice(&secret);
    let signing = ed25519_dalek::SigningKey::from_bytes(&bytes);
    assert_eq!(signing.verifying_key().to_bytes(), public);
    let (other, _) = generate_identity("correct-horse");
    assert_ne!(other, public);
}
