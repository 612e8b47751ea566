use data_storage_service::encrypt::decrypt_data;
use data_storage_service::encrypt::encrypt_data;
use data_storage_service::encrypt::seal;
use data_storage_service::encrypt::InputError;

use magic_crypt::MagicCryptTrait;

#[test]
fn round_trip() {
    let (handle, password, sealed) = encrypt_data("hello world".to_string());
    assert_eq!(handle.len(), 8);
    assert_eq!(password.len(), 16);
    assert_ne!(sealed, "hello world");
    assert_eq!(decrypt_data(sealed, password), Some("hello world".to_string()));
}

#[test]
fn round_trip_longer_text() {
    let text = "a longer secret, spanning more than one cipher block: 0123456789";
    let (_handle, password, sealed) = encrypt_data(text.to_string());
    assert_eq!(decrypt_data(sealed, password), Some(text.to_string()));
}

#[test]
fn round_trip_empty_plaintext() {
    let (_handle, password, sealed) = encrypt_data(String::new());
    assert_eq!(decrypt_data(sealed, password), Some(String::new()));
}

#[test]
fn wrong_password_rejected() {
    let mc = magic_crypt::MagicCrypt256::new("correct-password", None::<&[u8]>);
    let sealed = mc.encrypt_str_to_base64("hello world");
    assert_eq!(decrypt_data(sealed, "wrong-password-1".to_string()), None);
}

#[test]
fn wrong_password_rejected_fresh_seal() {
    let (_handle, password, sealed) = encrypt_data("hello world".to_string());
    let mut wrong = password.clone();
    let last = wrong.pop().unwrap();
    wrong.push(if last == 'A' { 'B' } else { 'A' });
    assert_ne!(decrypt_data(sealed, wrong), Some("hello world".to_string()));
}

#[test]
fn tampered_ciphertext_rejected() {
    let mc = magic_crypt::MagicCrypt256::new("correct-password", None::<&[u8]>);
    let sealed = mc.encrypt_str_to_base64("hello world");
    for i in 0..sealed.len() {
        let mut chars: Vec<char> = sealed.chars().collect();
        chars[i] = if chars[i] == 'A' { 'B' } else { 'A' };
        let tampered: String = chars.into_iter().collect();
        assert_ne!(
            decrypt_data(tampered, "correct-password".to_string()),
            Some("hello world".to_string()),
            "flip at {} went unnoticed",
            i
        );
    }
}

#[test]
fn malformed_encoding_rejected() {
    assert_eq!(
        decrypt_data("not valid base64 !!!".to_string(), "any-password-123".to_string()),
        None
    );
}

#[test]
fn seal_scenario() {
    let sealed_triple = seal("hello world".to_string()).unwrap();
    let (handle, password, sealed) = sealed_triple;
    assert_eq!(handle.len(), 8);
    assert_eq!(password.len(), 16);
    assert_eq!(decrypt_data(sealed.clone(), password), Some("hello world".to_string()));
    assert_ne!(
        decrypt_data(sealed, "wrong-password-1".to_string()),
        Some("hello world".to_string())
    );
}

#[test]
fn seal_rejects_empty_plaintext() {
    assert_eq!(seal(String::new()), Err(InputError::EmptyPlaintext));
}

#[test]
fn sealing_matches_cipher_directly() {
    let (_handle, password, sealed) = encrypt_data("hello world".to_string());
    let mc = magic_crypt::MagicCrypt256::new(password.as_bytes(), None::<&[u8]>);
    assert_eq!(mc.decrypt_base64_to_string(sealed).unwrap(), "hello world");
}
