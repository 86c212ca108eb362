use ore_app::wallet::{seal_wallet, unlock_wallet_bytes, WalletError};

fn keypair_bytes() -> Vec<u8> {
    (0u8..64).collect()
}

#[test]
fn saved_wallet_unlocks_with_its_password() {
    let keypair = keypair_bytes();
    let container = seal_wallet(b"hunter2", &keypair).expect("sealed");
    assert_eq!(container.len(), 60 + 64);
    assert_ne!(&container[60..], &keypair[..]);
    assert_eq!(unlock_wallet_bytes(b"hunter2", &container), Ok(keypair));
}

#[test]
fn empty_password_round_trip() {
    let keypair = keypair_bytes();
    let container = seal_wallet(b"", &keypair).expect("sealed");
    assert_eq!(unlock_wallet_bytes(b"", &container), Ok(keypair));
}

#[test]
fn wrong_password_is_refused() {
    let container = seal_wallet(b"right", &keypair_bytes()).expect("sealed");
    assert_eq!(unlock_wallet_bytes(b"wrong", &container), Err(WalletError::Decryption));
}

#[test]
fn sealed_non_keypair_is_refused() {
    let container = seal_wallet(b"pw", b"not a keypair").expect("sealed");
    assert_eq!(unlock_wallet_bytes(b"pw", &container), Err(WalletError::NotAKeypair));
}

#[test]
fn garbage_file_is_refused() {
    assert_eq!(unlock_wallet_bytes(b"pw", b""), Err(WalletError::Decryption));
    assert_eq!(unlock_wallet_bytes(b"pw", &[7u8; 200]), Err(WalletError::Decryption));
}

#[test]
fn tampered_container_is_refused() {
    let mut container = seal_wallet(b"pw", &keypair_bytes()).expect("sealed");
    let last = container.len() - 1;
    container[last] ^= 1;
    assert_eq!(unlock_wallet_bytes(b"pw", &container), Err(WalletError::Decryption));
}

#[test]
fn overlong_declared_length_is_refused() {
    let mut container = seal_wallet(b"pw", &keypair_bytes()).expect("sealed");
    for b in &mut container[36..44] {
        *b = 0xff;
    }
    assert_eq!(unlock_wallet_bytes(b"pw", &container), Err(WalletError::Decryption));
}

#[test]
fn any_small_payload_is_sealed() {
    assert!(seal_wallet(b"pw", b"").is_some());
    assert!(seal_wallet(b"pw", &[1u8; 1000]).is_some());
}
