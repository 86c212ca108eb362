use vstd::prelude::*;

verus! {

/// Bytes of a saved keypair: the 32-byte secret key followed by the 32-byte
/// public key, as a Solana keypair writes itself.
pub const KEYPAIR_LEN: usize = 64;

/// The payload size below which cocoon's default cipher (ChaCha20-Poly1305)
/// encrypts: fewer than `u32::MAX` blocks of 64 bytes.
pub const WRAP_SIZE_LIMIT: u64 = 274877906880;

/// Bytes before the encrypted data in a cocoon container: the 44-byte header
/// and the 16-byte authentication tag.
pub const CONTAINER_PREFIX_LEN: usize = 60;

/// The payload length that a cocoon container's header declares: the
/// big-endian `u64` in bytes 36 to 43.
pub open spec fn declared_length(c: Seq<u8>) -> int {
    c[36] * 0x100000000000000 + c[37] * 0x1000000000000 + c[38] * 0x10000000000 + c[39] * 0x100000000
        + c[40] * 0x1000000 + c[41] * 0x10000 + c[42] * 0x100 + c[43]
}

/// The containers that cocoon's `unwrap` reads without overflowing: those too
/// short to hold a header, and those whose declared payload and prefix
/// together fit in a `usize`.
pub open spec fn container_fits(c: Seq<u8>) -> bool {
    c.len() < 44 || declared_length(c) + CONTAINER_PREFIX_LEN <= usize::MAX
}

/// The data that a cocoon container decrypts to under a password, or `None`
/// where the container is malformed, too short, or the password is wrong.
pub uninterp spec fn cocoon_plaintext(password: Seq<u8>, container: Seq<u8>) -> Option<Seq<u8>>;

/// `cocoon::Cocoon::parse_only(password).unwrap(container)`: parses the
/// container's header, derives the key from the password with the header's
/// salt, and decrypts and authenticates the payload; any error gives `None`.
/// The result depends on the password and the container alone and is named
/// by `cocoon_plaintext`. The key derivation and the cipher are not restated.
/// Containers whose declared length overflows `usize` when the prefix is added
/// make `unwrap` overflow, so they are left out.
#[verifier::external_body]
fn unwrap_container(password: &[u8], container: &[u8]) -> (r: Option<Vec<u8>>)
    requires
        container_fits(container@),
    ensures
        match r {
            Some(v) => cocoon_plaintext(password@, container@) == Some(v@),
            None => cocoon_plaintext(password@, container@) is None,
        },
{
    cocoon::Cocoon::parse_only(password).unwrap(container).ok()
}

/// `cocoon::Cocoon::new(password).wrap(data)`: encrypts the data under a
/// fresh random salt and nonce into a container, the 60-byte prefix followed
/// by the encrypted data, whose header declares the data's length; any error
/// gives `None`. The container depends on the random numbers, so only what
/// holds of every outcome is claimed: the container's size and declared
/// length, and that unwrapping it with the same password gives the data back
/// (cocoon's documented round trip). The only error `wrap` returns comes from
/// the cipher, which refuses a payload of `u32::MAX` or more 64-byte blocks,
/// so a smaller payload is always wrapped. A failure of the system's random
/// source, which panics, is not covered.
#[verifier::external_body]
fn wrap_container(password: &[u8], data: &[u8]) -> (r: Option<Vec<u8>>)
    ensures
        data@.len() < WRAP_SIZE_LIMIT ==> r is Some,
        r matches Some(c) ==> {
            &&& c@.len() == CONTAINER_PREFIX_LEN + data@.len()
            &&& declared_length(c@) == data@.len()
            &&& cocoon_plaintext(password@, c@) == Some(data@)
        },
{
    cocoon::Cocoon::new(password).wrap(data).ok()
}

/// Why a saved wallet could not be opened.
#[derive(Clone, Copy, PartialEq, Eq, Debug, Structural)]
pub enum WalletError {
    /// The file is no container, or the password does not open it.
    Decryption,
    /// The container opened, but it does not hold a keypair's 64 bytes.
    NotAKeypair,
}

/// What unlocking gives for a password and the saved file's bytes: the
/// keypair bytes, or why not.
pub open spec fn unlock_result(password: Seq<u8>, container: Seq<u8>) -> Result<Seq<u8>, WalletError> {
    if !container_fits(container) {
        Err(WalletError::Decryption)
    } else {
        match cocoon_plaintext(password, container) {
            None => Err(WalletError::Decryption),
            Some(b) => if b.len() == KEYPAIR_LEN {
                Ok(b)
            } else {
                Err(WalletError::NotAKeypair)
            },
        }
    }
}

/// A container that holds `keypair` under `password` and that unlocking reads.
pub open spec fn sealed(password: Seq<u8>, keypair: Seq<u8>, container: Seq<u8>) -> bool {
    &&& container_fits(container)
    &&& cocoon_plaintext(password, container) == Some(keypair)
}

/// Reads the payload length that a container's header declares.
fn read_declared_length(c: &[u8]) -> (n: u128)
    requires
        c@.len() >= 44,
    ensures
        n == declared_length(c@),
{
    (c[36] as u128) * 0x100000000000000u128 + (c[37] as u128) * 0x1000000000000u128
        + (c[38] as u128) * 0x10000000000u128 + (c[39] as u128) * 0x100000000u128
        + (c[40] as u128) * 0x1000000u128 + (c[41] as u128) * 0x10000u128 + (c[42] as u128)
        * 0x100u128 + (c[43] as u128)
}

/// Opens the saved wallet: decrypts the file's bytes with the password and
/// checks that they are a keypair's 64 bytes.
pub fn unlock_wallet_bytes(password: &[u8], container: &[u8]) -> (r: Result<Vec<u8>, WalletError>)
    ensures
        match r {
            Ok(v) => unlock_result(password@, container@) == Ok::<Seq<u8>, WalletError>(v@),
            Err(e) => unlock_result(password@, container@) == Err::<Seq<u8>, WalletError>(e),
        },
{
    if container.len() >= 44 {
        let n = read_declared_length(container);
        if n + (CONTAINER_PREFIX_LEN as u128) > (usize::MAX as u128) {
            return Err(WalletError::Decryption);
        }
    }
    match unwrap_container(password, container) {
        None => Err(WalletError::Decryption),
        Some(bytes) => if bytes.len() == KEYPAIR_LEN {
            Ok(bytes)
        } else {
            Err(WalletError::NotAKeypair)
        },
    }
}

/// Encrypts a keypair's bytes under a password into the container that the
/// wallet file holds; `None` only for data too large for cocoon's cipher.
pub fn seal_wallet(password: &[u8], keypair: &[u8]) -> (r: Option<Vec<u8>>)
    ensures
        keypair@.len() < WRAP_SIZE_LIMIT ==> r is Some,
        r matches Some(c) ==> sealed(password@, keypair@, c@),
{
    match wrap_container(password, keypair) {
        Some(c) => {
            // The declared length plus the prefix is the container's size,
            // which fits in a `usize`.
            let size = c.len();
            assert(declared_length(c@) + CONTAINER_PREFIX_LEN == size);
            Some(c)
        },
        None => None,
    }
}

/// A wallet saved under a password unlocks with that password and gives back
/// the keypair that was saved.
pub proof fn law_saved_wallet_unlocks(password: Seq<u8>, keypair: Seq<u8>, container: Seq<u8>)
    requires
        keypair.len() == KEYPAIR_LEN,
        sealed(password, keypair, container),
    ensures
        unlock_result(password, container) == Ok::<Seq<u8>, WalletError>(keypair),
{
}

} // verus!
