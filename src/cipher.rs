use vstd::prelude::*;
use aes_gcm::aead::{Aead, Payload};
use aes_gcm::{Aes256Gcm, KeyInit, Nonce};
use crate::bytes::{append, copy_range};
use crate::keys::{Keypair, valid_scalar, derive_public, public_of, point_ok, SECRET_LEN, POINT_LEN};
use crate::resource::{sha256, sha256_of};

verus! {

/// Length of the nonce of one message.
pub const NONCE_LEN: usize = 12;

/// Length of the authentication tag appended to the sealed payload.
pub const TAG_LEN: usize = 16;

/// Largest payload the cipher seals, in bytes (2^36).
pub const PAYLOAD_MAX: u64 = 0x10_0000_0000;

/// The x-coordinate of `secret * public`.
pub uninterp spec fn shared_of(secret: Seq<u8>, public: Seq<u8>) -> Seq<u8>;

/// AES-256-GCM encryption of `payload` under `key` and `nonce`, authenticating `aad` too.
pub uninterp spec fn sealed_of(key: Seq<u8>, nonce: Seq<u8>, aad: Seq<u8>, payload: Seq<u8>) -> Seq<u8>;

/// AES-256-GCM decryption of `sealed` with associated data `aad`; `None` where
/// the tag does not verify.
pub uninterp spec fn opened_of(key: Seq<u8>, nonce: Seq<u8>, aad: Seq<u8>, sealed: Seq<u8>) -> Option<Seq<u8>>;

/// Why a payload was not encrypted.
#[derive(Clone, Copy, Debug, PartialEq, Eq, Structural)]
pub enum CipherError {
    /// The nonce is not 12 bytes long.
    NonceLength,
    /// The secret is no scalar, or the public bytes are no curve point.
    InvalidKey,
    /// The payload is longer than the cipher seals.
    SealFailed,
}

/// Relies on k256::PublicKey::from_sec1_bytes to parse the point and on
/// k256::ecdh::diffie_hellman for the x-coordinate of `secret * public`; the
/// agreement is symmetric: `a * (b * G) == b * (a * G)`.
#[verifier::external_body]
fn agree(secret: &Vec<u8>, public: &Vec<u8>) -> (r: Option<Vec<u8>>)
    requires
        valid_scalar(secret@),
    ensures
        r.is_some() <==> point_ok(public@),
        r.is_some() ==> r.unwrap()@ == shared_of(secret@, public@) && r.unwrap()@.len() == 32,
        r.is_some() ==> forall|b: Seq<u8>|
            valid_scalar(b) && public@ == #[trigger] public_of(b)
                ==> r.unwrap()@ == shared_of(b, public_of(secret@)),
{
    let sk = k256::SecretKey::from_slice(secret).unwrap();
    k256::PublicKey::from_sec1_bytes(public).ok().map(|p| {
        k256::ecdh::diffie_hellman(sk.to_nonzero_scalar(), p.as_affine()).raw_secret_bytes().to_vec()
    })
}

/// Relies on aes_gcm::Aes256Gcm::encrypt: the payload sealed, with a tag that
/// also covers `aad`; it refuses only a payload over 2^36 bytes (or such
/// associated data), and decrypting what it seals gives the payload back.
#[verifier::external_body]
fn seal(key: &Vec<u8>, nonce: &Vec<u8>, aad: &Vec<u8>, payload: &Vec<u8>) -> (r: Option<Vec<u8>>)
    requires
        key@.len() == 32,
        nonce@.len() == NONCE_LEN,
    ensures
        r.is_none() <==> (payload@.len() > PAYLOAD_MAX || aad@.len() > PAYLOAD_MAX),
        match r {
            Some(c) => c@ == sealed_of(key@, nonce@, aad@, payload@)
                && opened_of(key@, nonce@, aad@, c@) == Some(payload@),
            None => true,
        },
{
    let cipher = Aes256Gcm::new_from_slice(key).unwrap();
    cipher.encrypt(Nonce::from_slice(nonce), Payload { msg: payload.as_slice(), aad: aad.as_slice() }).ok()
}

/// Relies on aes_gcm::Aes256Gcm::decrypt: the payload where the tag verifies
/// over the sealed bytes and `aad`.
#[verifier::external_body]
fn open(key: &Vec<u8>, nonce: &Vec<u8>, aad: &Vec<u8>, sealed: &Vec<u8>) -> (r: Option<Vec<u8>>)
    requires
        key@.len() == 32,
        nonce@.len() == NONCE_LEN,
    ensures
        match r {
            Some(p) => opened_of(key@, nonce@, aad@, sealed@) == Some(p@),
            None => opened_of(key@, nonce@, aad@, sealed@) is None,
        },
{
    let cipher = Aes256Gcm::new_from_slice(key).unwrap();
    cipher.decrypt(Nonce::from_slice(nonce), Payload { msg: sealed.as_slice(), aad: aad.as_slice() }).ok()
}

/// The ciphertext layout: ephemeral public point, nonce, sealed payload.
pub open spec fn framed(ephemeral: Seq<u8>, nonce: Seq<u8>, sealed: Seq<u8>) -> Seq<u8> {
    ephemeral + nonce + sealed
}

/// The symmetric key of a message: SHA-256 of the agreed x-coordinate.
pub open spec fn message_key(secret: Seq<u8>, public: Seq<u8>) -> Seq<u8> {
    sha256_of(shared_of(secret, public))
}

/// What encrypting `payload` for `recipient` with `ephemeral` and `nonce` gives.
pub open spec fn encryption(payload: Seq<u8>, recipient: Seq<u8>, ephemeral: Seq<u8>, nonce: Seq<u8>) -> Seq<u8> {
    framed(
        public_of(ephemeral),
        nonce,
        sealed_of(message_key(ephemeral, recipient), nonce, public_of(ephemeral), payload),
    )
}

/// What decrypting `c` with `secret` gives: the frame is cut into its parts,
/// the key is agreed with the embedded point, and the sealed part is opened
/// with the point as associated data, so that no byte of the frame can change.
pub open spec fn decryption(c: Seq<u8>, secret: Seq<u8>) -> Option<Seq<u8>> {
    let header = (POINT_LEN + NONCE_LEN) as int;
    let ephemeral = c.subrange(0, POINT_LEN as int);
    if c.len() < header || !point_ok(ephemeral) {
        None
    } else {
        opened_of(
            message_key(secret, ephemeral),
            c.subrange(POINT_LEN as int, header),
            ephemeral,
            c.subrange(header, c.len() as int),
        )
    }
}

/// Encrypts `payload` for the holder of `recipient_public`: the key is agreed
/// between `ephemeral_secret` and the recipient's point, and the ciphertext
/// carries the ephemeral public point and the nonce before the sealed payload.
/// Whoever holds the recipient's secret decrypts it back to `payload`.
pub fn encrypt(payload: &Vec<u8>, recipient_public: &Vec<u8>, ephemeral_secret: &Vec<u8>, nonce: &Vec<u8>)
    -> (r: Result<Vec<u8>, CipherError>)
    ensures
        r == Err::<Vec<u8>, CipherError>(CipherError::NonceLength) <==> nonce@.len() != NONCE_LEN,
        nonce@.len() == NONCE_LEN && (!valid_scalar(ephemeral_secret@) || !point_ok(recipient_public@))
            ==> r == Err::<Vec<u8>, CipherError>(CipherError::InvalidKey),
        nonce@.len() == NONCE_LEN && valid_scalar(ephemeral_secret@) && point_ok(recipient_public@)
            ==> (r is Ok <==> payload@.len() <= PAYLOAD_MAX),
        nonce@.len() == NONCE_LEN && valid_scalar(ephemeral_secret@)
            && recipient_public@ == public_of(ephemeral_secret@) && payload@.len() <= PAYLOAD_MAX
            ==> r is Ok,
        r is Err ==> r->Err_0 != CipherError::SealFailed || payload@.len() > PAYLOAD_MAX,
        r is Ok ==> r->Ok_0@ == encryption(payload@, recipient_public@, ephemeral_secret@, nonce@),
        r is Ok ==> forall|s: Seq<u8>| valid_scalar(s) && recipient_public@ == #[trigger] public_of(s)
            ==> decryption(r->Ok_0@, s) == Some(payload@),
{
    if nonce.len() != NONCE_LEN {
        return Err(CipherError::NonceLength);
    }
    if ephemeral_secret.len() != SECRET_LEN {
        return Err(CipherError::InvalidKey);
    }
    let ephemeral = match derive_public(ephemeral_secret) {
        Some(p) => p,
        None => { return Err(CipherError::InvalidKey); },
    };
    let shared = match agree(ephemeral_secret, recipient_public) {
        Some(k) => k,
        None => { return Err(CipherError::InvalidKey); },
    };
    let key = sha256(&shared);
    let sealed = match seal(&key, nonce, &ephemeral, payload) {
        Some(s) => s,
        None => { return Err(CipherError::SealFailed); },
    };
    let mut out = copy_range(&ephemeral, 0, ephemeral.len());
    append(&mut out, nonce);
    append(&mut out, &sealed);
    proof {
        let c = out@;
        let header = (POINT_LEN + NONCE_LEN) as int;
        assert(c.subrange(0, POINT_LEN as int) =~= ephemeral@);
        assert(c.subrange(POINT_LEN as int, header) =~= nonce@);
        assert(c.subrange(header, c.len() as int) =~= sealed@);
        assert forall|s: Seq<u8>| valid_scalar(s) && recipient_public@ == #[trigger] public_of(s)
            implies decryption(c, s) == Some(payload@) by {
            assert(shared_of(ephemeral_secret@, recipient_public@) == shared_of(s, public_of(ephemeral_secret@)));
        }
    }
    Ok(out)
}

/// Encrypts `payload` under the keypair's own point, with its secret as the
/// ephemeral scalar; the keypair decrypts it back.
pub fn encrypt_cipher(payload: &Vec<u8>, keypair: &Keypair, nonce: &Vec<u8>) -> (r: Result<Vec<u8>, CipherError>)
    requires
        keypair.wf(),
    ensures
        r == Err::<Vec<u8>, CipherError>(CipherError::NonceLength) <==> nonce@.len() != NONCE_LEN,
        nonce@.len() == NONCE_LEN ==> (r is Ok <==> payload@.len() <= PAYLOAD_MAX),
        r is Ok ==> r->Ok_0@ == encryption(payload@, keypair.public@, keypair.secret@, nonce@),
        r is Ok ==> decryption(r->Ok_0@, keypair.secret@) == Some(payload@),
{
    let r = encrypt(payload, &keypair.public, &keypair.secret, nonce);
    proof {
        if r is Ok {
            assert(valid_scalar(keypair.secret@) && keypair.public@ == public_of(keypair.secret@));
        }
    }
    r
}

/// Decrypts a ciphertext with the keypair's secret: exactly `decryption`,
/// which is `None` on a short frame, an embedded point off the curve, or a tag
/// that does not verify.
pub fn decrypt_cipher(cipher_bytes: &Vec<u8>, keypair: &Keypair) -> (r: Option<Vec<u8>>)
    requires
        keypair.wf(),
    ensures
        match r {
            Some(p) => decryption(cipher_bytes@, keypair.secret@) == Some(p@),
            None => decryption(cipher_bytes@, keypair.secret@) is None,
        },
{
    let header: usize = POINT_LEN + NONCE_LEN;
    if cipher_bytes.len() < header {
        return None;
    }
    let ephemeral = copy_range(cipher_bytes, 0, POINT_LEN);
    let nonce = copy_range(cipher_bytes, POINT_LEN, header);
    let sealed = copy_range(cipher_bytes, header, cipher_bytes.len());
    let shared = match agree(&keypair.secret, &ephemeral) {
        Some(k) => k,
        None => { return None; },
    };
    let key = sha256(&shared);
    open(&key, &nonce, &ephemeral, &sealed)
}

} // verus!
