use arm_core::bridge::{decode_keypair, encode_keypair, DecodeError, Field, Record, Tag, Term};
use arm_core::cipher::{decrypt_cipher, encrypt, encrypt_cipher, CipherError};
use arm_core::delta::{
    combine, delta_message, generate_delta_proof, prove_delta_witness, Action, ComplianceUnit, Delta,
    DeltaError, DeltaProof, DeltaWitness, Transaction,
};
use arm_core::keys::{keypair_from_secret, random_key_pair, Keypair};
use k256::elliptic_curve::sec1::ToEncodedPoint;

fn scalar_bytes(v: u8) -> Vec<u8> {
    let mut b = vec![0u8; 32];
    b[31] = v;
    b
}

fn unit(instance: Vec<u8>) -> ComplianceUnit {
    ComplianceUnit { proof: vec![9, 9], instance }
}

fn sample_actions() -> Vec<Action> {
    vec![
        Action { compliance_units: vec![unit(vec![1, 2]), unit(vec![3])], logic_verifier_inputs: vec![] },
        Action { compliance_units: vec![], logic_verifier_inputs: vec![] },
        Action { compliance_units: vec![unit(vec![4, 5, 6])], logic_verifier_inputs: vec![] },
    ]
}

#[test]
fn generated_public_is_secret_times_generator() {
    let k = random_key_pair();
    let sk = k256::SecretKey::from_slice(&k.secret).unwrap();
    assert_eq!(k.public, sk.public_key().to_encoded_point(true).as_bytes().to_vec());
    assert_eq!(k.public.len(), 33);
}

#[test]
fn secret_one_gives_generator() {
    let k = keypair_from_secret(scalar_bytes(1)).unwrap();
    let g = k256::AffinePoint::GENERATOR.to_encoded_point(true).as_bytes().to_vec();
    assert_eq!(k.public, g);
}

#[test]
fn zero_and_short_secrets_are_refused() {
    assert!(keypair_from_secret(vec![0u8; 32]).is_none());
    assert!(keypair_from_secret(vec![1u8; 31]).is_none());
    assert!(keypair_from_secret(vec![0xFFu8; 32]).is_none());
}

#[test]
fn keypair_round_trip() {
    let k = random_key_pair();
    let r = encode_keypair(&k);
    assert_eq!(r.entries.len(), 3);
    assert!(matches!(r.entries[0], (Field::Struct, Term::Tag(Tag::Keypair))));
    let d = match decode_keypair(&r) {
        Ok(d) => d,
        Err(e) => panic!("{:?}", e),
    };
    assert_eq!(d.secret, k.secret);
    assert_eq!(d.public, k.public);
}

#[test]
fn decode_rejects_bad_lengths_and_missing_fields() {
    let short = Record {
        entries: vec![
            (Field::Struct, Term::Tag(Tag::Keypair)),
            (Field::SecretKey, Term::Bytes(vec![1; 31])),
            (Field::PublicKey, Term::Bytes(vec![2; 33])),
        ],
    };
    assert_eq!(decode_err(&short), DecodeError::BadLength(Field::SecretKey));
    let long_public = Record {
        entries: vec![
            (Field::PublicKey, Term::Bytes(vec![2; 34])),
            (Field::SecretKey, Term::Bytes(vec![1; 32])),
            (Field::Struct, Term::Tag(Tag::Keypair)),
        ],
    };
    assert_eq!(decode_err(&long_public), DecodeError::BadLength(Field::PublicKey));
    let untagged = Record { entries: vec![(Field::SecretKey, Term::Bytes(vec![1; 32]))] };
    assert_eq!(decode_err(&untagged), DecodeError::Missing(Field::Struct));
    let shape = Record {
        entries: vec![(Field::Struct, Term::Tag(Tag::Keypair)), (Field::SecretKey, Term::Tag(Tag::Keypair))],
    };
    assert_eq!(decode_err(&shape), DecodeError::WrongShape(Field::SecretKey));
}

#[test]
fn encrypt_then_decrypt_round_trip() {
    let k = random_key_pair();
    let e = random_key_pair();
    let payload: Vec<u8> = (0..32).map(|_| rand::random::<u8>()).collect();
    let c = encrypt(&payload, &k.public, &e.secret, &vec![0u8; 12]).unwrap();
    assert_eq!(c.len(), 33 + 12 + 32 + 16);
    assert_eq!(c[..33].to_vec(), e.public);
    assert_ne!(c[45..77].to_vec(), payload);
    assert_eq!(decrypt_cipher(&c, &k), Some(payload));
}

#[test]
fn end_to_end_scenario() {
    let k = random_key_pair();
    let eph = random_key_pair();
    let payload: Vec<u8> = (0..32).map(|_| rand::random::<u8>()).collect();
    let c = encrypt(&payload, &k.public, &eph.secret, &vec![0u8; 12]).unwrap();
    let p = decrypt_cipher(&c, &k).unwrap();
    assert_eq!(p, payload);
}

#[test]
fn encrypt_cipher_with_own_keypair() {
    let k = random_key_pair();
    let c = encrypt_cipher(&vec![7, 8, 9], &k, &vec![1u8; 12]).unwrap();
    assert_eq!(decrypt_cipher(&c, &k), Some(vec![7, 8, 9]));
}

#[test]
fn decrypt_fails_with_other_key_or_flipped_bytes() {
    let k = random_key_pair();
    let other = random_key_pair();
    let e = random_key_pair();
    let c = encrypt(&vec![5u8; 20], &k.public, &e.secret, &vec![3u8; 12]).unwrap();
    assert_eq!(decrypt_cipher(&c, &other), None);
    for i in 0..c.len() {
        let mut bad = c.clone();
        bad[i] ^= 0x01;
        assert_eq!(decrypt_cipher(&bad, &k), None);
    }
    assert_eq!(decrypt_cipher(&c[..44].to_vec(), &k), None);
    assert_eq!(decrypt_cipher(&vec![], &k), None);
}

#[test]
fn encrypt_refuses_wrong_nonce_length_and_bad_keys() {
    let k = random_key_pair();
    assert_eq!(encrypt(&vec![1], &k.public, &k.secret, &vec![0u8; 11]), Err(CipherError::NonceLength));
    assert_eq!(encrypt(&vec![1], &k.public, &k.secret, &vec![0u8; 13]), Err(CipherError::NonceLength));
    assert_eq!(encrypt(&vec![1], &k.public, &vec![0u8; 32], &vec![0u8; 12]), Err(CipherError::InvalidKey));
    assert_eq!(encrypt(&vec![1], &vec![0u8; 33], &k.secret, &vec![0u8; 12]), Err(CipherError::InvalidKey));
}

#[test]
fn combine_adds_keys() {
    let w = |v: u8| DeltaWitness { signing_key: scalar_bytes(v) };
    assert_eq!(combine(&w(2), &w(3)).unwrap().signing_key, scalar_bytes(5));
    let ab = combine(&w(2), &w(3)).unwrap();
    let ba = combine(&w(3), &w(2)).unwrap();
    assert_eq!(ab.signing_key, ba.signing_key);
    let left = combine(&combine(&w(7), &w(11)).unwrap(), &w(13)).unwrap();
    let right = combine(&w(7), &combine(&w(11), &w(13)).unwrap()).unwrap();
    assert_eq!(left.signing_key, right.signing_key);
    assert_eq!(left.signing_key, scalar_bytes(31));
    assert!(combine(&w(0), &w(1)).is_none());
}

#[test]
fn combine_wraps_at_group_order() {
    let mut n_minus_one =
        hex_to_bytes("FFFFFFFFFFFFFFFFFFFFFFFFFFFFFFFEBAAEDCE6AF48A03BBFD25E8CD0364140");
    let a = DeltaWitness { signing_key: n_minus_one.clone() };
    let b = DeltaWitness { signing_key: scalar_bytes(2) };
    assert_eq!(combine(&a, &b).unwrap().signing_key, scalar_bytes(1));
    let one = DeltaWitness { signing_key: scalar_bytes(1) };
    assert!(combine(&a, &one).is_none());
    n_minus_one[31] = 0x41;
    assert!(combine(&DeltaWitness { signing_key: n_minus_one }, &one).is_none());
}

fn decode_err(r: &Record) -> DecodeError {
    match decode_keypair(r) {
        Ok(_) => panic!("decoded a malformed keypair"),
        Err(e) => e,
    }
}

fn finalize_err(tx: Transaction) -> DeltaError {
    match generate_delta_proof(tx) {
        Ok(_) => panic!("finalized"),
        Err(e) => e,
    }
}

fn le8(n: u8) -> Vec<u8> {
    vec![n, 0, 0, 0, 0, 0, 0, 0]
}

fn expected_sample_message() -> Vec<u8> {
    let mut m = Vec::new();
    m.extend(le8(2));
    m.extend(le8(2));
    m.extend([1, 2]);
    m.extend(le8(1));
    m.extend([3]);
    m.extend(le8(0));
    m.extend(le8(1));
    m.extend(le8(3));
    m.extend([4, 5, 6]);
    m
}

fn hex_to_bytes(h: &str) -> Vec<u8> {
    (0..h.len()).step_by(2).map(|i| u8::from_str_radix(&h[i..i + 2], 16).unwrap()).collect()
}

#[test]
fn delta_message_concatenates_instances() {
    assert_eq!(delta_message(&sample_actions()), expected_sample_message());
    assert_eq!(delta_message(&vec![]), Vec::<u8>::new());
}

#[test]
fn finalization_replaces_witness_and_refuses_second_call() {
    let k = random_key_pair();
    let tx = Transaction {
        actions: sample_actions(),
        delta_proof: Delta::Witness(DeltaWitness { signing_key: k.secret.clone() }),
        expected_balance: Some(vec![1, 2, 3, 4, 5]),
    };
    let done = match generate_delta_proof(tx) {
        Ok(t) => t,
        Err(e) => panic!("{:?}", e),
    };
    assert_eq!(done.expected_balance, Some(vec![1, 2, 3, 4, 5]));
    assert_eq!(delta_message(&done.actions), expected_sample_message());
    let proof = match &done.delta_proof {
        Delta::Proof(p) => p.clone(),
        Delta::Witness(_) => panic!("delta still a witness"),
    };
    let sig = k256::ecdsa::Signature::from_slice(&proof.signature).unwrap();
    let id = k256::ecdsa::RecoveryId::from_byte(proof.recid).unwrap();
    let vk = k256::ecdsa::VerifyingKey::recover_from_msg(&expected_sample_message(), &sig, id).unwrap();
    assert_eq!(vk.to_encoded_point(true).as_bytes().to_vec(), k.public);
    assert_eq!(finalize_err(done), DeltaError::PreconditionViolation);
}

#[test]
fn balance_recovers_sum_of_contributions() {
    let a = keypair_from_secret(scalar_bytes(20)).unwrap();
    let b = keypair_from_secret(scalar_bytes(22)).unwrap();
    let sum = combine(
        &DeltaWitness { signing_key: a.secret.clone() },
        &DeltaWitness { signing_key: b.secret.clone() },
    )
    .unwrap();
    let msg = delta_message(&sample_actions());
    let proof = prove_delta_witness(&sum, &msg).unwrap();
    let sig = k256::ecdsa::Signature::from_slice(&proof.signature).unwrap();
    let id = k256::ecdsa::RecoveryId::from_byte(proof.recid).unwrap();
    let vk = k256::ecdsa::VerifyingKey::recover_from_msg(&msg, &sig, id).unwrap();
    let pa = k256::PublicKey::from_sec1_bytes(&a.public).unwrap().to_projective();
    let pb = k256::PublicKey::from_sec1_bytes(&b.public).unwrap().to_projective();
    let expected = (pa + pb).to_affine().to_encoded_point(true).as_bytes().to_vec();
    assert_eq!(vk.to_encoded_point(true).as_bytes().to_vec(), expected);
}

#[test]
fn prove_rejects_invalid_witness() {
    let w = DeltaWitness { signing_key: vec![0u8; 32] };
    assert!(matches!(prove_delta_witness(&w, &vec![1]), Err(DeltaError::InvalidWitness)));
    let w = DeltaWitness { signing_key: vec![1u8; 5] };
    assert!(matches!(prove_delta_witness(&w, &vec![1]), Err(DeltaError::InvalidWitness)));
}

#[test]
fn proof_form_transaction_is_refused() {
    let tx = Transaction {
        actions: vec![],
        delta_proof: Delta::Proof(DeltaProof { signature: vec![0; 64], recid: 0 }),
        expected_balance: None,
    };
    assert_eq!(finalize_err(tx), DeltaError::PreconditionViolation);
}

#[test]
fn keypair_struct_fields_are_public() {
    let k = random_key_pair();
    let copy = Keypair { secret: k.secret.clone(), public: k.public.clone() };
    assert_eq!(copy.secret.len(), 32);
}

#[test]
fn decode_rejects_points_off_the_curve_or_not_from_the_secret() {
    let k = random_key_pair();
    let other = random_key_pair();
    let record = |secret: Vec<u8>, public: Vec<u8>| Record {
        entries: vec![
            (Field::Struct, Term::Tag(Tag::Keypair)),
            (Field::SecretKey, Term::Bytes(secret)),
            (Field::PublicKey, Term::Bytes(public)),
        ],
    };
    assert_eq!(decode_err(&record(k.secret.clone(), vec![0; 33])), DecodeError::Invalid(Field::PublicKey));
    assert_eq!(decode_err(&record(k.secret.clone(), other.public.clone())), DecodeError::Invalid(Field::PublicKey));
    assert_eq!(decode_err(&record(vec![0; 32], k.public.clone())), DecodeError::Invalid(Field::SecretKey));
}

#[test]
fn delta_message_separates_units() {
    let split_a = vec![Action { compliance_units: vec![unit(vec![1, 2]), unit(vec![3])], logic_verifier_inputs: vec![] }];
    let split_b = vec![Action { compliance_units: vec![unit(vec![1]), unit(vec![2, 3])], logic_verifier_inputs: vec![] }];
    assert_ne!(delta_message(&split_a), delta_message(&split_b));
}

#[test]
fn encryption_is_deterministic() {
    let k = random_key_pair();
    let a = encrypt_cipher(&vec![1, 2, 3], &k, &vec![4u8; 12]).unwrap();
    let b = encrypt_cipher(&vec![1, 2, 3], &k, &vec![4u8; 12]).unwrap();
    assert_eq!(a, b);
}

#[test]
fn decrypt_depends_on_secret_only() {
    let k = random_key_pair();
    let e = random_key_pair();
    let c = encrypt(&vec![8u8; 10], &k.public, &e.secret, &vec![2u8; 12]).unwrap();
    let same_secret = keypair_from_secret(k.secret.clone()).unwrap();
    assert_eq!(decrypt_cipher(&c, &same_secret), Some(vec![8u8; 10]));
}
