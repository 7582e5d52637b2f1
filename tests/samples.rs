use arm_core::bridge::{DecodeError, Field};
use arm_core::delta::ComplianceUnit;
use arm_core::delta::Delta;
use arm_core::resource::NullifierKey;
use arm_core::sample::{
    random_action, random_app_data, random_compliance_instance, random_compliance_unit,
    random_compliance_witness, random_delta_proof, random_delta_witness, random_epxirable_blob,
    random_logic_verifier, random_logic_verifier_inputs, random_merkle_path, random_nullifier_key,
    random_nullifier_key_commitment, random_transaction,
};
use k256::sha2::{Digest, Sha256};

#[test]
fn commitment_is_sha256_of_key() {
    let k = NullifierKey { key: vec![0u8; 32] };
    let c = k.commit();
    assert_eq!(c.commitment, Sha256::digest([0u8; 32]).to_vec());
    assert_ne!(c.commitment, k.key);
    let again = k.commit();
    assert_eq!(c.commitment, again.commitment);
}

#[test]
fn independent_commitments_differ() {
    assert_ne!(random_nullifier_key_commitment().commitment, random_nullifier_key_commitment().commitment);
    assert_eq!(random_nullifier_key().key.len(), 32);
}

#[test]
fn generated_shapes() {
    let t = random_transaction();
    assert_eq!(t.actions.len(), 10);
    assert_eq!(t.expected_balance.as_ref().map(|b| b.len()), Some(5));
    match &t.delta_proof {
        Delta::Witness(w) => assert_eq!(w.signing_key.len(), 32),
        Delta::Proof(p) => assert_eq!(p.signature.len(), 64),
    }
    let a = random_action();
    assert_eq!((a.compliance_units.len(), a.logic_verifier_inputs.len()), (10, 10));
    assert_eq!(random_merkle_path().nodes.len(), 32);
    assert!(random_merkle_path().nodes.iter().all(|n| n.0.len() == 8));
    assert_eq!(random_logic_verifier().verifying_key.len(), 32);
    let w = random_compliance_witness();
    assert_eq!(w.consumed_resource.nonce.len(), 32);
    assert_eq!(w.merkle_path.nodes.len(), 32);
    assert_eq!(random_compliance_instance().delta_y.len(), 32);
    assert_eq!(random_compliance_unit().instance.len(), 32);
    assert_eq!(random_logic_verifier_inputs().tag.len(), 32);
    assert_eq!(random_epxirable_blob().blob, vec![1, 2, 3, 512, 512, 514, 128]);
    assert_eq!(random_app_data().application_payload.len(), 2);
    assert!(random_delta_proof().recid < 4);
    assert_eq!(random_delta_witness().signing_key.len(), 32);
}

#[test]
fn instance_is_read_from_unit_bytes() {
    let unit = ComplianceUnit { proof: vec![], instance: (0..224).map(|i| i as u8).collect() };
    let c = unit.get_instance().unwrap();
    assert_eq!(c.consumed_nullifier[0], 0x0302_0100);
    assert_eq!(c.consumed_nullifier.len(), 8);
    assert_eq!(c.consumed_logic_ref[0], 0x2322_2120);
    assert_eq!(c.delta_y[7], 0xDFDE_DDDC);
    let short = ComplianceUnit { proof: vec![], instance: vec![0; 223] };
    assert_eq!(short.get_instance().unwrap_err(), DecodeError::BadLength(Field::Instance));
    assert!(random_compliance_unit().get_instance().is_err());
}
