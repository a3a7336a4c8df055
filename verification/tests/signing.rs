use bitcoin::hashes::Hash as BtcHash;
use hd_oracle::keys::Xpriv;
use hd_oracle::oracle::{p2wpkh_scriptcode, HDOracleEmulator, SigningError};
use hd_oracle::psbt::{Psbt, PsbtInput};
use hd_oracle::tx::{Tx, TxIn, TxOut};

fn oracle() -> HDOracleEmulator {
    let master = Xpriv::try_new(vec![0xAB; 32], vec![0x01; 32]).expect("valid master key");
    HDOracleEmulator::new(master, false)
}

fn simple_tx() -> Tx {
    Tx {
        version: 2,
        lock_time: 0,
        inputs: vec![TxIn { prev_txid: vec![0x11; 32], prev_vout: 0, sequence: 0xFFFF_FFFF }],
        outputs: vec![TxOut { value: 99_000, script_pubkey: vec![0x51] }],
    }
}

fn simple_psbt(witness_utxo: Option<TxOut>, witness_script: Option<Vec<u8>>) -> Psbt {
    Psbt {
        tx: simple_tx(),
        inputs: vec![PsbtInput { witness_utxo, witness_script, partial_sigs: vec![] }],
    }
}

fn bitcoin_tx(tx: &Tx) -> bitcoin::Transaction {
    bitcoin::Transaction {
        version: tx.version as i32,
        lock_time: tx.lock_time,
        input: tx
            .inputs
            .iter()
            .map(|i| bitcoin::TxIn {
                previous_output: bitcoin::OutPoint {
                    txid: bitcoin::Txid::from_slice(&i.prev_txid).unwrap(),
                    vout: i.prev_vout,
                },
                script_sig: bitcoin::Script::new(),
                sequence: i.sequence,
                witness: Vec::new(),
            })
            .collect(),
        output: tx
            .outputs
            .iter()
            .map(|o| bitcoin::TxOut {
                value: o.value,
                script_pubkey: bitcoin::Script::from(o.script_pubkey.clone()),
            })
            .collect(),
    }
}

fn verify_input0_sig(signed: &Psbt, scriptcode: Vec<u8>, value: u64) {
    assert_eq!(signed.inputs[0].partial_sigs.len(), 1);
    let (pk_bytes, sig_bytes) = signed.inputs[0].partial_sigs[0].clone();
    assert_eq!(pk_bytes.len(), 33);
    assert_eq!(sig_bytes.len(), 65);
    assert_eq!(*sig_bytes.last().unwrap(), 0x01);

    let t = bitcoin_tx(&signed.tx);
    let mut cache = bitcoin::util::bip143::SigHashCache::new(&t);
    let digest = cache.signature_hash(
        0,
        &bitcoin::Script::from(scriptcode),
        value,
        bitcoin::SigHashType::All,
    );
    let secp = bitcoin::secp256k1::Secp256k1::new();
    let msg = bitcoin::secp256k1::Message::from_slice(&digest[..]).unwrap();
    let sig = bitcoin::secp256k1::Signature::from_compact(&sig_bytes[..64]).unwrap();
    let pk = bitcoin::secp256k1::PublicKey::from_slice(&pk_bytes).unwrap();
    assert!(secp.verify(&msg, &sig, &pk).is_ok());
}

#[test]
fn test_sign_idempotent() {
    let oracle = oracle();
    let psbt = simple_psbt(Some(TxOut { value: 100_000, script_pubkey: vec![] }), None);
    let s1 = oracle.sign(&psbt).expect("signing succeeds");
    let s2 = oracle.sign(&psbt).expect("signing succeeds");
    assert_eq!(s1.inputs[0].partial_sigs, s2.inputs[0].partial_sigs);
}

#[test]
fn test_sign_round_trip_p2wpkh() {
    let oracle = oracle();
    let psbt = simple_psbt(Some(TxOut { value: 100_000, script_pubkey: vec![] }), None);
    let signed = oracle.sign(&psbt).expect("signing succeeds");
    let pk_bytes = signed.inputs[0].partial_sigs[0].0.clone();
    let pkh = bitcoin::hashes::hash160::Hash::hash(&pk_bytes).into_inner().to_vec();
    let scriptcode = p2wpkh_scriptcode(&pkh);
    verify_input0_sig(&signed, scriptcode, 100_000);
}

#[test]
fn test_sign_uses_explicit_witness_script() {
    let oracle = oracle();
    // an explicit scriptcode: OP_TRUE
    let script = vec![0x51u8];
    let psbt = simple_psbt(
        Some(TxOut { value: 55_555, script_pubkey: vec![] }),
        Some(script.clone()),
    );
    let signed = oracle.sign(&psbt).expect("signing succeeds");
    verify_input0_sig(&signed, script, 55_555);
}

#[test]
fn test_fallback_scriptcode_bytes() {
    let pkh: Vec<u8> = (0u8..20).collect();
    let code = p2wpkh_scriptcode(&pkh);
    let mut expected = vec![0x76u8, 0xa9, 0x14];
    expected.extend_from_slice(&pkh);
    expected.extend_from_slice(&[0x88, 0xac]);
    assert_eq!(code, expected);
    assert_eq!(code.len(), 25);
}

#[test]
fn test_missing_utxo() {
    let oracle = oracle();
    let psbt = simple_psbt(None, None);
    let r = oracle.sign(&psbt);
    match r {
        Err(e) => assert_eq!(e, SigningError::MissingWitnessUtxo),
        Ok(_) => panic!("signing must fail without a witness UTXO"),
    }
    // the submitted container is untouched
    assert!(psbt.inputs[0].partial_sigs.is_empty());
    assert!(psbt.inputs[0].witness_utxo.is_none());
}

#[test]
fn test_sign_exactly_one_entry() {
    let oracle = oracle();
    let psbt = simple_psbt(Some(TxOut { value: 100_000, script_pubkey: vec![] }), None);
    let signed = oracle.sign(&psbt).expect("signing succeeds");
    assert_eq!(signed.inputs[0].partial_sigs.len(), 1);
}

#[test]
fn test_resign_replaces_entry() {
    let oracle = oracle();
    let psbt = simple_psbt(Some(TxOut { value: 100_000, script_pubkey: vec![] }), None);
    let once = oracle.sign(&psbt).expect("signing succeeds");
    let twice = oracle.sign(&once).expect("signing succeeds");
    assert_eq!(twice.inputs[0].partial_sigs.len(), 1);
    assert_eq!(once.inputs[0].partial_sigs, twice.inputs[0].partial_sigs);
}

#[test]
fn test_ctv_hash_matches_manual() {
    let tx = simple_tx();
    let got = tx.get_ctv_hash(0);

    let mut committed: Vec<u8> = Vec::new();
    committed.extend_from_slice(&2u32.to_le_bytes());
    committed.extend_from_slice(&0u32.to_le_bytes());
    committed.extend_from_slice(&1u32.to_le_bytes());
    let seqs = 0xFFFF_FFFFu32.to_le_bytes();
    committed.extend_from_slice(&bitcoin::hashes::sha256::Hash::hash(&seqs).into_inner());
    committed.extend_from_slice(&1u32.to_le_bytes());
    let mut outs: Vec<u8> = Vec::new();
    outs.extend_from_slice(&99_000u64.to_le_bytes());
    outs.push(1);
    outs.push(0x51);
    committed.extend_from_slice(&bitcoin::hashes::sha256::Hash::hash(&outs).into_inner());
    committed.extend_from_slice(&0u32.to_le_bytes());
    let expected = bitcoin::hashes::sha256::Hash::hash(&committed).into_inner().to_vec();
    assert_eq!(got, expected);
}

#[test]
fn test_ctv_hash_commits_to_outputs() {
    let tx = simple_tx();
    let mut other = simple_tx();
    other.outputs[0].value = 98_999;
    assert_ne!(tx.get_ctv_hash(0), other.get_ctv_hash(0));
}
