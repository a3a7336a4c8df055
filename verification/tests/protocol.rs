use bitcoin::hashes::Hash as BtcHash;
use hd_oracle::encoding::push_compact_size;
use hd_oracle::frame::{encode_frame, frame_length};
use hd_oracle::keys::Xpriv;
use hd_oracle::oracle::{p2wpkh_scriptcode, HDOracleEmulator, Request, Response};
use hd_oracle::psbt::{Psbt, PsbtInput};
use hd_oracle::tx::{Tx, TxIn, TxOut};

const MASTER_SECRET: [u8; 32] = [0x01; 32];

fn oracle() -> HDOracleEmulator {
    let master = Xpriv::try_new(vec![0xAB; 32], MASTER_SECRET.to_vec()).expect("valid master key");
    HDOracleEmulator::new(master, false)
}

#[test]
fn test_handle_confirm_scenario() {
    // the client sends ConfirmKey with challenge Hash("test")
    let challenge = bitcoin::hashes::sha256::Hash::hash(b"test").into_inner().to_vec();
    let req = Request::ConfirmKey(vec![], challenge.clone());
    let resp = oracle().handle(&req).expect("handshake cannot fail");
    let ck = match resp {
        Response::KeyConfirmed(ck) => ck,
        Response::PSBT(_) => panic!("expected a key confirmation"),
    };
    assert_eq!(ck.nonce.len(), 32);

    let mut preimage = ck.nonce.clone();
    preimage.extend_from_slice(&challenge);
    let binding = bitcoin::hashes::sha256::Hash::hash(&preimage);
    let secp = bitcoin::secp256k1::Secp256k1::new();
    let msg = bitcoin::secp256k1::Message::from_slice(&binding[..]).unwrap();
    let sig = bitcoin::secp256k1::Signature::from_compact(&ck.signature).unwrap();
    let sk = bitcoin::secp256k1::SecretKey::from_slice(&MASTER_SECRET).unwrap();
    let pk = bitcoin::secp256k1::PublicKey::from_secret_key(&secp, &sk);
    assert!(secp.verify(&msg, &sig, &pk).is_ok());
}

#[test]
fn test_handle_sign_scenario() {
    // the client commits to one output, spends one P2WPKH input of value
    // 100000 without an explicit witness script
    let tx = Tx {
        version: 2,
        lock_time: 0,
        inputs: vec![TxIn { prev_txid: vec![0x22; 32], prev_vout: 1, sequence: 0 }],
        outputs: vec![TxOut { value: 99_000, script_pubkey: vec![0x00, 0x14, 0x07] }],
    };
    let psbt = Psbt {
        tx,
        inputs: vec![PsbtInput {
            witness_utxo: Some(TxOut { value: 100_000, script_pubkey: vec![] }),
            witness_script: None,
            partial_sigs: vec![],
        }],
    };
    let resp = oracle().handle(&Request::SignPSBT(psbt)).expect("signing succeeds");
    let signed = match resp {
        Response::PSBT(p) => p,
        Response::KeyConfirmed(_) => panic!("expected a signed container"),
    };
    assert_eq!(signed.inputs[0].partial_sigs.len(), 1);
    let (pk_bytes, sig_bytes) = signed.inputs[0].partial_sigs[0].clone();
    assert_eq!(*sig_bytes.last().unwrap(), 0x01);

    // the signature must validate against the synthesized P2WPKH sighash
    let pkh = bitcoin::hashes::hash160::Hash::hash(&pk_bytes).into_inner().to_vec();
    let scriptcode = p2wpkh_scriptcode(&pkh);
    let t = bitcoin::Transaction {
        version: 2,
        lock_time: 0,
        input: vec![bitcoin::TxIn {
            previous_output: bitcoin::OutPoint {
                txid: bitcoin::Txid::from_slice(&[0x22; 32]).unwrap(),
                vout: 1,
            },
            script_sig: bitcoin::Script::new(),
            sequence: 0,
            witness: Vec::new(),
        }],
        output: vec![bitcoin::TxOut {
            value: 99_000,
            script_pubkey: bitcoin::Script::from(vec![0x00, 0x14, 0x07]),
        }],
    };
    let mut cache = bitcoin::util::bip143::SigHashCache::new(&t);
    let digest = cache.signature_hash(
        0,
        &bitcoin::Script::from(scriptcode),
        100_000,
        bitcoin::SigHashType::All,
    );
    let secp = bitcoin::secp256k1::Secp256k1::new();
    let msg = bitcoin::secp256k1::Message::from_slice(&digest[..]).unwrap();
    let sig = bitcoin::secp256k1::Signature::from_compact(&sig_bytes[..64]).unwrap();
    let pk = bitcoin::secp256k1::PublicKey::from_slice(&pk_bytes).unwrap();
    assert!(secp.verify(&msg, &sig, &pk).is_ok());
}

#[test]
fn test_encode_frame() {
    let payload = vec![0xDE, 0xAD, 0xBE];
    let framed = encode_frame(&payload).expect("small payload frames");
    assert_eq!(framed, vec![0, 0, 0, 3, 0xDE, 0xAD, 0xBE]);
}

#[test]
fn test_frame_length() {
    assert_eq!(frame_length(&vec![0, 0, 1, 2]), Some(258));
    assert_eq!(frame_length(&vec![0x12, 0x34, 0x56, 0x78]), Some(0x1234_5678));
    assert_eq!(frame_length(&vec![1, 2, 3]), None);
}

#[test]
fn test_compact_size_encodings() {
    let cases: Vec<(u64, Vec<u8>)> = vec![
        (0, vec![0x00]),
        (0xFC, vec![0xFC]),
        (0xFD, vec![0xFD, 0xFD, 0x00]),
        (0xFFFF, vec![0xFD, 0xFF, 0xFF]),
        (0x1_0000, vec![0xFE, 0x00, 0x00, 0x01, 0x00]),
        (0x1_0000_0000, vec![0xFF, 0, 0, 0, 0, 1, 0, 0, 0]),
    ];
    for (n, expected) in cases {
        let mut out: Vec<u8> = Vec::new();
        push_compact_size(&mut out, n);
        assert_eq!(out, expected);
    }
}
