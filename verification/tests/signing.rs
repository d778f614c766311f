use btc_signer::digest::{segwit_v0_digest, taproot_script_digest};
use btc_signer::sign::{derive_public_key, p2wpkh_script, sign_p2tr, sign_p2wpkh};
use btc_signer::types::{
    EcdsaSighashType, OutPoint, SignError, TapSighashType, Transaction, TxIn, TxOut,
};

fn test_key(fill: u8) -> Vec<u8> {
    vec![fill; 32]
}

fn make_tx(n_inputs: usize) -> Transaction {
    let mut inputs = Vec::new();
    for i in 0..n_inputs {
        inputs.push(TxIn {
            previous_output: OutPoint {
                txid: vec![(i as u8) + 1; 32],
                vout: i as u32,
            },
            script_sig: Vec::new(),
            sequence: 0xffffffff,
            witness: Vec::new(),
        });
    }
    Transaction {
        version: 2,
        lock_time: 0,
        inputs,
        outputs: vec![TxOut {
            value: 90000,
            script_pubkey: vec![0x00, 0x14, 0xab, 0xab, 0xab, 0xab, 0xab, 0xab, 0xab, 0xab, 0xab,
                0xab, 0xab, 0xab, 0xab, 0xab, 0xab, 0xab, 0xab, 0xab, 0xab, 0xab],
        }],
    }
}

fn to_bitcoin_tx(tx: &Transaction) -> bitcoin::Transaction {
    bitcoin::Transaction {
        version: bitcoin::transaction::Version(tx.version as i32),
        lock_time: bitcoin::absolute::LockTime::from_consensus(tx.lock_time),
        input: tx
            .inputs
            .iter()
            .map(|i| bitcoin::TxIn {
                previous_output: bitcoin::OutPoint {
                    txid: <bitcoin::Txid as bitcoin::hashes::Hash>::from_byte_array(
                        i.previous_output.txid.clone().try_into().unwrap(),
                    ),
                    vout: i.previous_output.vout,
                },
                script_sig: bitcoin::ScriptBuf::from_bytes(i.script_sig.clone()),
                sequence: bitcoin::Sequence(i.sequence),
                witness: bitcoin::Witness::from_slice(&i.witness),
            })
            .collect(),
        output: tx
            .outputs
            .iter()
            .map(|o| bitcoin::TxOut {
                value: bitcoin::Amount::from_sat(o.value),
                script_pubkey: bitcoin::ScriptBuf::from_bytes(o.script_pubkey.clone()),
            })
            .collect(),
    }
}

#[test]
fn p2wpkh_digest_matches_reference_implementation() {
    let key = test_key(1);
    let pubkey = derive_public_key(&key).unwrap();
    let script = p2wpkh_script(&pubkey);
    let tx = make_tx(1);

    let digest = segwit_v0_digest(&tx, 0, 100000, &script, EcdsaSighashType::All).unwrap();

    let btx = to_bitcoin_tx(&tx);
    let mut cache = bitcoin::sighash::SighashCache::new(&btx);
    let expected = cache
        .p2wpkh_signature_hash(
            0,
            bitcoin::Script::from_bytes(&script),
            bitcoin::Amount::from_sat(100000),
            bitcoin::EcdsaSighashType::All,
        )
        .unwrap();
    assert_eq!(
        digest.as_slice(),
        bitcoin::hashes::Hash::to_byte_array(expected).as_slice()
    );
}

#[test]
fn taproot_digest_matches_reference_implementation() {
    let tx = make_tx(2);
    let leaf_hash = vec![0x42u8; 32];
    let prevouts: Vec<TxOut> = (0..2)
        .map(|_| TxOut {
            value: 50000,
            script_pubkey: vec![0x51, 0x20, 7, 7, 7, 7, 7, 7, 7, 7, 7, 7, 7, 7, 7, 7, 7, 7, 7, 7,
                7, 7, 7, 7, 7, 7, 7, 7, 7, 7, 7, 7, 7, 7],
        })
        .collect();

    let digest =
        taproot_script_digest(&tx, 1, &prevouts, &leaf_hash, TapSighashType::Default).unwrap();

    let btx = to_bitcoin_tx(&tx);
    let bprevouts: Vec<bitcoin::TxOut> = prevouts
        .iter()
        .map(|o| bitcoin::TxOut {
            value: bitcoin::Amount::from_sat(o.value),
            script_pubkey: bitcoin::ScriptBuf::from_bytes(o.script_pubkey.clone()),
        })
        .collect();
    let mut cache = bitcoin::sighash::SighashCache::new(&btx);
    let expected = cache
        .taproot_script_spend_signature_hash(
            1,
            &bitcoin::sighash::Prevouts::All(&bprevouts),
            <bitcoin::TapLeafHash as bitcoin::hashes::Hash>::from_byte_array(leaf_hash.clone().try_into().unwrap()),
            bitcoin::TapSighashType::Default,
        )
        .unwrap();
    assert_eq!(
        digest.as_slice(),
        bitcoin::hashes::Hash::to_byte_array(expected).as_slice()
    );
}

#[test]
fn signed_p2wpkh_witness_verifies_against_digest() {
    let key = test_key(1);
    let pubkey = derive_public_key(&key).unwrap();
    let script = p2wpkh_script(&pubkey);
    let tx = make_tx(1);
    let digest = segwit_v0_digest(&tx, 0, 100000, &script, EcdsaSighashType::All).unwrap();

    let signed = sign_p2wpkh(tx, vec![100000], key.clone()).unwrap();
    let witness = &signed.inputs[0].witness;
    assert_eq!(witness.len(), 2);
    assert_eq!(witness[1], pubkey);
    assert_eq!(*witness[0].last().unwrap(), 0x01u8);

    let secp = bitcoin::secp256k1::Secp256k1::new();
    let sk = bitcoin::secp256k1::SecretKey::from_slice(&key).unwrap();
    let pk = bitcoin::secp256k1::PublicKey::from_secret_key(&secp, &sk);
    let der = &witness[0][..witness[0].len() - 1];
    let sig = bitcoin::secp256k1::ecdsa::Signature::from_der(der).unwrap();
    let msg = bitcoin::secp256k1::Message::from_digest_slice(&digest).unwrap();
    assert!(secp.verify_ecdsa(&msg, &sig, &pk).is_ok());
}

#[test]
fn signed_p2tr_witness_verifies_against_digest() {
    let key = test_key(3);
    let tx = make_tx(2);
    let leaf_hash = vec![0x42u8; 32];
    let prevouts: Vec<TxOut> = (0..2)
        .map(|_| TxOut {
            value: 50000,
            script_pubkey: vec![0x51, 0x20, 9, 9, 9, 9, 9, 9, 9, 9, 9, 9, 9, 9, 9, 9, 9, 9, 9, 9,
                9, 9, 9, 9, 9, 9, 9, 9, 9, 9, 9, 9, 9, 9],
        })
        .collect();
    let digest =
        taproot_script_digest(&tx, 0, &prevouts, &leaf_hash, TapSighashType::Default).unwrap();

    let leaf_script = vec![0x51u8];
    let control_block = vec![0xc0u8; 33];
    let stack = vec![Vec::new(), leaf_script.clone(), control_block.clone()];
    let signed = sign_p2tr(
        tx,
        0,
        leaf_hash,
        key.clone(),
        TapSighashType::Default,
        prevouts,
        stack,
    )
    .unwrap();
    let witness = &signed.inputs[0].witness;
    assert_eq!(witness.len(), 3);
    assert_eq!(witness[0].len(), 64);
    assert_eq!(witness[1], leaf_script);
    assert_eq!(witness[2], control_block);

    let secp = bitcoin::secp256k1::Secp256k1::new();
    let kp = bitcoin::secp256k1::Keypair::from_seckey_slice(&secp, &key).unwrap();
    let (xonly, _) = kp.x_only_public_key();
    let sig = bitcoin::secp256k1::schnorr::Signature::from_slice(&witness[0]).unwrap();
    let msg = bitcoin::secp256k1::Message::from_digest_slice(&digest).unwrap();
    assert!(secp.verify_schnorr(&sig, &msg, &xonly).is_ok());
}

#[test]
fn signing_twice_gives_identical_bytes() {
    let key = test_key(1);
    let a = sign_p2wpkh(make_tx(2), vec![100000, 200000], key.clone()).unwrap();
    let b = sign_p2wpkh(make_tx(2), vec![100000, 200000], key.clone()).unwrap();
    for i in 0..2 {
        assert_eq!(a.inputs[i].witness, b.inputs[i].witness);
    }

    let leaf = vec![0x42u8; 32];
    let prevouts = || {
        vec![TxOut {
            value: 50000,
            script_pubkey: vec![0x51],
        }]
    };
    let stack = || vec![Vec::new(), vec![0x51], vec![0xc0; 33]];
    let c = sign_p2tr(
        make_tx(1),
        0,
        leaf.clone(),
        key.clone(),
        TapSighashType::Default,
        prevouts(),
        stack(),
    )
    .unwrap();
    let d = sign_p2tr(
        make_tx(1),
        0,
        leaf,
        key,
        TapSighashType::Default,
        prevouts(),
        stack(),
    )
    .unwrap();
    assert_eq!(c.inputs[0].witness, d.inputs[0].witness);
}

#[test]
fn resigning_overwrites_witness() {
    let key = test_key(1);
    let signed = sign_p2wpkh(make_tx(1), vec![100000], key.clone()).unwrap();
    let first_witness = signed.inputs[0].witness.clone();
    let resigned = sign_p2wpkh(signed, vec![100000], key.clone()).unwrap();
    assert_eq!(resigned.inputs[0].witness.len(), 2);
    assert_eq!(resigned.inputs[0].witness, first_witness);

    let leaf = vec![0x42u8; 32];
    let prevouts = vec![TxOut {
        value: 50000,
        script_pubkey: vec![0x51],
    }];
    let stack = vec![Vec::new(), vec![0x51], vec![0xc0; 33]];
    let signed = sign_p2tr(
        make_tx(1),
        0,
        leaf.clone(),
        key.clone(),
        TapSighashType::Default,
        prevouts.clone(),
        stack.clone(),
    )
    .unwrap();
    let first_witness = signed.inputs[0].witness.clone();
    let resigned = sign_p2tr(
        signed,
        0,
        leaf,
        key,
        TapSighashType::Default,
        prevouts,
        stack,
    )
    .unwrap();
    assert_eq!(resigned.inputs[0].witness.len(), 3);
    assert_eq!(resigned.inputs[0].witness, first_witness);
}

#[test]
fn prevout_value_change_changes_every_digest() {
    let tx = make_tx(2);
    let leaf = vec![0x42u8; 32];
    let mut prevouts: Vec<TxOut> = (0..2)
        .map(|i| TxOut {
            value: 50000 + i as u64,
            script_pubkey: vec![0x51],
        })
        .collect();
    let d0 = taproot_script_digest(&tx, 0, &prevouts, &leaf, TapSighashType::Default).unwrap();
    let d1 = taproot_script_digest(&tx, 1, &prevouts, &leaf, TapSighashType::Default).unwrap();
    prevouts[0].value += 1;
    let e0 = taproot_script_digest(&tx, 0, &prevouts, &leaf, TapSighashType::Default).unwrap();
    let e1 = taproot_script_digest(&tx, 1, &prevouts, &leaf, TapSighashType::Default).unwrap();
    assert_ne!(d0, e0);
    assert_ne!(d1, e1);
}

#[test]
fn prevout_count_mismatch_is_rejected() {
    let tx = make_tx(2);
    let leaf = vec![0x42u8; 32];
    let one_prevout = vec![TxOut {
        value: 50000,
        script_pubkey: vec![0x51],
    }];
    let stack = vec![Vec::new(), vec![0x51], vec![0xc0; 33]];
    let r = sign_p2tr(
        tx,
        0,
        leaf,
        test_key(1),
        TapSighashType::Default,
        one_prevout,
        stack,
    );
    assert_eq!(r.unwrap_err(), SignError::PrevoutCountMismatch);
}

#[test]
fn out_of_range_index_is_rejected() {
    let tx = make_tx(1);
    let leaf = vec![0x42u8; 32];
    let prevouts = vec![TxOut {
        value: 50000,
        script_pubkey: vec![0x51],
    }];
    let stack = vec![Vec::new(), vec![0x51], vec![0xc0; 33]];
    let r = sign_p2tr(
        tx,
        1,
        leaf,
        test_key(1),
        TapSighashType::Default,
        prevouts,
        stack,
    );
    assert_eq!(r.unwrap_err(), SignError::IndexError);

    let r = sign_p2wpkh(make_tx(1), vec![100000, 100000], test_key(1));
    assert_eq!(r.unwrap_err(), SignError::IndexError);

    let key = test_key(1);
    let pubkey = derive_public_key(&key).unwrap();
    let script = p2wpkh_script(&pubkey);
    let tx = make_tx(1);
    let r = segwit_v0_digest(&tx, 1, 100000, &script, EcdsaSighashType::All);
    assert_eq!(r.unwrap_err(), SignError::IndexError);
}

#[test]
fn taproot_witness_keeps_extra_items_in_order() {
    let key = test_key(5);
    let leaf = vec![0x42u8; 32];
    let prevouts = vec![TxOut {
        value: 50000,
        script_pubkey: vec![0x51],
    }];
    let stack = vec![
        Vec::new(),
        vec![0xaa],
        vec![0xbb, 0xbb],
        vec![0xcc],
        vec![0xdd],
    ];
    let signed = sign_p2tr(
        make_tx(1),
        0,
        leaf,
        key,
        TapSighashType::All,
        prevouts,
        stack,
    )
    .unwrap();
    let witness = &signed.inputs[0].witness;
    assert_eq!(witness.len(), 5);
    // Non-default sighash type: the type byte is appended to the signature.
    assert_eq!(witness[0].len(), 65);
    assert_eq!(*witness[0].last().unwrap(), 0x01u8);
    assert_eq!(witness[1], vec![0xaa]);
    assert_eq!(witness[2], vec![0xbb, 0xbb]);
    assert_eq!(witness[3], vec![0xcc]);
    assert_eq!(witness[4], vec![0xdd]);
}

#[test]
fn two_taproot_inputs_sign_with_distinct_keys() {
    // Two inputs each spending 50000 sats through the same leaf; the full
    // two-entry prevout set is required, then each input is signed with its
    // own key.
    let leaf = vec![0x4cu8; 32];
    let prevouts: Vec<TxOut> = (0..2)
        .map(|_| TxOut {
            value: 50000,
            script_pubkey: vec![0x51],
        })
        .collect();
    let stack = vec![Vec::new(), vec![0x51], vec![0xc0; 33]];

    let signed_once = sign_p2tr(
        make_tx(2),
        0,
        leaf.clone(),
        test_key(1),
        TapSighashType::Default,
        prevouts.clone(),
        stack.clone(),
    )
    .unwrap();
    let signed_twice = sign_p2tr(
        signed_once,
        1,
        leaf,
        test_key(2),
        TapSighashType::Default,
        prevouts,
        stack,
    )
    .unwrap();
    assert_eq!(signed_twice.inputs[0].witness.len(), 3);
    assert_eq!(signed_twice.inputs[1].witness.len(), 3);
    // Different keys over different digests: different signatures.
    assert_ne!(
        signed_twice.inputs[0].witness[0],
        signed_twice.inputs[1].witness[0]
    );
}

#[test]
fn single_sighash_without_matching_output_is_rejected() {
    // `Single` commits to the output at the signed input's index; a second
    // input with only one output has no matching output.
    let tx = make_tx(2);
    let leaf = vec![0x42u8; 32];
    let prevouts: Vec<TxOut> = (0..2)
        .map(|_| TxOut {
            value: 50000,
            script_pubkey: vec![0x51],
        })
        .collect();
    let r = taproot_script_digest(&tx, 1, &prevouts, &leaf, TapSighashType::Single);
    assert_eq!(r.unwrap_err(), SignError::IndexError);
}

#[test]
fn empty_value_list_signs_nothing() {
    let signed = sign_p2wpkh(make_tx(2), Vec::new(), test_key(1)).unwrap();
    assert_eq!(signed.inputs[0].witness.len(), 0);
    assert_eq!(signed.inputs[1].witness.len(), 0);
}

#[test]
fn bip143_native_p2wpkh_test_vector() {
    // The native-P2WPKH example from the BIP143 specification: the digest
    // for the second input, spending 600000000 sats, under sighash `All`.
    let tx = Transaction {
        version: 1,
        lock_time: 17,
        inputs: vec![
            TxIn {
                previous_output: OutPoint {
                    txid: hex::decode(
                        "fff7f7881a8099afa6940d42d1e7f6362bec38171ea3edf433541db4e4ad969f",
                    )
                    .unwrap(),
                    vout: 0,
                },
                script_sig: Vec::new(),
                sequence: 0xffffffee,
                witness: Vec::new(),
            },
            TxIn {
                previous_output: OutPoint {
                    txid: hex::decode(
                        "ef51e1b804cc89d182d279655c3aa89e815b1b309fe287d9b2b55d57b90ec68a",
                    )
                    .unwrap(),
                    vout: 1,
                },
                script_sig: Vec::new(),
                sequence: 0xffffffff,
                witness: Vec::new(),
            },
        ],
        outputs: vec![
            TxOut {
                value: 0x06b22c20,
                script_pubkey: hex::decode(
                    "76a9148280b37df378db99f66f85c95a783a76ac7a6d5988ac",
                )
                .unwrap(),
            },
            TxOut {
                value: 0x0d519390,
                script_pubkey: hex::decode(
                    "76a9143bde42dbee7e4dbe6a21b2d50ce2f0167faa815988ac",
                )
                .unwrap(),
            },
        ],
    };
    let script_pubkey =
        hex::decode("00141d0f172a0ecb48aee1be1f2687d2963ae33f71a1").unwrap();
    let digest =
        segwit_v0_digest(&tx, 1, 600000000, &script_pubkey, EcdsaSighashType::All).unwrap();
    assert_eq!(
        digest,
        hex::decode("c37af31116d1b27caf68aae9e3ac82f1477929014d5b917657d0eb49478cb670")
            .unwrap()
    );
}

#[test]
fn every_taproot_sighash_type_matches_reference_implementation() {
    let tx = make_tx(2);
    let leaf_hash = vec![0x42u8; 32];
    let prevouts: Vec<TxOut> = (0..2)
        .map(|i| TxOut {
            value: 50000 + i as u64,
            script_pubkey: vec![0x51],
        })
        .collect();
    let btx = to_bitcoin_tx(&tx);
    let bprevouts: Vec<bitcoin::TxOut> = prevouts
        .iter()
        .map(|o| bitcoin::TxOut {
            value: bitcoin::Amount::from_sat(o.value),
            script_pubkey: bitcoin::ScriptBuf::from_bytes(o.script_pubkey.clone()),
        })
        .collect();
    let cases = [
        (TapSighashType::Default, bitcoin::TapSighashType::Default),
        (TapSighashType::All, bitcoin::TapSighashType::All),
        (TapSighashType::NoOutputs, bitcoin::TapSighashType::None),
        (TapSighashType::Single, bitcoin::TapSighashType::Single),
        (
            TapSighashType::AllPlusAnyoneCanPay,
            bitcoin::TapSighashType::AllPlusAnyoneCanPay,
        ),
        (
            TapSighashType::NoOutputsPlusAnyoneCanPay,
            bitcoin::TapSighashType::NonePlusAnyoneCanPay,
        ),
        (
            TapSighashType::SinglePlusAnyoneCanPay,
            bitcoin::TapSighashType::SinglePlusAnyoneCanPay,
        ),
    ];
    for (mine, theirs) in cases {
        let digest = taproot_script_digest(&tx, 0, &prevouts, &leaf_hash, mine).unwrap();
        let mut cache = bitcoin::sighash::SighashCache::new(&btx);
        let expected = cache
            .taproot_script_spend_signature_hash(
                0,
                &bitcoin::sighash::Prevouts::All(&bprevouts),
                <bitcoin::TapLeafHash as bitcoin::hashes::Hash>::from_byte_array(
                    leaf_hash.clone().try_into().unwrap(),
                ),
                theirs,
            )
            .unwrap();
        assert_eq!(
            digest.as_slice(),
            bitcoin::hashes::Hash::to_byte_array(expected).as_slice(),
            "taproot digest mismatch for {:?}",
            mine
        );
    }
}

#[test]
fn every_segwit_sighash_type_matches_reference_implementation() {
    let key = test_key(1);
    let pubkey = derive_public_key(&key).unwrap();
    let script = p2wpkh_script(&pubkey);
    let tx = make_tx(2);
    let btx = to_bitcoin_tx(&tx);
    let cases = [
        (EcdsaSighashType::All, bitcoin::EcdsaSighashType::All),
        (EcdsaSighashType::NoOutputs, bitcoin::EcdsaSighashType::None),
        (EcdsaSighashType::Single, bitcoin::EcdsaSighashType::Single),
        (
            EcdsaSighashType::AllPlusAnyoneCanPay,
            bitcoin::EcdsaSighashType::AllPlusAnyoneCanPay,
        ),
        (
            EcdsaSighashType::NoOutputsPlusAnyoneCanPay,
            bitcoin::EcdsaSighashType::NonePlusAnyoneCanPay,
        ),
        (
            EcdsaSighashType::SinglePlusAnyoneCanPay,
            bitcoin::EcdsaSighashType::SinglePlusAnyoneCanPay,
        ),
    ];
    for index in 0..2 {
        for (mine, theirs) in cases {
            let digest = segwit_v0_digest(&tx, index, 100000, &script, mine).unwrap();
            let mut cache = bitcoin::sighash::SighashCache::new(&btx);
            let expected = cache
                .p2wpkh_signature_hash(
                    index,
                    bitcoin::Script::from_bytes(&script),
                    bitcoin::Amount::from_sat(100000),
                    theirs,
                )
                .unwrap();
            assert_eq!(
                digest.as_slice(),
                bitcoin::hashes::Hash::to_byte_array(expected).as_slice(),
                "segwit digest mismatch for {:?} at input {}",
                mine,
                index
            );
        }
    }
}
