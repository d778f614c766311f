use vstd::prelude::*;
use crate::types::{
    Transaction, TxOut, SpecTransaction, SpecTxIn, SpecTxOut, EcdsaSighashType, TapSighashType,
    SignError, spec_outputs_view,
};
use crate::encode::push_bytes;
use crate::digest::{
    spec_ecdsa_type_byte, spec_tap_type_byte, spec_is_p2wpkh_script, spec_p2wpkh_script_code,
    spec_segwit_v0_digest, spec_taproot_script_digest, spec_tap_is_single, segwit_v0_digest,
    taproot_script_digest, spec_same_up_to_witness, lemma_segwit_digest_ignores_witness,
    lemma_taproot_digest_ignores_witness,
};

verus! {

// The signer and the witness assembler: producing an ECDSA or Schnorr
// signature over a digest, and writing the per-input witness in the layout
// the spend type demands.

/// Whether 32 bytes form a valid secp256k1 secret key, named but not written
/// out here: it is decided by an outside call and depends on the bytes alone.
pub uninterp spec fn is_valid_seckey(key: Seq<u8>) -> bool;

/// The 33-byte compressed encoding of the public key belonging to a secret
/// key, a function of the key bytes alone.
pub uninterp spec fn pubkey_of(key: Seq<u8>) -> Seq<u8>;

/// The DER encoding of the RFC6979 (deterministic) ECDSA signature over a
/// 32-byte digest with a secret key, a function of digest and key alone.
pub uninterp spec fn ecdsa_sig_of(digest: Seq<u8>, key: Seq<u8>) -> Seq<u8>;

/// The 64-byte BIP340 Schnorr signature over a 32-byte digest with a secret
/// key when no auxiliary randomness is used, a function of digest and key
/// alone.
pub uninterp spec fn schnorr_sig_of(digest: Seq<u8>, key: Seq<u8>) -> Seq<u8>;

/// The 20-byte RIPEMD160-of-SHA256 hash of a byte string, a function of the
/// bytes alone.
pub uninterp spec fn hash160_of(data: Seq<u8>) -> Seq<u8>;

/// Relies on secp256k1::SecretKey::from_slice: it accepts exactly the
/// 32-byte strings that are valid secret scalars.
#[verifier::external_body]
fn seckey_valid(key: &Vec<u8>) -> (r: bool)
    ensures
        r == is_valid_seckey(key@),
{
    bitcoin::secp256k1::SecretKey::from_slice(key.as_slice()).is_ok()
}

/// Relies on secp256k1::PublicKey::from_secret_key and serialize: the
/// 33-byte compressed public key, a function of the secret key alone.
#[verifier::external_body]
fn derive_pubkey_raw(key: &Vec<u8>) -> (r: Vec<u8>)
    requires
        is_valid_seckey(key@),
    ensures
        r@ == pubkey_of(key@),
        r@.len() == 33,
{
    let secp = bitcoin::secp256k1::Secp256k1::new();
    let sk = bitcoin::secp256k1::SecretKey::from_slice(key.as_slice()).unwrap();
    bitcoin::secp256k1::PublicKey::from_secret_key(&secp, &sk).serialize().to_vec()
}

/// Relies on bitcoin::hashes::hash160::Hash::hash: the 20-byte RIPEMD160 of
/// SHA256, a function of the input bytes alone.
#[verifier::external_body]
fn hash160(data: &Vec<u8>) -> (r: Vec<u8>)
    ensures
        r@ == hash160_of(data@),
        r@.len() == 20,
{
    let h = <bitcoin::hashes::hash160::Hash as bitcoin::hashes::Hash>::hash(data.as_slice());
    bitcoin::hashes::Hash::to_byte_array(h).to_vec()
}

/// Relies on secp256k1::Secp256k1::sign_ecdsa (RFC6979 nonce, deterministic)
/// and serialize_der: the DER signature bytes depend on digest and key alone.
#[verifier::external_body]
fn ecdsa_sign_raw(digest: &Vec<u8>, key: &Vec<u8>) -> (r: Vec<u8>)
    requires
        digest@.len() == 32,
        is_valid_seckey(key@),
    ensures
        r@ == ecdsa_sig_of(digest@, key@),
{
    let secp = bitcoin::secp256k1::Secp256k1::new();
    let sk = bitcoin::secp256k1::SecretKey::from_slice(key.as_slice()).unwrap();
    let msg = bitcoin::secp256k1::Message::from_digest_slice(digest.as_slice()).unwrap();
    secp.sign_ecdsa(&msg, &sk).serialize_der().to_vec()
}

/// Relies on secp256k1::Secp256k1::sign_schnorr_no_aux_rand (BIP340 with no
/// auxiliary randomness, deterministic): the 64 signature bytes depend on
/// digest and key alone.
#[verifier::external_body]
fn schnorr_sign_raw(digest: &Vec<u8>, key: &Vec<u8>) -> (r: Vec<u8>)
    requires
        digest@.len() == 32,
        is_valid_seckey(key@),
    ensures
        r@ == schnorr_sig_of(digest@, key@),
        r@.len() == 64,
{
    let secp = bitcoin::secp256k1::Secp256k1::new();
    let kp = bitcoin::secp256k1::Keypair::from_seckey_slice(&secp, key.as_slice()).unwrap();
    let msg = bitcoin::secp256k1::Message::from_digest_slice(digest.as_slice()).unwrap();
    secp.sign_schnorr_no_aux_rand(&msg, &kp).as_ref().to_vec()
}

/// Copies a byte vector.
fn copy_bytes(src: &Vec<u8>) -> (r: Vec<u8>)
    ensures
        r@ == src@,
{
    let mut v: Vec<u8> = Vec::new();
    push_bytes(&mut v, src);
    proof {
        assert(v@ =~= src@);
    }
    v
}

/// Derives the compressed public key for a private key. Fails with
/// `InvalidKey` exactly when the bytes are not a valid secret key.
pub fn derive_public_key(private_key: &Vec<u8>) -> (r: Result<Vec<u8>, SignError>)
    ensures
        r is Ok <==> is_valid_seckey(private_key@),
        !is_valid_seckey(private_key@) ==> r == Err::<Vec<u8>, SignError>(SignError::InvalidKey),
        r matches Ok(pk) ==> pk@ == pubkey_of(private_key@) && pk@.len() == 33,
{
    if !seckey_valid(private_key) {
        return Err(SignError::InvalidKey);
    }
    Ok(derive_pubkey_raw(private_key))
}

/// Signs a 32-byte digest with deterministic ECDSA. Fails with
/// `InvalidDigestLength` when the digest is not 32 bytes and with
/// `InvalidKey` when the key is malformed; otherwise returns exactly the
/// DER-encoded deterministic signature for this digest and key.
pub fn sign_ecdsa(digest: &Vec<u8>, private_key: &Vec<u8>) -> (r: Result<Vec<u8>, SignError>)
    ensures
        r is Ok <==> digest@.len() == 32 && is_valid_seckey(private_key@),
        digest@.len() != 32 ==> r == Err::<Vec<u8>, SignError>(SignError::InvalidDigestLength),
        digest@.len() == 32 && !is_valid_seckey(private_key@) ==> r == Err::<Vec<u8>, SignError>(
            SignError::InvalidKey,
        ),
        r matches Ok(s) ==> s@ == ecdsa_sig_of(digest@, private_key@),
{
    if digest.len() != 32 {
        return Err(SignError::InvalidDigestLength);
    }
    if !seckey_valid(private_key) {
        return Err(SignError::InvalidKey);
    }
    Ok(ecdsa_sign_raw(digest, private_key))
}

/// Signs a 32-byte digest with deterministic BIP340 Schnorr. Fails with
/// `InvalidDigestLength` when the digest is not 32 bytes and with
/// `InvalidKey` when the key is malformed; otherwise returns exactly the
/// 64-byte deterministic signature for this digest and key.
pub fn sign_schnorr(digest: &Vec<u8>, private_key: &Vec<u8>) -> (r: Result<Vec<u8>, SignError>)
    ensures
        r is Ok <==> digest@.len() == 32 && is_valid_seckey(private_key@),
        digest@.len() != 32 ==> r == Err::<Vec<u8>, SignError>(SignError::InvalidDigestLength),
        digest@.len() == 32 && !is_valid_seckey(private_key@) ==> r == Err::<Vec<u8>, SignError>(
            SignError::InvalidKey,
        ),
        r matches Ok(s) ==> s@ == schnorr_sig_of(digest@, private_key@) && s@.len() == 64,
{
    if digest.len() != 32 {
        return Err(SignError::InvalidDigestLength);
    }
    if !seckey_valid(private_key) {
        return Err(SignError::InvalidKey);
    }
    Ok(schnorr_sign_raw(digest, private_key))
}

/// The P2WPKH locking script for a compressed public key: a version-0
/// witness program over the key's 20-byte hash.
pub open spec fn spec_p2wpkh_script(pk: Seq<u8>) -> Seq<u8> {
    seq![0u8, 0x14u8] + hash160_of(pk)
}

/// Builds the P2WPKH locking script for a public key.
pub fn p2wpkh_script(pubkey: &Vec<u8>) -> (r: Vec<u8>)
    ensures
        r@ == spec_p2wpkh_script(pubkey@),
        spec_is_p2wpkh_script(r@),
{
    let h = hash160(pubkey);
    let mut v: Vec<u8> = Vec::new();
    v.push(0);
    v.push(0x14);
    push_bytes(&mut v, &h);
    proof {
        assert(v@ =~= spec_p2wpkh_script(pubkey@));
    }
    v
}

/// An ECDSA signature as pushed into a witness: the DER bytes followed by
/// the sighash-type byte (always present for segwit v0).
pub open spec fn spec_ecdsa_sig_push(digest: Seq<u8>, key: Seq<u8>, t: EcdsaSighashType) -> Seq<
    u8,
> {
    ecdsa_sig_of(digest, key) + seq![spec_ecdsa_type_byte(t)]
}

/// A Schnorr signature as pushed into a witness: 64 bytes, with the
/// sighash-type byte appended only when the type is not `Default`.
pub open spec fn spec_tap_sig_push(sig: Seq<u8>, t: TapSighashType) -> Seq<u8> {
    if t == TapSighashType::Default {
        sig
    } else {
        sig + seq![spec_tap_type_byte(t)]
    }
}

/// Assembles the two-item P2WPKH witness: the signature with its trailing
/// sighash-type byte, then the public key bytes.
pub fn p2wpkh_witness(signature: &Vec<u8>, sighash_type: EcdsaSighashType, pubkey: &Vec<u8>) -> (w:
    Vec<Vec<u8>>)
    ensures
        w.deep_view() == seq![
            signature@ + seq![spec_ecdsa_type_byte(sighash_type)],
            pubkey@,
        ],
{
    let mut item0 = copy_bytes(signature);
    item0.push(crate::digest::ecdsa_type_byte(sighash_type));
    let item1 = copy_bytes(pubkey);
    let mut w: Vec<Vec<u8>> = Vec::new();
    w.push(item0);
    w.push(item1);
    proof {
        assert(w.deep_view() =~~= seq![
            signature@ + seq![spec_ecdsa_type_byte(sighash_type)],
            pubkey@,
        ]);
    }
    w
}

/// Assembles a Taproot script-path witness: the serialized signature first,
/// then the caller-supplied items after the signature slot, in their order.
/// The supplied stack reserves index 0 for the signature; a script-path
/// spend needs at least the leaf script and the control block after it, so
/// fewer than three items fail with `MissingWitnessItem`.
pub fn p2tr_witness(
    signature: &Vec<u8>,
    sighash_type: TapSighashType,
    witness_stack: &Vec<Vec<u8>>,
) -> (r: Result<Vec<Vec<u8>>, SignError>)
    ensures
        r is Ok <==> witness_stack@.len() >= 3,
        witness_stack@.len() < 3 ==> r == Err::<Vec<Vec<u8>>, SignError>(
            SignError::MissingWitnessItem,
        ),
        r matches Ok(w) ==> w.deep_view() == seq![
            spec_tap_sig_push(signature@, sighash_type),
        ] + witness_stack.deep_view().subrange(1, witness_stack@.len() as int),
{
    if witness_stack.len() < 3 {
        return Err(SignError::MissingWitnessItem);
    }
    let mut item0 = copy_bytes(signature);
    if !matches!(sighash_type, TapSighashType::Default) {
        item0.push(crate::digest::tap_type_byte(sighash_type));
    }
    proof {
        assert(item0@ == spec_tap_sig_push(signature@, sighash_type));
    }
    let mut w: Vec<Vec<u8>> = Vec::new();
    w.push(item0);
    let mut i: usize = 1;
    while i < witness_stack.len()
        invariant
            1 <= i <= witness_stack@.len(),
            w@.len() == i,
            w@[0]@ == spec_tap_sig_push(signature@, sighash_type),
            forall|j: int| 1 <= j < i ==> #[trigger] w@[j]@ == witness_stack@[j]@,
        decreases witness_stack@.len() - i,
    {
        let item = copy_bytes(&witness_stack[i]);
        w.push(item);
        i = i + 1;
    }
    proof {
        let target = seq![spec_tap_sig_push(signature@, sighash_type)]
            + witness_stack.deep_view().subrange(1, witness_stack@.len() as int);
        assert(w.deep_view().len() == target.len());
        assert forall|j: int| 0 <= j < w.deep_view().len() implies w.deep_view()[j]
            == target[j] by {
            assert(w@[j].deep_view() =~= w@[j]@);
            if j >= 1 {
                assert(witness_stack@[j].deep_view() =~= witness_stack@[j]@);
            }
        }
        assert(w.deep_view() =~= target);
    }
    Ok(w)
}

/// The witness a P2WPKH signing pass writes for input `i`: the deterministic
/// ECDSA signature over the input's BIP143 digest under sighash `All`, with
/// the type byte, then the public key.
pub open spec fn spec_p2wpkh_input_witness(
    tx: SpecTransaction,
    value: u64,
    key: Seq<u8>,
    i: int,
) -> Seq<Seq<u8>> {
    seq![
        spec_ecdsa_sig_push(
            spec_segwit_v0_digest(
                tx,
                i,
                value,
                spec_p2wpkh_script_code(spec_p2wpkh_script(pubkey_of(key))),
                EcdsaSighashType::All,
            ),
            key,
            EcdsaSighashType::All,
        ),
        pubkey_of(key),
    ]
}

/// The transaction after the P2WPKH signing pass: input `i` carries the
/// two-item witness for spent value `values[i]`, for each `i` with a value;
/// every other field is unchanged. All digests are those of the incoming
/// transaction, whose witnesses the digest does not read.
pub open spec fn spec_sign_p2wpkh_tx(
    tx: SpecTransaction,
    values: Seq<u64>,
    key: Seq<u8>,
) -> SpecTransaction {
    SpecTransaction {
        inputs: Seq::new(
            tx.inputs.len(),
            |i: int|
                if 0 <= i < values.len() {
                    SpecTxIn {
                        witness: spec_p2wpkh_input_witness(tx, values[i], key, i),
                        ..tx.inputs[i]
                    }
                } else {
                    tx.inputs[i]
                },
        ),
        ..tx
    }
}

/// The witness the Taproot signing pass writes: the serialized Schnorr
/// signature over the script-path digest, then the caller-supplied items
/// after the signature slot.
pub open spec fn spec_p2tr_input_witness(
    tx: SpecTransaction,
    index: int,
    prevouts: Seq<SpecTxOut>,
    leaf_hash: Seq<u8>,
    key: Seq<u8>,
    t: TapSighashType,
    stack: Seq<Seq<u8>>,
) -> Seq<Seq<u8>> {
    seq![
        spec_tap_sig_push(
            schnorr_sig_of(spec_taproot_script_digest(tx, index, prevouts, leaf_hash, t), key),
            t,
        ),
    ] + stack.subrange(1, stack.len() as int)
}

/// The transaction after the Taproot signing pass: only input `index`'s
/// witness is replaced.
pub open spec fn spec_sign_p2tr_tx(
    tx: SpecTransaction,
    index: int,
    prevouts: Seq<SpecTxOut>,
    leaf_hash: Seq<u8>,
    key: Seq<u8>,
    t: TapSighashType,
    stack: Seq<Seq<u8>>,
) -> SpecTransaction {
    SpecTransaction {
        inputs: tx.inputs.update(
            index,
            SpecTxIn {
                witness: spec_p2tr_input_witness(tx, index, prevouts, leaf_hash, key, t, stack),
                ..tx.inputs[index]
            },
        ),
        ..tx
    }
}

/// Signs the first `input_values.len()` inputs of `tx` as P2WPKH spends from
/// `private_key`, with sighash `All`: for each such input the BIP143 digest
/// over its spent value is signed with deterministic ECDSA and the two-item
/// witness is written, replacing whatever witness was there. Fails with
/// `InvalidKey` for a malformed key and `IndexError` when more values than
/// inputs are supplied; nothing else fails, and on success the result is
/// exactly the signed transaction.
pub fn sign_p2wpkh(tx: Transaction, input_values: Vec<u64>, private_key: Vec<u8>) -> (r: Result<
    Transaction,
    SignError,
>)
    ensures
        r is Ok <==> is_valid_seckey(private_key@) && input_values@.len() <= tx@.inputs.len(),
        !is_valid_seckey(private_key@) ==> r == Err::<Transaction, SignError>(SignError::InvalidKey),
        is_valid_seckey(private_key@) && input_values@.len() > tx@.inputs.len() ==> r == Err::<
            Transaction,
            SignError,
        >(SignError::IndexError),
        r matches Ok(t) ==> t@ == spec_sign_p2wpkh_tx(tx@, input_values@, private_key@),
{
    if !seckey_valid(&private_key) {
        return Err(SignError::InvalidKey);
    }
    if input_values.len() > tx.inputs.len() {
        return Err(SignError::IndexError);
    }
    let pubkey = derive_pubkey_raw(&private_key);
    let script = p2wpkh_script(&pubkey);
    let mut witnesses: Vec<Vec<Vec<u8>>> = Vec::new();
    let mut i: usize = 0;
    while i < input_values.len()
        invariant
            i <= input_values@.len(),
            input_values@.len() <= tx@.inputs.len(),
            is_valid_seckey(private_key@),
            pubkey@ == pubkey_of(private_key@),
            script@ == spec_p2wpkh_script(pubkey_of(private_key@)),
            spec_is_p2wpkh_script(script@),
            witnesses@.len() == i,
            forall|j: int|
                0 <= j < i ==> #[trigger] witnesses@[j].deep_view()
                    == spec_p2wpkh_input_witness(tx@, input_values@[j], private_key@, j),
        decreases input_values@.len() - i,
    {
        let digest = match segwit_v0_digest(
            &tx,
            i,
            input_values[i],
            &script,
            EcdsaSighashType::All,
        ) {
            Ok(d) => d,
            Err(e) => { return Err(e) },
        };
        let sig = ecdsa_sign_raw(&digest, &private_key);
        let w = p2wpkh_witness(&sig, EcdsaSighashType::All, &pubkey);
        witnesses.push(w);
        i = i + 1;
    }
    let mut signed = tx;
    let ghost orig = signed@;
    let ghost target = spec_sign_p2wpkh_tx(orig, input_values@, private_key@);
    let mut k: usize = 0;
    while k < witnesses.len()
        invariant
            k <= witnesses@.len(),
            witnesses@.len() == input_values@.len(),
            input_values@.len() <= orig.inputs.len(),
            target == spec_sign_p2wpkh_tx(orig, input_values@, private_key@),
            forall|j: int|
                0 <= j < witnesses@.len() ==> #[trigger] witnesses@[j].deep_view()
                    == spec_p2wpkh_input_witness(orig, input_values@[j], private_key@, j),
            signed.inputs@.len() == orig.inputs.len(),
            signed.version == orig.version,
            signed.lock_time == orig.lock_time,
            spec_outputs_view(signed.outputs@) == orig.outputs,
            forall|j: int|
                0 <= j < k ==> #[trigger] signed.inputs@[j]@ == target.inputs[j],
            forall|j: int|
                k <= j < orig.inputs.len() ==> #[trigger] signed.inputs@[j]@ == orig.inputs[j],
        decreases witnesses@.len() - k,
    {
        proof {
            assert(signed.inputs@[k as int]@ == orig.inputs[k as int]);
            assert(witnesses@[k as int].deep_view() == spec_p2wpkh_input_witness(
                orig,
                input_values@[k as int],
                private_key@,
                k as int,
            ));
        }
        let w = copy_witness(&witnesses[k]);
        signed.inputs[k].witness = w;
        k = k + 1;
        proof {
            let j = k as int - 1;
            assert(signed.inputs@[j]@.witness == spec_p2wpkh_input_witness(
                orig,
                input_values@[j],
                private_key@,
                j,
            ));
            assert(signed.inputs@[j]@ == target.inputs[j]);
        }
    }
    proof {
        assert(signed@.inputs =~= target.inputs);
        assert(signed@ == target);
    }
    Ok(signed)
}

/// Copies a witness stack.
fn copy_witness(src: &Vec<Vec<u8>>) -> (r: Vec<Vec<u8>>)
    ensures
        r.deep_view() == src.deep_view(),
        r@.len() == src@.len(),
{
    let mut v: Vec<Vec<u8>> = Vec::new();
    let mut i: usize = 0;
    while i < src.len()
        invariant
            i <= src@.len(),
            v@.len() == i,
            v.deep_view() =~~= src.deep_view().take(i as int),
        decreases src@.len() - i,
    {
        let item = copy_bytes(&src[i]);
        v.push(item);
        i = i + 1;
        proof {
            assert(src.deep_view()[i as int - 1] =~= src@[i as int - 1]@);
            assert(v.deep_view() =~~= src.deep_view().take(i as int));
        }
    }
    proof {
        assert(src.deep_view().take(src@.len() as int) =~~= src.deep_view());
    }
    v
}

/// Signs input `input_index` of `tx` as a Taproot script-path spend: the
/// BIP341 digest over the complete prevout set and the executed leaf is
/// signed with deterministic Schnorr, and the input's witness is replaced by
/// the signature followed by the supplied stack items after the signature
/// slot. Fails with `InvalidKey` for a malformed key, then with the digest's
/// errors (`PrevoutCountMismatch`, `IndexError`, `InvalidDigestLength`), and
/// with `MissingWitnessItem` when the stack has fewer than three items; on
/// success the result is exactly the signed transaction.
pub fn sign_p2tr(
    tx: Transaction,
    input_index: usize,
    leaf_hash: Vec<u8>,
    private_key: Vec<u8>,
    sighash_type: TapSighashType,
    prevouts: Vec<TxOut>,
    witness_stack: Vec<Vec<u8>>,
) -> (r: Result<Transaction, SignError>)
    ensures
        r is Ok <==> is_valid_seckey(private_key@) && prevouts@.len() == tx@.inputs.len()
            && input_index < tx@.inputs.len() && leaf_hash@.len() == 32 && (spec_tap_is_single(
            sighash_type,
        ) ==> input_index < tx@.outputs.len()) && witness_stack@.len() >= 3,
        !is_valid_seckey(private_key@) ==> r == Err::<Transaction, SignError>(SignError::InvalidKey),
        is_valid_seckey(private_key@) && prevouts@.len() != tx@.inputs.len() ==> r == Err::<
            Transaction,
            SignError,
        >(SignError::PrevoutCountMismatch),
        is_valid_seckey(private_key@) && prevouts@.len() == tx@.inputs.len() && input_index
            >= tx@.inputs.len() ==> r == Err::<Transaction, SignError>(SignError::IndexError),
        is_valid_seckey(private_key@) && prevouts@.len() == tx@.inputs.len() && input_index
            < tx@.inputs.len() && leaf_hash@.len() != 32 ==> r == Err::<Transaction, SignError>(
            SignError::InvalidDigestLength,
        ),
        is_valid_seckey(private_key@) && prevouts@.len() == tx@.inputs.len() && input_index
            < tx@.inputs.len() && leaf_hash@.len() == 32 && spec_tap_is_single(sighash_type)
            && input_index >= tx@.outputs.len() ==> r == Err::<Transaction, SignError>(
            SignError::IndexError,
        ),
        is_valid_seckey(private_key@) && prevouts@.len() == tx@.inputs.len() && input_index
            < tx@.inputs.len() && leaf_hash@.len() == 32 && (spec_tap_is_single(sighash_type)
            ==> input_index < tx@.outputs.len()) && witness_stack@.len() < 3 ==> r == Err::<
            Transaction,
            SignError,
        >(SignError::MissingWitnessItem),
        r matches Ok(t) ==> t@ == spec_sign_p2tr_tx(
            tx@,
            input_index as int,
            spec_outputs_view(prevouts@),
            leaf_hash@,
            private_key@,
            sighash_type,
            witness_stack.deep_view(),
        ),
{
    if !seckey_valid(&private_key) {
        return Err(SignError::InvalidKey);
    }
    let digest = match taproot_script_digest(&tx, input_index, &prevouts, &leaf_hash, sighash_type)
        {
        Ok(d) => d,
        Err(e) => { return Err(e) },
    };
    let sig = schnorr_sign_raw(&digest, &private_key);
    let witness = match p2tr_witness(&sig, sighash_type, &witness_stack) {
        Ok(w) => w,
        Err(e) => { return Err(e) },
    };
    let mut signed = tx;
    let ghost orig = signed@;
    signed.inputs[input_index].witness = witness;
    proof {
        assert(signed@.inputs =~= spec_sign_p2tr_tx(
            orig,
            input_index as int,
            spec_outputs_view(prevouts@),
            leaf_hash@,
            private_key@,
            sighash_type,
            witness_stack.deep_view(),
        ).inputs);
        assert(signed@ == spec_sign_p2tr_tx(
            orig,
            input_index as int,
            spec_outputs_view(prevouts@),
            leaf_hash@,
            private_key@,
            sighash_type,
            witness_stack.deep_view(),
        ));
    }
    Ok(signed)
}

/// Law: signing is deterministic. The signed transaction is a function of
/// the unsigned transaction, the spent values, and the key alone: equal
/// arguments give byte-identical results, because the digests and the
/// RFC6979 ECDSA signatures involve no randomness.
pub proof fn lemma_sign_p2wpkh_deterministic(
    tx1: SpecTransaction,
    values1: Seq<u64>,
    key1: Seq<u8>,
    tx2: SpecTransaction,
    values2: Seq<u64>,
    key2: Seq<u8>,
)
    requires
        tx1 == tx2,
        values1 == values2,
        key1 == key2,
    ensures
        spec_sign_p2wpkh_tx(tx1, values1, key1) == spec_sign_p2wpkh_tx(tx2, values2, key2),
{
}

/// Law: Taproot signing is deterministic in the same way: equal arguments
/// give byte-identical signed transactions, because the BIP341 digest and
/// the no-auxiliary-randomness Schnorr signature involve no randomness.
pub proof fn lemma_sign_p2tr_deterministic(
    tx1: SpecTransaction,
    index1: int,
    prevouts1: Seq<SpecTxOut>,
    leaf1: Seq<u8>,
    key1: Seq<u8>,
    t1: TapSighashType,
    stack1: Seq<Seq<u8>>,
    tx2: SpecTransaction,
    index2: int,
    prevouts2: Seq<SpecTxOut>,
    leaf2: Seq<u8>,
    key2: Seq<u8>,
    t2: TapSighashType,
    stack2: Seq<Seq<u8>>,
)
    requires
        tx1 == tx2,
        index1 == index2,
        prevouts1 == prevouts2,
        leaf1 == leaf2,
        key1 == key2,
        t1 == t2,
        stack1 == stack2,
    ensures
        spec_sign_p2tr_tx(tx1, index1, prevouts1, leaf1, key1, t1, stack1) == spec_sign_p2tr_tx(
            tx2,
            index2,
            prevouts2,
            leaf2,
            key2,
            t2,
            stack2,
        ),
{
}

/// Law: a signed P2WPKH input's witness has exactly two items, and the
/// second item is exactly the signer's public key bytes.
pub proof fn lemma_p2wpkh_witness_layout(
    tx: SpecTransaction,
    values: Seq<u64>,
    key: Seq<u8>,
    i: int,
)
    requires
        0 <= i < values.len(),
        values.len() <= tx.inputs.len(),
    ensures
        spec_sign_p2wpkh_tx(tx, values, key).inputs[i].witness.len() == 2,
        spec_sign_p2wpkh_tx(tx, values, key).inputs[i].witness[1] == pubkey_of(key),
{
}

/// Law: re-signing is idempotent. Running the P2WPKH signing pass on its own
/// output overwrites each witness with the same two items, because the
/// digests never read the witnesses it wrote.
pub proof fn lemma_sign_p2wpkh_idempotent(tx: SpecTransaction, values: Seq<u64>, key: Seq<u8>)
    requires
        values.len() <= tx.inputs.len(),
    ensures
        spec_sign_p2wpkh_tx(spec_sign_p2wpkh_tx(tx, values, key), values, key)
            == spec_sign_p2wpkh_tx(tx, values, key),
{
    let s1 = spec_sign_p2wpkh_tx(tx, values, key);
    let s2 = spec_sign_p2wpkh_tx(s1, values, key);
    assert(spec_same_up_to_witness(s1, tx));
    assert forall|i: int| 0 <= i < values.len() implies spec_p2wpkh_input_witness(
        s1,
        values[i],
        key,
        i,
    ) == spec_p2wpkh_input_witness(tx, values[i], key, i) by {
        lemma_segwit_digest_ignores_witness(
            s1,
            tx,
            i,
            values[i],
            spec_p2wpkh_script_code(spec_p2wpkh_script(pubkey_of(key))),
            EcdsaSighashType::All,
        );
    }
    assert(s2.inputs =~= s1.inputs);
    assert(s2 == s1);
}

/// Law: Taproot re-signing is idempotent in the same way: signing the same
/// input of an already-signed transaction with the same parameters replaces
/// the witness with the same items.
pub proof fn lemma_sign_p2tr_idempotent(
    tx: SpecTransaction,
    index: int,
    prevouts: Seq<SpecTxOut>,
    leaf_hash: Seq<u8>,
    key: Seq<u8>,
    t: TapSighashType,
    stack: Seq<Seq<u8>>,
)
    requires
        0 <= index < tx.inputs.len(),
    ensures
        spec_sign_p2tr_tx(
            spec_sign_p2tr_tx(tx, index, prevouts, leaf_hash, key, t, stack),
            index,
            prevouts,
            leaf_hash,
            key,
            t,
            stack,
        ) == spec_sign_p2tr_tx(tx, index, prevouts, leaf_hash, key, t, stack),
{
    let s1 = spec_sign_p2tr_tx(tx, index, prevouts, leaf_hash, key, t, stack);
    let s2 = spec_sign_p2tr_tx(s1, index, prevouts, leaf_hash, key, t, stack);
    assert(spec_same_up_to_witness(s1, tx));
    lemma_taproot_digest_ignores_witness(s1, tx, index, prevouts, leaf_hash, t);
    assert(s2.inputs =~= s1.inputs);
    assert(s2 == s1);
}

} // verus!
