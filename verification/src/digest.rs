use vstd::prelude::*;
use crate::types::{
    Transaction, TxOut, SpecTransaction, SpecTxOut, EcdsaSighashType, TapSighashType, SignError,
    spec_outputs_view,
};
use crate::encode::{
    lemma_ser_outpoints_congruent, lemma_ser_sequences_congruent, spec_u32_le, spec_u64_le,
    spec_ser_var_bytes, spec_ser_outpoint, spec_ser_txout, spec_ser_outpoints, spec_ser_sequences,
    spec_ser_amounts, spec_ser_script_pubkeys, spec_ser_txouts, push_u32_le, push_u64_le,
    push_bytes, push_var_bytes, push_outpoint, push_txout, ser_outpoints, ser_sequences,
    ser_amounts, ser_script_pubkeys, ser_txouts,
};

verus! {

// The digest builder: the exact byte sequences committed by a signature, per
// spend type, and the hashes over them. The segwit v0 construction follows
// BIP143; the Taproot script-path construction follows BIP341/BIP342.

/// The 32-byte SHA-256 digest of `data`, named but not written out here: it
/// is computed by an outside call and is a function of the bytes alone.
pub uninterp spec fn sha256_of(data: Seq<u8>) -> Seq<u8>;

/// Relies on bitcoin::hashes::sha256::Hash::hash: the 32-byte SHA-256 digest
/// of the input, a function of the input bytes alone.
#[verifier::external_body]
fn sha256(data: &Vec<u8>) -> (r: Vec<u8>)
    ensures
        r@ == sha256_of(data@),
        r@.len() == 32,
{
    let h = <bitcoin::hashes::sha256::Hash as bitcoin::hashes::Hash>::hash(data.as_slice());
    bitcoin::hashes::Hash::to_byte_array(h).to_vec()
}

/// Double SHA-256, the hash BIP143 commits with.
pub open spec fn spec_sha256d(data: Seq<u8>) -> Seq<u8> {
    sha256_of(sha256_of(data))
}

/// BIP340 tagged hash: SHA-256 over the tag's digest twice, then the message.
pub open spec fn spec_tagged_hash(tag: Seq<u8>, msg: Seq<u8>) -> Seq<u8> {
    sha256_of(sha256_of(tag) + sha256_of(tag) + msg)
}

/// The ASCII bytes of the BIP341 sighash tag.
pub open spec fn spec_tap_sighash_tag() -> Seq<u8> {
    seq![84u8, 97u8, 112u8, 83u8, 105u8, 103u8, 104u8, 97u8, 115u8, 104u8]
}

/// Thirty-two zero bytes, the placeholder hash BIP143 uses for fields a
/// sighash type does not commit to.
pub open spec fn spec_zeros32() -> Seq<u8> {
    Seq::new(32, |i: int| 0u8)
}

/// Computes double SHA-256.
pub fn sha256d(data: &Vec<u8>) -> (r: Vec<u8>)
    ensures
        r@ == spec_sha256d(data@),
        r@.len() == 32,
{
    let first = sha256(data);
    sha256(&first)
}

/// Computes the BIP340 tagged hash of `msg` under `tag`.
pub fn tagged_hash(tag: &Vec<u8>, msg: &Vec<u8>) -> (r: Vec<u8>)
    ensures
        r@ == spec_tagged_hash(tag@, msg@),
        r@.len() == 32,
{
    let tag_digest = sha256(tag);
    let mut buf: Vec<u8> = Vec::new();
    push_bytes(&mut buf, &tag_digest);
    push_bytes(&mut buf, &tag_digest);
    push_bytes(&mut buf, msg);
    proof {
        assert(buf@ =~= sha256_of(tag@) + sha256_of(tag@) + msg@);
    }
    sha256(&buf)
}

/// Builds the BIP341 sighash tag as bytes.
pub fn tap_sighash_tag() -> (r: Vec<u8>)
    ensures
        r@ == spec_tap_sighash_tag(),
{
    let mut v: Vec<u8> = Vec::new();
    v.push(84);
    v.push(97);
    v.push(112);
    v.push(83);
    v.push(105);
    v.push(103);
    v.push(104);
    v.push(97);
    v.push(115);
    v.push(104);
    proof {
        assert(v@ =~= spec_tap_sighash_tag());
    }
    v
}

/// Builds thirty-two zero bytes.
pub fn zeros32() -> (r: Vec<u8>)
    ensures
        r@ == spec_zeros32(),
{
    let mut v: Vec<u8> = Vec::new();
    let mut i: usize = 0;
    while i < 32
        invariant
            i <= 32,
            v@ =~= Seq::new(i as nat, |j: int| 0u8),
        decreases 32 - i,
    {
        v.push(0);
        i = i + 1;
        proof {
            assert(v@ =~= Seq::new(i as nat, |j: int| 0u8));
        }
    }
    proof {
        assert(v@ =~= spec_zeros32());
    }
    v
}

/// The byte a segwit v0 sighash type serializes to.
pub open spec fn spec_ecdsa_type_byte(t: EcdsaSighashType) -> u8 {
    match t {
        EcdsaSighashType::All => 0x01,
        EcdsaSighashType::NoOutputs => 0x02,
        EcdsaSighashType::Single => 0x03,
        EcdsaSighashType::AllPlusAnyoneCanPay => 0x81,
        EcdsaSighashType::NoOutputsPlusAnyoneCanPay => 0x82,
        EcdsaSighashType::SinglePlusAnyoneCanPay => 0x83,
    }
}

/// Whether a segwit v0 sighash type commits only to the signed input.
pub open spec fn spec_ecdsa_is_acp(t: EcdsaSighashType) -> bool {
    match t {
        EcdsaSighashType::AllPlusAnyoneCanPay => true,
        EcdsaSighashType::NoOutputsPlusAnyoneCanPay => true,
        EcdsaSighashType::SinglePlusAnyoneCanPay => true,
        _ => false,
    }
}

/// Whether a segwit v0 sighash type commits only to the matching output.
pub open spec fn spec_ecdsa_is_single(t: EcdsaSighashType) -> bool {
    t == EcdsaSighashType::Single || t == EcdsaSighashType::SinglePlusAnyoneCanPay
}

/// Whether a segwit v0 sighash type commits to no outputs.
pub open spec fn spec_ecdsa_is_none(t: EcdsaSighashType) -> bool {
    t == EcdsaSighashType::NoOutputs || t == EcdsaSighashType::NoOutputsPlusAnyoneCanPay
}

/// The byte a Taproot sighash type serializes to (`Default` is zero).
pub open spec fn spec_tap_type_byte(t: TapSighashType) -> u8 {
    match t {
        TapSighashType::Default => 0x00,
        TapSighashType::All => 0x01,
        TapSighashType::NoOutputs => 0x02,
        TapSighashType::Single => 0x03,
        TapSighashType::AllPlusAnyoneCanPay => 0x81,
        TapSighashType::NoOutputsPlusAnyoneCanPay => 0x82,
        TapSighashType::SinglePlusAnyoneCanPay => 0x83,
    }
}

/// Whether a Taproot sighash type commits only to the signed input.
pub open spec fn spec_tap_is_acp(t: TapSighashType) -> bool {
    match t {
        TapSighashType::AllPlusAnyoneCanPay => true,
        TapSighashType::NoOutputsPlusAnyoneCanPay => true,
        TapSighashType::SinglePlusAnyoneCanPay => true,
        _ => false,
    }
}

/// Whether a Taproot sighash type commits only to the matching output.
pub open spec fn spec_tap_is_single(t: TapSighashType) -> bool {
    t == TapSighashType::Single || t == TapSighashType::SinglePlusAnyoneCanPay
}

/// Whether a Taproot sighash type commits to no outputs.
pub open spec fn spec_tap_is_none(t: TapSighashType) -> bool {
    t == TapSighashType::NoOutputs || t == TapSighashType::NoOutputsPlusAnyoneCanPay
}

/// Whether `s` is a P2WPKH locking script: version-0 push of a 20-byte hash.
pub open spec fn spec_is_p2wpkh_script(s: Seq<u8>) -> bool {
    s.len() == 22 && s[0] == 0u8 && s[1] == 0x14u8
}

/// The BIP143 script code for a P2WPKH locking script: the legacy
/// pay-to-public-key-hash script over the same 20-byte hash.
pub open spec fn spec_p2wpkh_script_code(s: Seq<u8>) -> Seq<u8> {
    seq![0x76u8, 0xa9u8, 0x14u8] + s.subrange(2, 22) + seq![0x88u8, 0xacu8]
}

/// The hash of all input outpoints that BIP143 commits, or zeros when the
/// type signs only the one input.
pub open spec fn spec_bip143_hash_prevouts(tx: SpecTransaction, t: EcdsaSighashType) -> Seq<u8> {
    if spec_ecdsa_is_acp(t) {
        spec_zeros32()
    } else {
        spec_sha256d(spec_ser_outpoints(tx.inputs))
    }
}

/// The hash of all input sequence numbers that BIP143 commits, or zeros.
pub open spec fn spec_bip143_hash_sequences(tx: SpecTransaction, t: EcdsaSighashType) -> Seq<u8> {
    if !spec_ecdsa_is_acp(t) && !spec_ecdsa_is_single(t) && !spec_ecdsa_is_none(t) {
        spec_sha256d(spec_ser_sequences(tx.inputs))
    } else {
        spec_zeros32()
    }
}

/// The hash of the outputs that BIP143 commits: all of them, only the one
/// matching the signed input, or none.
pub open spec fn spec_bip143_hash_outputs(
    tx: SpecTransaction,
    index: int,
    t: EcdsaSighashType,
) -> Seq<u8> {
    if !spec_ecdsa_is_single(t) && !spec_ecdsa_is_none(t) {
        spec_sha256d(spec_ser_txouts(tx.outputs))
    } else if spec_ecdsa_is_single(t) && index < tx.outputs.len() {
        spec_sha256d(spec_ser_txout(tx.outputs[index]))
    } else {
        spec_zeros32()
    }
}

/// The exact BIP143 preimage for one input: version, the three field hashes,
/// the signed input's outpoint, the script code, the spent value, the
/// sequence number, the locktime, and the sighash type.
pub open spec fn spec_bip143_preimage(
    tx: SpecTransaction,
    index: int,
    value: u64,
    script_code: Seq<u8>,
    t: EcdsaSighashType,
) -> Seq<u8> {
    spec_u32_le(tx.version) + spec_bip143_hash_prevouts(tx, t) + spec_bip143_hash_sequences(tx, t)
        + spec_ser_outpoint(tx.inputs[index].previous_output) + spec_ser_var_bytes(script_code)
        + spec_u64_le(value) + spec_u32_le(tx.inputs[index].sequence) + spec_bip143_hash_outputs(
        tx,
        index,
        t,
    ) + spec_u32_le(tx.lock_time) + spec_u32_le(spec_ecdsa_type_byte(t) as u32)
}

/// The segwit v0 digest: double SHA-256 of the BIP143 preimage.
pub open spec fn spec_segwit_v0_digest(
    tx: SpecTransaction,
    index: int,
    value: u64,
    script_code: Seq<u8>,
    t: EcdsaSighashType,
) -> Seq<u8> {
    spec_sha256d(spec_bip143_preimage(tx, index, value, script_code, t))
}

/// The exact BIP341/BIP342 signature message for a script-path spend: the
/// epoch, the sighash type, version and locktime, the committed prevout and
/// output hashes, the spend type, the signed input (or its full data for
/// anyone-can-pay), the leaf hash, key version, and code-separator position.
pub open spec fn spec_bip341_msg(
    tx: SpecTransaction,
    index: int,
    prevouts: Seq<SpecTxOut>,
    leaf_hash: Seq<u8>,
    t: TapSighashType,
) -> Seq<u8> {
    seq![0u8, spec_tap_type_byte(t)] + spec_u32_le(tx.version) + spec_u32_le(tx.lock_time) + (
    if !spec_tap_is_acp(t) {
        sha256_of(spec_ser_outpoints(tx.inputs)) + sha256_of(spec_ser_amounts(prevouts))
            + sha256_of(spec_ser_script_pubkeys(prevouts)) + sha256_of(
            spec_ser_sequences(tx.inputs),
        )
    } else {
        Seq::<u8>::empty()
    }) + (if !spec_tap_is_none(t) && !spec_tap_is_single(t) {
        sha256_of(spec_ser_txouts(tx.outputs))
    } else {
        Seq::<u8>::empty()
    }) + seq![2u8] + (if spec_tap_is_acp(t) {
        spec_ser_outpoint(tx.inputs[index].previous_output) + spec_u64_le(prevouts[index].value)
            + spec_ser_var_bytes(prevouts[index].script_pubkey) + spec_u32_le(
            tx.inputs[index].sequence,
        )
    } else {
        spec_u32_le(index as u32)
    }) + (if spec_tap_is_single(t) {
        sha256_of(spec_ser_txout(tx.outputs[index]))
    } else {
        Seq::<u8>::empty()
    }) + leaf_hash + seq![0u8] + spec_u32_le(0xffffffffu32)
}

/// The Taproot script-path digest: the tagged hash of the signature message.
pub open spec fn spec_taproot_script_digest(
    tx: SpecTransaction,
    index: int,
    prevouts: Seq<SpecTxOut>,
    leaf_hash: Seq<u8>,
    t: TapSighashType,
) -> Seq<u8> {
    spec_tagged_hash(spec_tap_sighash_tag(), spec_bip341_msg(tx, index, prevouts, leaf_hash, t))
}

/// Computes the BIP143 digest for input `input_index` spending `value` from
/// a P2WPKH locking script. Fails with `IndexError` on an out-of-range index
/// and with `ScriptError` when the script is not P2WPKH-shaped.
pub fn segwit_v0_digest(
    tx: &Transaction,
    input_index: usize,
    value: u64,
    script_pubkey: &Vec<u8>,
    sighash_type: EcdsaSighashType,
) -> (r: Result<Vec<u8>, SignError>)
    ensures
        r is Ok <==> input_index < tx@.inputs.len() && spec_is_p2wpkh_script(script_pubkey@),
        !spec_is_p2wpkh_script(script_pubkey@) ==> r == Err::<Vec<u8>, SignError>(
            SignError::ScriptError,
        ),
        spec_is_p2wpkh_script(script_pubkey@) && input_index >= tx@.inputs.len() ==> r == Err::<
            Vec<u8>,
            SignError,
        >(SignError::IndexError),
        r is Ok ==> r.unwrap()@ == spec_segwit_v0_digest(
            tx@,
            input_index as int,
            value,
            spec_p2wpkh_script_code(script_pubkey@),
            sighash_type,
        ) && r.unwrap()@.len() == 32,
{
    if !(script_pubkey.len() == 22 && script_pubkey[0] == 0 && script_pubkey[1] == 0x14) {
        return Err(SignError::ScriptError);
    }
    if input_index >= tx.inputs.len() {
        return Err(SignError::IndexError);
    }
    let mut script_code: Vec<u8> = Vec::new();
    script_code.push(0x76);
    script_code.push(0xa9);
    script_code.push(0x14);
    let mut j: usize = 2;
    while j < 22
        invariant
            2 <= j <= 22,
            script_pubkey@.len() == 22,
            script_code@ == seq![0x76u8, 0xa9u8, 0x14u8] + script_pubkey@.subrange(2, j as int),
        decreases 22 - j,
    {
        script_code.push(script_pubkey[j]);
        j = j + 1;
        proof {
            assert(script_code@ =~= seq![0x76u8, 0xa9u8, 0x14u8] + script_pubkey@.subrange(
                2,
                j as int,
            ));
        }
    }
    script_code.push(0x88);
    script_code.push(0xac);
    proof {
        assert(script_code@ =~= spec_p2wpkh_script_code(script_pubkey@));
    }
    let is_acp = matches!(
        sighash_type,
        EcdsaSighashType::AllPlusAnyoneCanPay
        | EcdsaSighashType::NoOutputsPlusAnyoneCanPay
        | EcdsaSighashType::SinglePlusAnyoneCanPay
    );
    let is_single = matches!(
        sighash_type,
        EcdsaSighashType::Single | EcdsaSighashType::SinglePlusAnyoneCanPay
    );
    let is_none = matches!(
        sighash_type,
        EcdsaSighashType::NoOutputs | EcdsaSighashType::NoOutputsPlusAnyoneCanPay
    );
    let hash_prevouts: Vec<u8> = if is_acp {
        zeros32()
    } else {
        let ser = ser_outpoints(&tx.inputs);
        sha256d(&ser)
    };
    let hash_sequences: Vec<u8> = if !is_acp && !is_single && !is_none {
        let ser = ser_sequences(&tx.inputs);
        sha256d(&ser)
    } else {
        zeros32()
    };
    let hash_outputs: Vec<u8> = if !is_single && !is_none {
        let ser = ser_txouts(&tx.outputs);
        sha256d(&ser)
    } else if is_single && input_index < tx.outputs.len() {
        let mut ser: Vec<u8> = Vec::new();
        push_txout(&mut ser, &tx.outputs[input_index]);
        sha256d(&ser)
    } else {
        zeros32()
    };
    let type_byte = ecdsa_type_byte(sighash_type);
    let mut pre: Vec<u8> = Vec::new();
    push_u32_le(&mut pre, tx.version);
    push_bytes(&mut pre, &hash_prevouts);
    push_bytes(&mut pre, &hash_sequences);
    push_outpoint(&mut pre, &tx.inputs[input_index].previous_output);
    push_var_bytes(&mut pre, &script_code);
    push_u64_le(&mut pre, value);
    push_u32_le(&mut pre, tx.inputs[input_index].sequence);
    push_bytes(&mut pre, &hash_outputs);
    push_u32_le(&mut pre, tx.lock_time);
    push_u32_le(&mut pre, type_byte as u32);
    proof {
        assert(tx@.inputs[input_index as int] == tx.inputs@[input_index as int]@);
        assert(tx@.outputs.len() == tx.outputs@.len());
        if spec_ecdsa_is_single(sighash_type) && (input_index as int) < tx@.outputs.len() {
            assert(tx@.outputs[input_index as int] == tx.outputs@[input_index as int]@);
        }
        assert(pre@ =~= spec_bip143_preimage(
            tx@,
            input_index as int,
            value,
            spec_p2wpkh_script_code(script_pubkey@),
            sighash_type,
        ));
    }
    Ok(sha256d(&pre))
}

/// The byte a segwit v0 sighash type serializes to.
pub fn ecdsa_type_byte(t: EcdsaSighashType) -> (r: u8)
    ensures
        r == spec_ecdsa_type_byte(t),
{
    match t {
        EcdsaSighashType::All => 0x01,
        EcdsaSighashType::NoOutputs => 0x02,
        EcdsaSighashType::Single => 0x03,
        EcdsaSighashType::AllPlusAnyoneCanPay => 0x81,
        EcdsaSighashType::NoOutputsPlusAnyoneCanPay => 0x82,
        EcdsaSighashType::SinglePlusAnyoneCanPay => 0x83,
    }
}

/// The byte a Taproot sighash type serializes to.
pub fn tap_type_byte(t: TapSighashType) -> (r: u8)
    ensures
        r == spec_tap_type_byte(t),
{
    match t {
        TapSighashType::Default => 0x00,
        TapSighashType::All => 0x01,
        TapSighashType::NoOutputs => 0x02,
        TapSighashType::Single => 0x03,
        TapSighashType::AllPlusAnyoneCanPay => 0x81,
        TapSighashType::NoOutputsPlusAnyoneCanPay => 0x82,
        TapSighashType::SinglePlusAnyoneCanPay => 0x83,
    }
}

/// Computes the BIP341 script-path digest for input `input_index`, given the
/// complete ordered prevout set and the executed leaf's hash. Fails with
/// `PrevoutCountMismatch` when the prevout set does not have one entry per
/// input, `IndexError` on an out-of-range input (or, for `Single` types,
/// output) index, and `InvalidDigestLength` when the leaf hash is not 32
/// bytes.
#[verifier::rlimit(60)]
pub fn taproot_script_digest(
    tx: &Transaction,
    input_index: usize,
    prevouts: &Vec<TxOut>,
    leaf_hash: &Vec<u8>,
    sighash_type: TapSighashType,
) -> (r: Result<Vec<u8>, SignError>)
    ensures
        r is Ok <==> prevouts@.len() == tx@.inputs.len() && input_index < tx@.inputs.len()
            && leaf_hash@.len() == 32 && (spec_tap_is_single(sighash_type) ==> input_index
            < tx@.outputs.len()),
        prevouts@.len() != tx@.inputs.len() ==> r == Err::<Vec<u8>, SignError>(
            SignError::PrevoutCountMismatch,
        ),
        prevouts@.len() == tx@.inputs.len() && input_index >= tx@.inputs.len() ==> r == Err::<
            Vec<u8>,
            SignError,
        >(SignError::IndexError),
        prevouts@.len() == tx@.inputs.len() && input_index < tx@.inputs.len() && leaf_hash@.len()
            != 32 ==> r == Err::<Vec<u8>, SignError>(SignError::InvalidDigestLength),
        prevouts@.len() == tx@.inputs.len() && input_index < tx@.inputs.len() && leaf_hash@.len()
            == 32 && spec_tap_is_single(sighash_type) && input_index >= tx@.outputs.len() ==> r
            == Err::<Vec<u8>, SignError>(SignError::IndexError),
        r is Ok ==> r.unwrap()@ == spec_taproot_script_digest(
            tx@,
            input_index as int,
            spec_outputs_view(prevouts@),
            leaf_hash@,
            sighash_type,
        ) && r.unwrap()@.len() == 32,
{
    if prevouts.len() != tx.inputs.len() {
        return Err(SignError::PrevoutCountMismatch);
    }
    if input_index >= tx.inputs.len() {
        return Err(SignError::IndexError);
    }
    if leaf_hash.len() != 32 {
        return Err(SignError::InvalidDigestLength);
    }
    let is_acp = matches!(
        sighash_type,
        TapSighashType::AllPlusAnyoneCanPay
        | TapSighashType::NoOutputsPlusAnyoneCanPay
        | TapSighashType::SinglePlusAnyoneCanPay
    );
    let is_single = matches!(
        sighash_type,
        TapSighashType::Single | TapSighashType::SinglePlusAnyoneCanPay
    );
    let is_none = matches!(
        sighash_type,
        TapSighashType::NoOutputs | TapSighashType::NoOutputsPlusAnyoneCanPay
    );
    if is_single && input_index >= tx.outputs.len() {
        return Err(SignError::IndexError);
    }
    let type_byte = tap_type_byte(sighash_type);
    let ghost pv = spec_outputs_view(prevouts@);
    let mut msg: Vec<u8> = Vec::new();
    msg.push(0);
    msg.push(type_byte);
    push_u32_le(&mut msg, tx.version);
    push_u32_le(&mut msg, tx.lock_time);
    proof {
        assert(msg@ =~= seq![0u8, spec_tap_type_byte(sighash_type)] + spec_u32_le(tx.version)
            + spec_u32_le(tx.lock_time));
    }
    let ghost head = msg@;
    let ghost prevout_hashes = if !spec_tap_is_acp(sighash_type) {
        sha256_of(spec_ser_outpoints(tx@.inputs)) + sha256_of(spec_ser_amounts(pv)) + sha256_of(
            spec_ser_script_pubkeys(pv),
        ) + sha256_of(spec_ser_sequences(tx@.inputs))
    } else {
        Seq::<u8>::empty()
    };
    if !is_acp {
        let ser_op = ser_outpoints(&tx.inputs);
        let h = sha256(&ser_op);
        push_bytes(&mut msg, &h);
        let ser_am = ser_amounts(prevouts);
        let h2 = sha256(&ser_am);
        push_bytes(&mut msg, &h2);
        let ser_sp = ser_script_pubkeys(prevouts);
        let h3 = sha256(&ser_sp);
        push_bytes(&mut msg, &h3);
        let ser_sq = ser_sequences(&tx.inputs);
        let h4 = sha256(&ser_sq);
        push_bytes(&mut msg, &h4);
    }
    proof {
        assert(msg@ =~= head + prevout_hashes);
    }
    let ghost output_hash = if !spec_tap_is_none(sighash_type) && !spec_tap_is_single(
        sighash_type,
    ) {
        sha256_of(spec_ser_txouts(tx@.outputs))
    } else {
        Seq::<u8>::empty()
    };
    if !is_none && !is_single {
        let ser_out = ser_txouts(&tx.outputs);
        let h = sha256(&ser_out);
        push_bytes(&mut msg, &h);
    }
    msg.push(2);
    proof {
        assert(msg@ =~= head + prevout_hashes + output_hash + seq![2u8]);
    }
    let ghost input_part = if spec_tap_is_acp(sighash_type) {
        spec_ser_outpoint(tx@.inputs[input_index as int].previous_output) + spec_u64_le(
            pv[input_index as int].value,
        ) + spec_ser_var_bytes(pv[input_index as int].script_pubkey) + spec_u32_le(
            tx@.inputs[input_index as int].sequence,
        )
    } else {
        spec_u32_le(input_index as u32)
    };
    if is_acp {
        proof {
            assert(tx@.inputs[input_index as int] == tx.inputs@[input_index as int]@);
            assert(pv[input_index as int] == prevouts@[input_index as int]@);
        }
        push_outpoint(&mut msg, &tx.inputs[input_index].previous_output);
        push_u64_le(&mut msg, prevouts[input_index].value);
        push_var_bytes(&mut msg, &prevouts[input_index].script_pubkey);
        push_u32_le(&mut msg, tx.inputs[input_index].sequence);
    } else {
        push_u32_le(&mut msg, input_index as u32);
    }
    proof {
        assert(msg@ =~= head + prevout_hashes + output_hash + seq![2u8] + input_part);
    }
    let ghost single_hash = if spec_tap_is_single(sighash_type) {
        sha256_of(spec_ser_txout(tx@.outputs[input_index as int]))
    } else {
        Seq::<u8>::empty()
    };
    if is_single {
        proof {
            assert(tx@.outputs[input_index as int] == tx.outputs@[input_index as int]@);
        }
        let mut ser: Vec<u8> = Vec::new();
        push_txout(&mut ser, &tx.outputs[input_index]);
        let h = sha256(&ser);
        push_bytes(&mut msg, &h);
    }
    push_bytes(&mut msg, leaf_hash);
    msg.push(0);
    push_u32_le(&mut msg, 0xffffffff);
    proof {
        assert(msg@ =~= head + prevout_hashes + output_hash + seq![2u8] + input_part + single_hash
            + leaf_hash@ + seq![0u8] + spec_u32_le(0xffffffffu32));
        assert(msg@ =~= spec_bip341_msg(tx@, input_index as int, pv, leaf_hash@, sighash_type));
    }
    let tag = tap_sighash_tag();
    Ok(tagged_hash(&tag, &msg))
}

/// Two transactions are equal up to witnesses when they have the same
/// version, locktime, and outputs, and their inputs agree on everything but
/// the witness stacks.
pub open spec fn spec_same_up_to_witness(a: SpecTransaction, b: SpecTransaction) -> bool {
    &&& a.version == b.version
    &&& a.lock_time == b.lock_time
    &&& a.outputs == b.outputs
    &&& a.inputs.len() == b.inputs.len()
    &&& forall|i: int|
        0 <= i < a.inputs.len() ==> (#[trigger] a.inputs[i]).previous_output
            == b.inputs[i].previous_output && a.inputs[i].script_sig == b.inputs[i].script_sig
            && a.inputs[i].sequence == b.inputs[i].sequence
}

/// The BIP143 digest reads no witness: transactions that are equal up to
/// witnesses give the same digest for the same input and parameters.
pub proof fn lemma_segwit_digest_ignores_witness(
    a: SpecTransaction,
    b: SpecTransaction,
    index: int,
    value: u64,
    script_code: Seq<u8>,
    t: EcdsaSighashType,
)
    requires
        spec_same_up_to_witness(a, b),
        0 <= index < a.inputs.len(),
    ensures
        spec_segwit_v0_digest(a, index, value, script_code, t) == spec_segwit_v0_digest(
            b,
            index,
            value,
            script_code,
            t,
        ),
{
    lemma_ser_outpoints_congruent(a.inputs, b.inputs);
    lemma_ser_sequences_congruent(a.inputs, b.inputs);
    assert(a.inputs[index].previous_output == b.inputs[index].previous_output);
    assert(a.inputs[index].sequence == b.inputs[index].sequence);
    assert(spec_bip143_preimage(a, index, value, script_code, t) == spec_bip143_preimage(
        b,
        index,
        value,
        script_code,
        t,
    ));
}

/// The BIP341 digest reads no witness either: transactions that are equal up
/// to witnesses give the same script-path digest for the same input, prevout
/// set, leaf hash, and sighash type.
pub proof fn lemma_taproot_digest_ignores_witness(
    a: SpecTransaction,
    b: SpecTransaction,
    index: int,
    prevouts: Seq<SpecTxOut>,
    leaf_hash: Seq<u8>,
    t: TapSighashType,
)
    requires
        spec_same_up_to_witness(a, b),
        0 <= index < a.inputs.len(),
    ensures
        spec_taproot_script_digest(a, index, prevouts, leaf_hash, t)
            == spec_taproot_script_digest(b, index, prevouts, leaf_hash, t),
{
    lemma_ser_outpoints_congruent(a.inputs, b.inputs);
    lemma_ser_sequences_congruent(a.inputs, b.inputs);
    assert(a.inputs[index].previous_output == b.inputs[index].previous_output);
    assert(a.inputs[index].sequence == b.inputs[index].sequence);
    assert(spec_bip341_msg(a, index, prevouts, leaf_hash, t) == spec_bip341_msg(
        b,
        index,
        prevouts,
        leaf_hash,
        t,
    ));
}

} // verus!
