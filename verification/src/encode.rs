use vstd::prelude::*;
use crate::types::{
    OutPoint, TxIn, TxOut, SpecOutPoint, SpecTxIn, SpecTxOut, spec_inputs_view, spec_outputs_view,
};

verus! {

// Little-endian integer encodings and the compact-size prefix, as Bitcoin's
// consensus serialization uses them inside the signature-digest preimages.

/// Little-endian byte encoding of a 16-bit integer.
pub open spec fn spec_u16_le(v: u16) -> Seq<u8> {
    seq![(v & 0xff) as u8, ((v >> 8) & 0xff) as u8]
}

/// Little-endian byte encoding of a 32-bit integer.
pub open spec fn spec_u32_le(v: u32) -> Seq<u8> {
    seq![
        (v & 0xff) as u8,
        ((v >> 8) & 0xff) as u8,
        ((v >> 16) & 0xff) as u8,
        ((v >> 24) & 0xff) as u8,
    ]
}

/// Little-endian byte encoding of a 64-bit integer.
pub open spec fn spec_u64_le(v: u64) -> Seq<u8> {
    seq![
        (v & 0xff) as u8,
        ((v >> 8) & 0xff) as u8,
        ((v >> 16) & 0xff) as u8,
        ((v >> 24) & 0xff) as u8,
        ((v >> 32) & 0xff) as u8,
        ((v >> 40) & 0xff) as u8,
        ((v >> 48) & 0xff) as u8,
        ((v >> 56) & 0xff) as u8,
    ]
}

/// Bitcoin's variable-length integer ("compact size") encoding.
pub open spec fn spec_compact_size(n: u64) -> Seq<u8> {
    if n < 0xfd {
        seq![n as u8]
    } else if n <= 0xffff {
        seq![0xfdu8] + spec_u16_le(n as u16)
    } else if n <= 0xffff_ffff {
        seq![0xfeu8] + spec_u32_le(n as u32)
    } else {
        seq![0xffu8] + spec_u64_le(n)
    }
}

/// A byte string serialized with its compact-size length prefix, the way
/// scripts are serialized inside outputs and digest preimages.
pub open spec fn spec_ser_var_bytes(s: Seq<u8>) -> Seq<u8> {
    spec_compact_size(s.len() as u64) + s
}

/// Consensus serialization of an outpoint: 32-byte txid then the index.
pub open spec fn spec_ser_outpoint(o: SpecOutPoint) -> Seq<u8> {
    o.txid + spec_u32_le(o.vout)
}

/// Consensus serialization of an output: value then length-prefixed script.
pub open spec fn spec_ser_txout(t: SpecTxOut) -> Seq<u8> {
    spec_u64_le(t.value) + spec_ser_var_bytes(t.script_pubkey)
}

/// Concatenated serializations of all inputs' outpoints.
pub open spec fn spec_ser_outpoints(inputs: Seq<SpecTxIn>) -> Seq<u8>
    decreases inputs.len(),
{
    if inputs.len() == 0 {
        Seq::empty()
    } else {
        spec_ser_outpoints(inputs.drop_last()) + spec_ser_outpoint(inputs.last().previous_output)
    }
}

/// Concatenated little-endian sequence numbers of all inputs.
pub open spec fn spec_ser_sequences(inputs: Seq<SpecTxIn>) -> Seq<u8>
    decreases inputs.len(),
{
    if inputs.len() == 0 {
        Seq::empty()
    } else {
        spec_ser_sequences(inputs.drop_last()) + spec_u32_le(inputs.last().sequence)
    }
}

/// Concatenated little-endian values of all prevouts.
pub open spec fn spec_ser_amounts(prevouts: Seq<SpecTxOut>) -> Seq<u8>
    decreases prevouts.len(),
{
    if prevouts.len() == 0 {
        Seq::empty()
    } else {
        spec_ser_amounts(prevouts.drop_last()) + spec_u64_le(prevouts.last().value)
    }
}

/// Concatenated length-prefixed locking scripts of all prevouts.
pub open spec fn spec_ser_script_pubkeys(prevouts: Seq<SpecTxOut>) -> Seq<u8>
    decreases prevouts.len(),
{
    if prevouts.len() == 0 {
        Seq::empty()
    } else {
        spec_ser_script_pubkeys(prevouts.drop_last())
            + spec_ser_var_bytes(prevouts.last().script_pubkey)
    }
}

/// Concatenated serializations of all outputs.
pub open spec fn spec_ser_txouts(outputs: Seq<SpecTxOut>) -> Seq<u8>
    decreases outputs.len(),
{
    if outputs.len() == 0 {
        Seq::empty()
    } else {
        spec_ser_txouts(outputs.drop_last()) + spec_ser_txout(outputs.last())
    }
}

/// Appends the two little-endian bytes of `v`.
pub fn push_u16_le(out: &mut Vec<u8>, v: u16)
    ensures
        final(out)@ == old(out)@ + spec_u16_le(v),
{
    out.push((v & 0xff) as u8);
    out.push(((v >> 8) & 0xff) as u8);
    proof {
        assert(out@ =~= old(out)@ + spec_u16_le(v));
    }
}

/// Appends the four little-endian bytes of `v`.
pub fn push_u32_le(out: &mut Vec<u8>, v: u32)
    ensures
        final(out)@ == old(out)@ + spec_u32_le(v),
{
    out.push((v & 0xff) as u8);
    out.push(((v >> 8) & 0xff) as u8);
    out.push(((v >> 16) & 0xff) as u8);
    out.push(((v >> 24) & 0xff) as u8);
    proof {
        assert(out@ =~= old(out)@ + spec_u32_le(v));
    }
}

/// Appends the eight little-endian bytes of `v`.
pub fn push_u64_le(out: &mut Vec<u8>, v: u64)
    ensures
        final(out)@ == old(out)@ + spec_u64_le(v),
{
    out.push((v & 0xff) as u8);
    out.push(((v >> 8) & 0xff) as u8);
    out.push(((v >> 16) & 0xff) as u8);
    out.push(((v >> 24) & 0xff) as u8);
    out.push(((v >> 32) & 0xff) as u8);
    out.push(((v >> 40) & 0xff) as u8);
    out.push(((v >> 48) & 0xff) as u8);
    out.push(((v >> 56) & 0xff) as u8);
    proof {
        assert(out@ =~= old(out)@ + spec_u64_le(v));
    }
}

/// Appends the compact-size encoding of `n`.
pub fn push_compact_size(out: &mut Vec<u8>, n: u64)
    ensures
        final(out)@ == old(out)@ + spec_compact_size(n),
{
    if n < 0xfd {
        out.push(n as u8);
        proof {
            assert(out@ =~= old(out)@ + spec_compact_size(n));
        }
    } else if n <= 0xffff {
        out.push(0xfd);
        push_u16_le(out, n as u16);
        proof {
            assert(out@ =~= old(out)@ + spec_compact_size(n));
        }
    } else if n <= 0xffff_ffff {
        out.push(0xfe);
        push_u32_le(out, n as u32);
        proof {
            assert(out@ =~= old(out)@ + spec_compact_size(n));
        }
    } else {
        out.push(0xff);
        push_u64_le(out, n);
        proof {
            assert(out@ =~= old(out)@ + spec_compact_size(n));
        }
    }
}

/// Appends all of `data`.
pub fn push_bytes(out: &mut Vec<u8>, data: &Vec<u8>)
    ensures
        final(out)@ == old(out)@ + data@,
{
    let ghost base = out@;
    let mut i: usize = 0;
    while i < data.len()
        invariant
            i <= data.len(),
            out@ == base + data@.take(i as int),
        decreases data.len() - i,
    {
        out.push(data[i]);
        i = i + 1;
        proof {
            assert(out@ =~= base + data@.take(i as int));
        }
    }
    proof {
        assert(data@.take(data.len() as int) =~= data@);
    }
}

/// Appends `data` with its compact-size length prefix.
pub fn push_var_bytes(out: &mut Vec<u8>, data: &Vec<u8>)
    ensures
        final(out)@ == old(out)@ + spec_ser_var_bytes(data@),
{
    push_compact_size(out, data.len() as u64);
    push_bytes(out, data);
    proof {
        assert(out@ =~= old(out)@ + spec_ser_var_bytes(data@));
    }
}

/// Appends the consensus serialization of `o`.
pub fn push_outpoint(out: &mut Vec<u8>, o: &OutPoint)
    ensures
        final(out)@ == old(out)@ + spec_ser_outpoint(o@),
{
    push_bytes(out, &o.txid);
    push_u32_le(out, o.vout);
    proof {
        assert(out@ =~= old(out)@ + spec_ser_outpoint(o@));
    }
}

/// Appends the consensus serialization of `t`.
pub fn push_txout(out: &mut Vec<u8>, t: &TxOut)
    ensures
        final(out)@ == old(out)@ + spec_ser_txout(t@),
{
    push_u64_le(out, t.value);
    push_var_bytes(out, &t.script_pubkey);
    proof {
        assert(out@ =~= old(out)@ + spec_ser_txout(t@));
    }
}

/// Serializes every input's outpoint in order.
pub fn ser_outpoints(inputs: &Vec<TxIn>) -> (r: Vec<u8>)
    ensures
        r@ == spec_ser_outpoints(spec_inputs_view(inputs@)),
{
    let ghost v = spec_inputs_view(inputs@);
    let mut out: Vec<u8> = Vec::new();
    let mut i: usize = 0;
    while i < inputs.len()
        invariant
            i <= inputs.len(),
            v == spec_inputs_view(inputs@),
            out@ == spec_ser_outpoints(v.take(i as int)),
        decreases inputs.len() - i,
    {
        push_outpoint(&mut out, &inputs[i].previous_output);
        i = i + 1;
        proof {
            assert(v.take(i as int).drop_last() =~= v.take(i as int - 1));
            assert(v.take(i as int).last() == inputs@[i as int - 1]@);
        }
    }
    proof {
        assert(v.take(inputs@.len() as int) =~= v);
    }
    out
}

/// Serializes every input's sequence number in order.
pub fn ser_sequences(inputs: &Vec<TxIn>) -> (r: Vec<u8>)
    ensures
        r@ == spec_ser_sequences(spec_inputs_view(inputs@)),
{
    let ghost v = spec_inputs_view(inputs@);
    let mut out: Vec<u8> = Vec::new();
    let mut i: usize = 0;
    while i < inputs.len()
        invariant
            i <= inputs.len(),
            v == spec_inputs_view(inputs@),
            out@ == spec_ser_sequences(v.take(i as int)),
        decreases inputs.len() - i,
    {
        push_u32_le(&mut out, inputs[i].sequence);
        i = i + 1;
        proof {
            assert(v.take(i as int).drop_last() =~= v.take(i as int - 1));
            assert(v.take(i as int).last() == inputs@[i as int - 1]@);
        }
    }
    proof {
        assert(v.take(inputs@.len() as int) =~= v);
    }
    out
}

/// Serializes every prevout's value in order.
pub fn ser_amounts(prevouts: &Vec<TxOut>) -> (r: Vec<u8>)
    ensures
        r@ == spec_ser_amounts(spec_outputs_view(prevouts@)),
{
    let ghost v = spec_outputs_view(prevouts@);
    let mut out: Vec<u8> = Vec::new();
    let mut i: usize = 0;
    while i < prevouts.len()
        invariant
            i <= prevouts.len(),
            v == spec_outputs_view(prevouts@),
            out@ == spec_ser_amounts(v.take(i as int)),
        decreases prevouts.len() - i,
    {
        push_u64_le(&mut out, prevouts[i].value);
        i = i + 1;
        proof {
            assert(v.take(i as int).drop_last() =~= v.take(i as int - 1));
            assert(v.take(i as int).last() == prevouts@[i as int - 1]@);
        }
    }
    proof {
        assert(v.take(prevouts@.len() as int) =~= v);
    }
    out
}

/// Serializes every prevout's locking script (with length prefix) in order.
pub fn ser_script_pubkeys(prevouts: &Vec<TxOut>) -> (r: Vec<u8>)
    ensures
        r@ == spec_ser_script_pubkeys(spec_outputs_view(prevouts@)),
{
    let ghost v = spec_outputs_view(prevouts@);
    let mut out: Vec<u8> = Vec::new();
    let mut i: usize = 0;
    while i < prevouts.len()
        invariant
            i <= prevouts.len(),
            v == spec_outputs_view(prevouts@),
            out@ == spec_ser_script_pubkeys(v.take(i as int)),
        decreases prevouts.len() - i,
    {
        push_var_bytes(&mut out, &prevouts[i].script_pubkey);
        i = i + 1;
        proof {
            assert(v.take(i as int).drop_last() =~= v.take(i as int - 1));
            assert(v.take(i as int).last() == prevouts@[i as int - 1]@);
        }
    }
    proof {
        assert(v.take(prevouts@.len() as int) =~= v);
    }
    out
}

/// Serializes every output in order.
pub fn ser_txouts(outputs: &Vec<TxOut>) -> (r: Vec<u8>)
    ensures
        r@ == spec_ser_txouts(spec_outputs_view(outputs@)),
{
    let ghost v = spec_outputs_view(outputs@);
    let mut out: Vec<u8> = Vec::new();
    let mut i: usize = 0;
    while i < outputs.len()
        invariant
            i <= outputs.len(),
            v == spec_outputs_view(outputs@),
            out@ == spec_ser_txouts(v.take(i as int)),
        decreases outputs.len() - i,
    {
        push_txout(&mut out, &outputs[i]);
        i = i + 1;
        proof {
            assert(v.take(i as int).drop_last() =~= v.take(i as int - 1));
            assert(v.take(i as int).last() == outputs@[i as int - 1]@);
        }
    }
    proof {
        assert(v.take(outputs@.len() as int) =~= v);
    }
    out
}

/// The serialized amounts of `n` prevouts occupy exactly `8 * n` bytes.
pub proof fn lemma_ser_amounts_len(prevouts: Seq<SpecTxOut>)
    ensures
        spec_ser_amounts(prevouts).len() == 8 * prevouts.len(),
    decreases prevouts.len(),
{
    if prevouts.len() > 0 {
        lemma_ser_amounts_len(prevouts.drop_last());
    }
}

/// The bytes committed for prevout `k` are exactly the little-endian
/// encoding of its value, at offset `8 * k`.
pub proof fn lemma_ser_amounts_index(prevouts: Seq<SpecTxOut>, k: int)
    requires
        0 <= k < prevouts.len(),
    ensures
        spec_ser_amounts(prevouts).subrange(8 * k, 8 * k + 8) == spec_u64_le(prevouts[k].value),
    decreases prevouts.len(),
{
    lemma_ser_amounts_len(prevouts);
    lemma_ser_amounts_len(prevouts.drop_last());
    if k == prevouts.len() - 1 {
        assert(spec_ser_amounts(prevouts).subrange(8 * k, 8 * k + 8) =~= spec_u64_le(
            prevouts[k].value,
        ));
    } else {
        lemma_ser_amounts_index(prevouts.drop_last(), k);
        assert(spec_ser_amounts(prevouts).subrange(8 * k, 8 * k + 8) =~= spec_ser_amounts(
            prevouts.drop_last(),
        ).subrange(8 * k, 8 * k + 8));
    }
}

/// Inputs that agree pointwise on their outpoints serialize to the same
/// outpoint bytes, whatever else (in particular their witnesses) differs.
pub proof fn lemma_ser_outpoints_congruent(a: Seq<SpecTxIn>, b: Seq<SpecTxIn>)
    requires
        a.len() == b.len(),
        forall|i: int|
            0 <= i < a.len() ==> (#[trigger] a[i]).previous_output == b[i].previous_output,
    ensures
        spec_ser_outpoints(a) == spec_ser_outpoints(b),
    decreases a.len(),
{
    if a.len() > 0 {
        lemma_ser_outpoints_congruent(a.drop_last(), b.drop_last());
        assert(a[a.len() - 1].previous_output == b[b.len() - 1].previous_output);
    }
}

/// Inputs that agree pointwise on their sequence numbers serialize to the
/// same sequence bytes.
pub proof fn lemma_ser_sequences_congruent(a: Seq<SpecTxIn>, b: Seq<SpecTxIn>)
    requires
        a.len() == b.len(),
        forall|i: int| 0 <= i < a.len() ==> (#[trigger] a[i]).sequence == b[i].sequence,
    ensures
        spec_ser_sequences(a) == spec_ser_sequences(b),
    decreases a.len(),
{
    if a.len() > 0 {
        lemma_ser_sequences_congruent(a.drop_last(), b.drop_last());
        assert(a[a.len() - 1].sequence == b[b.len() - 1].sequence);
    }
}

/// Two 64-bit values with the same little-endian encoding are equal.
pub proof fn lemma_u64_le_injective(a: u64, b: u64)
    requires
        spec_u64_le(a) == spec_u64_le(b),
    ensures
        a == b,
{
    assert((a & 0xff) as u8 == (b & 0xff) as u8);
    assert(((a >> 8) & 0xff) as u8 == ((b >> 8) & 0xff) as u8);
    assert(((a >> 16) & 0xff) as u8 == ((b >> 16) & 0xff) as u8);
    assert(((a >> 24) & 0xff) as u8 == ((b >> 24) & 0xff) as u8);
    assert(((a >> 32) & 0xff) as u8 == ((b >> 32) & 0xff) as u8);
    assert(((a >> 40) & 0xff) as u8 == ((b >> 40) & 0xff) as u8);
    assert(((a >> 48) & 0xff) as u8 == ((b >> 48) & 0xff) as u8);
    assert(((a >> 56) & 0xff) as u8 == ((b >> 56) & 0xff) as u8);
    assert((a & 0xff) as u8 == (b & 0xff) as u8 && ((a >> 8) & 0xff) as u8 == ((b >> 8)
        & 0xff) as u8 && ((a >> 16) & 0xff) as u8 == ((b >> 16) & 0xff) as u8 && ((a >> 24)
        & 0xff) as u8 == ((b >> 24) & 0xff) as u8 && ((a >> 32) & 0xff) as u8 == ((b >> 32)
        & 0xff) as u8 && ((a >> 40) & 0xff) as u8 == ((b >> 40) & 0xff) as u8 && ((a >> 48)
        & 0xff) as u8 == ((b >> 48) & 0xff) as u8 && ((a >> 56) & 0xff) as u8 == ((b >> 56)
        & 0xff) as u8 ==> a == b) by (bit_vector);
}

/// Changing the value of any single prevout changes the serialized amounts
/// sequence that every input's Taproot digest commits to.
pub proof fn lemma_amounts_commitment_sensitive(
    a: Seq<SpecTxOut>,
    b: Seq<SpecTxOut>,
    k: int,
)
    requires
        a.len() == b.len(),
        0 <= k < a.len(),
        a[k].value != b[k].value,
    ensures
        spec_ser_amounts(a) != spec_ser_amounts(b),
{
    lemma_ser_amounts_index(a, k);
    lemma_ser_amounts_index(b, k);
    if spec_ser_amounts(a) == spec_ser_amounts(b) {
        lemma_u64_le_injective(a[k].value, b[k].value);
    }
}

} // verus!
