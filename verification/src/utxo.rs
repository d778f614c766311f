use vstd::prelude::*;

verus! {

// Unspent-output records as a block-explorer-style service reports them, and
// the selection of a subset whose values cover a target amount.

/// Confirmation status of an unspent output.
#[derive(Clone, Debug)]
pub struct UTXOStatus {
    pub confirmed: bool,
    pub block_height: u32,
    pub block_hash: String,
    pub block_time: u64,
}

/// One unspent output: where it lives and what it is worth.
#[derive(Clone, Debug)]
pub struct UTXO {
    pub txid: String,
    pub vout: u32,
    pub status: UTXOStatus,
    pub value: u64,
}

/// There is not enough value among the available outputs to reach the
/// target amount.
#[derive(Clone, Copy, PartialEq, Eq, Structural, Debug)]
pub struct InsufficientBalance {
    /// The amount that was asked for.
    pub expected: u64,
    /// The total value that was actually available.
    pub got: u64,
}

/// The total value of a sequence of unspent outputs.
pub open spec fn spec_total_value(utxos: Seq<UTXO>) -> int
    decreases utxos.len(),
{
    if utxos.len() == 0 {
        0
    } else {
        spec_total_value(utxos.drop_last()) + utxos.last().value
    }
}

/// The running total only grows as outputs are appended.
proof fn lemma_total_value_monotonic(utxos: Seq<UTXO>, k: int)
    requires
        0 <= k <= utxos.len(),
    ensures
        spec_total_value(utxos.take(k)) <= spec_total_value(utxos),
    decreases utxos.len(),
{
    if k < utxos.len() {
        assert(utxos.drop_last().take(k) =~= utxos.take(k));
        lemma_total_value_monotonic(utxos.drop_last(), k);
    } else {
        assert(utxos.take(k) =~= utxos);
    }
}

/// Walks the outputs in order, keeping each one, and stops early exactly
/// when the running total hits `amount`; fails with `InsufficientBalance`
/// when even the full set falls short. On success the result is the shortest
/// prefix whose total is `amount`, or the full set when no prefix matches
/// exactly but the total covers the amount.
#[verifier::rlimit(30)]
pub fn select_utxos_for_amount(utxos: Vec<UTXO>, amount: u64) -> (r: Result<
    Vec<UTXO>,
    InsufficientBalance,
>)
    ensures
        r is Ok <==> spec_total_value(utxos@) >= amount,
        r matches Err(e) ==> e.expected == amount && e.got == spec_total_value(utxos@),
        r matches Ok(v) ==> {
            &&& v@.len() <= utxos@.len()
            &&& v@ == utxos@.take(v@.len() as int)
            &&& (spec_total_value(v@) == amount || (v@ =~= utxos@ && spec_total_value(utxos@)
                > amount))
            &&& forall|k: int|
                1 <= k < v@.len() ==> #[trigger] spec_total_value(utxos@.take(k)) != amount
        },
{
    let mut selected: Vec<UTXO> = Vec::new();
    let mut total: u128 = 0;
    let mut i: usize = 0;
    let count = utxos.len();
    while i < count
        invariant
            count == utxos@.len(),
            selected@.len() == i,
            i <= count,
            selected@ =~= utxos@.take(i as int),
            total == spec_total_value(utxos@.take(i as int)),
            total <= (i as int) * 0xffff_ffff_ffff_ffff,
            forall|k: int|
                1 <= k <= i ==> #[trigger] spec_total_value(utxos@.take(k)) != amount,
        decreases count - i,
    {
        let u = copy_utxo(&utxos[i]);
        proof {
            assert((i as int + 1) * 0xffff_ffff_ffff_ffff == (i as int) * 0xffff_ffff_ffff_ffff
                + 0xffff_ffff_ffff_ffff) by (nonlinear_arith);
            assert((i as int) * 0xffff_ffff_ffff_ffff <= 0xffff_ffff_ffff_ffff
                * 0xffff_ffff_ffff_ffff) by (nonlinear_arith)
                requires
                    0 <= i as int <= 0xffff_ffff_ffff_ffff,
            ;
        }
        let value = u.value;
        selected.push(u);
        i = i + 1;
        total = total + value as u128;
        proof {
            assert(utxos@.take(i as int).drop_last() =~= utxos@.take(i as int - 1));
            assert(utxos@.take(i as int).last() == utxos@[i as int - 1]);
            assert(selected@ =~= utxos@.take(i as int));
            assert(total == spec_total_value(utxos@.take(i as int)));
        }
        if total == amount as u128 {
            proof {
                lemma_total_value_monotonic(utxos@, i as int);
            }
            return Ok(selected);
        }
    }
    proof {
        assert(utxos@.take(count as int) =~= utxos@);
    }
    if total < amount as u128 {
        return Err(InsufficientBalance { expected: amount, got: total as u64 });
    }
    Ok(selected)
}

/// Copies one unspent-output record, field by field.
fn copy_utxo(u: &UTXO) -> (r: UTXO)
    ensures
        r == *u,
{
    UTXO {
        txid: u.txid.clone(),
        vout: u.vout,
        status: UTXOStatus {
            confirmed: u.status.confirmed,
            block_height: u.status.block_height,
            block_hash: u.status.block_hash.clone(),
            block_time: u.status.block_time,
        },
        value: u.value,
    }
}

} // verus!
