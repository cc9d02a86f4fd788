//! Fee-market sampling: the arithmetic mean of the fee fields over the
//! transactions of a block that carry both of them.
use crate::bytesnat::{be_nat, pow256};
use crate::errors::UserOpMiddlewareError;
use crate::u256::U256;
use vstd::prelude::*;

verus! {

/// The two fee fields of one sampled transaction, absent on legacy
/// transactions that do not carry them.
pub struct TxFeeSample {
    pub max_fee_per_gas: Option<U256>,
    pub max_priority_fee_per_gas: Option<U256>,
}

/// A transaction qualifies when it carries both fee fields.
pub open spec fn qualifies(t: TxFeeSample) -> bool {
    t.max_fee_per_gas is Some && t.max_priority_fee_per_gas is Some
}

/// How many sampled transactions qualify.
pub open spec fn fee_count(txs: Seq<TxFeeSample>) -> nat
    decreases txs.len(),
{
    if txs.len() == 0 {
        0
    } else {
        fee_count(txs.drop_last()) + if qualifies(txs.last()) {
            1nat
        } else {
            0nat
        }
    }
}

/// Sum of the max-fee field over the qualifying transactions.
pub open spec fn fee_sum(txs: Seq<TxFeeSample>) -> nat
    decreases txs.len(),
{
    if txs.len() == 0 {
        0
    } else {
        fee_sum(txs.drop_last()) + if qualifies(txs.last()) {
            be_nat(txs.last().max_fee_per_gas->0@)
        } else {
            0
        }
    }
}

/// Sum of the max-priority-fee field over the qualifying transactions.
pub open spec fn prio_sum(txs: Seq<TxFeeSample>) -> nat
    decreases txs.len(),
{
    if txs.len() == 0 {
        0
    } else {
        prio_sum(txs.drop_last()) + if qualifies(txs.last()) {
            be_nat(txs.last().max_priority_fee_per_gas->0@)
        } else {
            0
        }
    }
}

/// A prefix of the sample never counts or sums more than the whole.
proof fn lemma_fee_prefix(txs: Seq<TxFeeSample>, k: int)
    requires
        0 <= k <= txs.len(),
    ensures
        fee_count(txs.subrange(0, k)) <= fee_count(txs),
        fee_sum(txs.subrange(0, k)) <= fee_sum(txs),
        prio_sum(txs.subrange(0, k)) <= prio_sum(txs),
    decreases txs.len(),
{
    if k < txs.len() {
        let w = txs.drop_last();
        lemma_fee_prefix(w, k);
        assert(txs.subrange(0, k) =~= w.subrange(0, k));
    } else {
        assert(txs.subrange(0, k) =~= txs);
    }
}

/// The arithmetic mean of each fee field over the qualifying transactions of
/// a sampled block: `(mean max fee, mean max priority fee)`. A sample with no
/// qualifying transaction is a division by zero and is refused as an error,
/// never returned as a zero pair.
pub fn average_gas_fees(txs: &Vec<TxFeeSample>) -> (r: Result<
    (U256, U256),
    UserOpMiddlewareError,
>)
    requires
        fee_sum(txs@) < pow256(32),
        prio_sum(txs@) < pow256(32),
    ensures
        match r {
            Ok(avg) => {
                &&& fee_count(txs@) > 0
                &&& avg.0.nat_of() == fee_sum(txs@) / fee_count(txs@)
                &&& avg.1.nat_of() == prio_sum(txs@) / fee_count(txs@)
            },
            Err(e) => fee_count(txs@) == 0 && e == UserOpMiddlewareError::EmptyFeeSampleError,
        },
{
    let mut total_fee = U256::zero();
    let mut total_prio = U256::zero();
    let mut count: u64 = 0;
    let mut i: usize = 0;
    proof {
        assert(txs@.subrange(0, 0) =~= Seq::<TxFeeSample>::empty());
    }
    while i < txs.len()
        invariant
            i <= txs@.len(),
            fee_sum(txs@) < pow256(32),
            prio_sum(txs@) < pow256(32),
            total_fee.nat_of() == fee_sum(txs@.subrange(0, i as int)),
            total_prio.nat_of() == prio_sum(txs@.subrange(0, i as int)),
            count == fee_count(txs@.subrange(0, i as int)),
            count <= i,
        decreases txs@.len() - i,
    {
        let tx = &txs[i];
        proof {
            assert(txs@.subrange(0, i as int + 1).drop_last() =~= txs@.subrange(0, i as int));
            assert(txs@.subrange(0, i as int + 1).last() == txs@[i as int]);
            lemma_fee_prefix(txs@, i as int + 1);
        }
        match (&tx.max_fee_per_gas, &tx.max_priority_fee_per_gas) {
            (Some(fee), Some(prio)) => {
                total_fee = match total_fee.checked_add(fee) {
                    Some(v) => v,
                    None => vstd::pervasive::unreached(),
                };
                total_prio = match total_prio.checked_add(prio) {
                    Some(v) => v,
                    None => vstd::pervasive::unreached(),
                };
                count = count + 1;
            },
            _ => {
            },
        }
        i = i + 1;
    }
    proof {
        assert(txs@.subrange(0, txs@.len() as int) =~= txs@);
    }
    if count == 0 {
        return Err(UserOpMiddlewareError::EmptyFeeSampleError);
    }
    let (avg_fee, _rem_fee) = total_fee.div_rem_u64(count);
    let (avg_prio, _rem_prio) = total_prio.div_rem_u64(count);
    Ok((avg_fee, avg_prio))
}

} // verus!
