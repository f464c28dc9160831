use vstd::prelude::*;

verus! {

/// One pool's stake as a data source reports it.
#[derive(Clone, Debug)]
pub struct StakeEntry {
    pub pool_id: String,
    pub stake: u64,
}

/// A stake-distribution answer.  The underlying sources expose per-pool
/// stake under different groupings, so the model keeps both shapes: a
/// dedicated pool grouping when the answer has one, and entries keyed
/// directly at the top level.  The total may be stated explicitly under
/// either of two field names, or not at all.
#[derive(Clone, Debug)]
pub struct StakeDistribution {
    /// Entries of the dedicated pool grouping, when the answer exposes one.
    pub pool_entries: Option<Vec<StakeEntry>>,
    /// Entries keyed directly at the top level by pool identifier.
    pub flat_entries: Vec<StakeEntry>,
    /// The explicitly stated total stake, when present.
    pub total: Option<u64>,
    /// The total stake under its alternate field name, when present.
    pub total_stake: Option<u64>,
}

/// The stake of the first entry whose pool identifier matches, if any.
pub open spec fn spec_lookup_stake(entries: Seq<StakeEntry>, pool_id: Seq<char>) -> Option<u64>
    decreases entries.len(),
{
    if entries.len() == 0 {
        None
    } else if entries[0].pool_id@ == pool_id {
        Some(entries[0].stake)
    } else {
        spec_lookup_stake(entries.drop_first(), pool_id)
    }
}

/// The stake attributed to a pool: the dedicated grouping is consulted
/// first, then the top-level entries; a pool listed nowhere holds zero
/// stake.
pub open spec fn spec_pool_stake(d: StakeDistribution, pool_id: Seq<char>) -> u64 {
    let nested = match d.pool_entries {
        Some(entries) => spec_lookup_stake(entries@, pool_id),
        None => None,
    };
    match nested {
        Some(s) => s,
        None => match spec_lookup_stake(d.flat_entries@, pool_id) {
            Some(s) => s,
            None => 0,
        },
    }
}

/// The mathematical sum of the stakes of a sequence of entries.
pub open spec fn spec_sum_stakes(entries: Seq<StakeEntry>) -> int
    decreases entries.len(),
{
    if entries.len() == 0 {
        0
    } else {
        entries[0].stake + spec_sum_stakes(entries.drop_first())
    }
}

/// A sum capped at the largest representable stake.
pub open spec fn spec_cap_u64(n: int) -> u64 {
    if n > u64::MAX {
        u64::MAX
    } else {
        n as u64
    }
}

/// The total network stake of an answer: the explicit total when stated,
/// else the alternate-named total, else the capped sum over the dedicated
/// pool grouping, else zero.
pub open spec fn spec_total_stake(d: StakeDistribution) -> u64 {
    match d.total {
        Some(t) => t,
        None => match d.total_stake {
            Some(t) => t,
            None => match d.pool_entries {
                Some(entries) => spec_cap_u64(spec_sum_stakes(entries@)),
                None => 0,
            },
        },
    }
}

proof fn lemma_sum_stakes_push(s: Seq<StakeEntry>, x: StakeEntry)
    ensures
        spec_sum_stakes(s.push(x)) == spec_sum_stakes(s) + x.stake,
    decreases s.len(),
{
    assert(s.push(x).len() == s.len() + 1);
    assert(spec_sum_stakes(s.push(x)) == s.push(x)[0].stake + spec_sum_stakes(
        s.push(x).drop_first(),
    ));
    if s.len() == 0 {
        assert(s.push(x)[0] == x);
        assert(s.push(x).drop_first() =~= Seq::<StakeEntry>::empty());
        assert(spec_sum_stakes(Seq::<StakeEntry>::empty()) == 0);
        assert(spec_sum_stakes(s) == 0);
    } else {
        assert(s.push(x)[0] == s[0]);
        assert(s.push(x).drop_first() =~= s.drop_first().push(x));
        lemma_sum_stakes_push(s.drop_first(), x);
        assert(spec_sum_stakes(s) == s[0].stake + spec_sum_stakes(s.drop_first()));
    }
}

fn lookup_stake(entries: &Vec<StakeEntry>, pool_id: &String) -> (r: Option<u64>)
    ensures
        r == spec_lookup_stake(entries@, pool_id@),
{
    let n = entries.len();
    let mut i: usize = 0;
    proof {
        assert(entries@.skip(0) =~= entries@);
    }
    while i < n
        invariant
            0 <= i <= n,
            n == entries@.len(),
            spec_lookup_stake(entries@, pool_id@) == spec_lookup_stake(
                entries@.skip(i as int),
                pool_id@,
            ),
        decreases n - i,
    {
        proof {
            assert(entries@.skip(i as int)[0] == entries@[i as int]);
            assert(entries@.skip(i as int).drop_first() =~= entries@.skip(i as int + 1));
        }
        if entries[i].pool_id == *pool_id {
            return Some(entries[i].stake);
        }
        i = i + 1;
    }
    proof {
        assert(entries@.skip(n as int) =~= Seq::<StakeEntry>::empty());
    }
    None
}

/// Resolve the stake a distribution answer attributes to one pool: try the
/// dedicated pool grouping first, then the top-level entries, and fall back
/// to zero stake for a pool listed nowhere.
pub fn get_pool_stake_from_distribution(d: &StakeDistribution, pool_id: &String) -> (r: u64)
    ensures
        r == spec_pool_stake(*d, pool_id@),
{
    let nested = match &d.pool_entries {
        Some(entries) => lookup_stake(entries, pool_id),
        None => None,
    };
    match nested {
        Some(s) => s,
        None => match lookup_stake(&d.flat_entries, pool_id) {
            Some(s) => s,
            None => 0,
        },
    }
}

fn sum_stakes_capped(entries: &Vec<StakeEntry>) -> (r: u64)
    ensures
        r == spec_cap_u64(spec_sum_stakes(entries@)),
{
    let n = entries.len();
    let mut acc: u128 = 0;
    let mut i: usize = 0;
    proof {
        assert(entries@.take(0) =~= Seq::<StakeEntry>::empty());
    }
    while i < n
        invariant
            0 <= i <= n,
            n == entries@.len(),
            acc == spec_sum_stakes(entries@.take(i as int)),
            acc <= (i as int) * (u64::MAX as int),
        decreases n - i,
    {
        proof {
            assert(entries@.take(i as int + 1).drop_last() =~= entries@.take(i as int));
            assert(entries@.take(i as int + 1).last() == entries@[i as int]);
            assert(entries@.take(i as int + 1) =~= entries@.take(i as int).push(
                entries@[i as int],
            ));
            lemma_sum_stakes_push(entries@.take(i as int), entries@[i as int]);
            assert((i as int) * (u64::MAX as int) + (u64::MAX as int) == (i as int + 1) * (
            u64::MAX as int)) by (nonlinear_arith);
            assert((i as int + 1) * (u64::MAX as int) <= (n as int) * (u64::MAX as int)) by (
            nonlinear_arith)
                requires
                    i as int + 1 <= n as int,
            ;
            assert((n as int) * (u64::MAX as int) < u128::MAX) by (nonlinear_arith)
                requires
                    n as int <= usize::MAX as int,
            ;
        }
        acc = acc + entries[i].stake as u128;
        i = i + 1;
    }
    proof {
        assert(entries@.take(n as int) =~= entries@);
    }
    if acc > u64::MAX as u128 {
        u64::MAX
    } else {
        acc as u64
    }
}

/// Resolve the total network stake of a distribution answer: the explicit
/// total when stated, else the alternate-named total, else the sum of the
/// stakes found under the dedicated pool grouping, else zero.
pub fn get_total_stake(d: &StakeDistribution) -> (r: u64)
    ensures
        r == spec_total_stake(*d),
{
    match d.total {
        Some(t) => t,
        None => match d.total_stake {
            Some(t) => t,
            None => match &d.pool_entries {
                Some(entries) => sum_stakes_capped(entries),
                None => 0,
            },
        },
    }
}

} // verus!
