use vstd::prelude::*;

use crate::error::RewardError;

verus! {

/// Weight of the timely-source flag.
pub const TIMELY_SOURCE_WEIGHT: u64 = 14;

/// Weight of the timely-target flag.
pub const TIMELY_TARGET_WEIGHT: u64 = 26;

/// Weight of the timely-head flag.
pub const TIMELY_HEAD_WEIGHT: u64 = 14;

/// Weight of the sync-committee share.
pub const SYNC_REWARD_WEIGHT: u64 = 2;

/// Weight of the block proposer's share.
pub const PROPOSER_WEIGHT: u64 = 8;

/// The sum of all weights, by which every weighted reward is divided.
pub const WEIGHT_DENOMINATOR: u64 = 64;

/// The largest effective-balance bucket, in whole ETH.
pub const MAX_BUCKET: u64 = 32;

/// A participation flag of an attestation.
#[derive(Clone, Copy, Debug, PartialEq, Eq, Structural)]
pub enum ParticipationFlag {
    Source,
    Target,
    Head,
}

/// The protocol weight of flag `f`.
pub open spec fn flag_weight(f: ParticipationFlag) -> int {
    match f {
        ParticipationFlag::Source => TIMELY_SOURCE_WEIGHT as int,
        ParticipationFlag::Target => TIMELY_TARGET_WEIGHT as int,
        ParticipationFlag::Head => TIMELY_HEAD_WEIGHT as int,
    }
}

/// The three flag weights, the sync-committee weight and the proposer weight
/// make up the denominator.
pub proof fn lemma_weights_sum_to_denominator()
    ensures
        flag_weight(ParticipationFlag::Source) + flag_weight(ParticipationFlag::Target)
            + flag_weight(ParticipationFlag::Head) + SYNC_REWARD_WEIGHT + PROPOSER_WEIGHT
            == WEIGHT_DENOMINATOR,
{
}

impl ParticipationFlag {
    /// The protocol weight of this flag.
    pub fn weight(&self) -> (r: u64)
        ensures
            r == flag_weight(*self),
    {
        match self {
            ParticipationFlag::Source => TIMELY_SOURCE_WEIGHT,
            ParticipationFlag::Target => TIMELY_TARGET_WEIGHT,
            ParticipationFlag::Head => TIMELY_HEAD_WEIGHT,
        }
    }
}

/// What the reward arithmetic reads of the state for the previous epoch.
/// Balances are in Gwei.
#[derive(Clone, Copy, Debug)]
pub struct EpochAggregates {
    pub total_active_balance: u64,
    pub effective_balance_increment: u64,
    pub base_reward_per_increment: u64,
    pub source_participating_balance: u64,
    pub target_participating_balance: u64,
    pub head_participating_balance: u64,
    pub in_inactivity_leak: bool,
}

/// The unslashed participating balance of flag `f`.
pub open spec fn participating_balance(p: EpochAggregates, f: ParticipationFlag) -> int {
    match f {
        ParticipationFlag::Source => p.source_participating_balance as int,
        ParticipationFlag::Target => p.target_participating_balance as int,
        ParticipationFlag::Head => p.head_participating_balance as int,
    }
}

/// The base reward of a validator whose effective balance is `bucket` increments.
pub open spec fn base_reward_of(bucket: int, base_reward_per_increment: int) -> int {
    bucket * base_reward_per_increment
}

/// The reward that a validator with every duty of flag `f` done earns at
/// bucket `b`, before the inactivity leak is taken into account; `None` where
/// the checked arithmetic overflows or divides by zero.
pub open spec fn ideal_reward_value(p: EpochAggregates, f: ParticipationFlag, b: int) -> Option<int> {
    let inc = p.effective_balance_increment as int;
    if inc == 0 {
        None
    } else {
        let unslashed = participating_balance(p, f) / inc;
        let active = p.total_active_balance as int / inc;
        let br = base_reward_of(b, p.base_reward_per_increment as int);
        let bw = br * flag_weight(f);
        let num = bw * unslashed;
        if br > u64::MAX || bw > u64::MAX || num > u64::MAX || active == 0 {
            None
        } else {
            Some(num / active / WEIGHT_DENOMINATOR as int)
        }
    }
}

/// The ideal-table value at (`f`, `b`): zero during an inactivity leak.
pub open spec fn ideal_entry(p: EpochAggregates, f: ParticipationFlag, b: int) -> int {
    if p.in_inactivity_leak {
        0
    } else {
        ideal_reward_value(p, f, b).unwrap()
    }
}

/// All three flag rewards at bucket `b` can be computed.
pub open spec fn bucket_computes(p: EpochAggregates, b: int) -> bool {
    &&& ideal_reward_value(p, ParticipationFlag::Source, b) is Some
    &&& ideal_reward_value(p, ParticipationFlag::Target, b) is Some
    &&& ideal_reward_value(p, ParticipationFlag::Head, b) is Some
}

/// Every entry of the ideal table can be computed.
pub open spec fn table_computes(p: EpochAggregates) -> bool {
    forall|b: int| 0 <= b <= MAX_BUCKET ==> #[trigger] bucket_computes(p, b)
}

/// One row of the ideal-reward table.
#[derive(Clone, Copy, Debug, PartialEq, Eq, Structural)]
pub struct IdealReward {
    /// The bucket, in whole ETH.
    pub effective_balance: u64,
    pub source: u64,
    pub target: u64,
    pub head: u64,
}

/// The value of flag `f` in a table row.
pub open spec fn ideal_field(e: IdealReward, f: ParticipationFlag) -> int {
    match f {
        ParticipationFlag::Source => e.source as int,
        ParticipationFlag::Target => e.target as int,
        ParticipationFlag::Head => e.head as int,
    }
}

/// The row of a correctly built table at bucket `b`.
pub open spec fn ideal_row_matches(p: EpochAggregates, e: IdealReward, b: int) -> bool {
    &&& e.effective_balance == b
    &&& e.source == ideal_entry(p, ParticipationFlag::Source, b)
    &&& e.target == ideal_entry(p, ParticipationFlag::Target, b)
    &&& e.head == ideal_entry(p, ParticipationFlag::Head, b)
}

/// The row of the ideal table at bucket `b`.
pub open spec fn ideal_row(p: EpochAggregates, b: int) -> IdealReward {
    IdealReward {
        effective_balance: b as u64,
        source: ideal_entry(p, ParticipationFlag::Source, b) as u64,
        target: ideal_entry(p, ParticipationFlag::Target, b) as u64,
        head: ideal_entry(p, ParticipationFlag::Head, b) as u64,
    }
}

/// The ideal-reward table: one row for each bucket `0..=32`.
pub open spec fn ideal_table(p: EpochAggregates) -> Seq<IdealReward> {
    Seq::new((MAX_BUCKET + 1) as nat, |b: int| ideal_row(p, b))
}

/// Ideal rewards are non-negative and never decrease as the bucket grows, for
/// a fixed flag and fixed aggregates: where the larger bucket's reward can be
/// computed, so can the smaller one's, and it is no larger.
pub proof fn lemma_ideal_reward_monotone(p: EpochAggregates, f: ParticipationFlag, b1: int, b2: int)
    requires
        0 <= b1 <= b2 <= MAX_BUCKET,
        ideal_reward_value(p, f, b2) is Some,
    ensures
        ideal_reward_value(p, f, b1) is Some,
        0 <= ideal_entry(p, f, b1) <= ideal_entry(p, f, b2),
{
    let inc = p.effective_balance_increment as int;
    let unslashed = participating_balance(p, f) / inc;
    let active = p.total_active_balance as int / inc;
    let brpi = p.base_reward_per_increment as int;
    let w = flag_weight(f);
    assert(unslashed >= 0) by {
        vstd::arithmetic::div_mod::lemma_div_pos_is_pos(participating_balance(p, f), inc);
    }
    assert(active > 0);
    let br1 = b1 * brpi;
    let br2 = b2 * brpi;
    assert(0 <= br1 <= br2) by (nonlinear_arith)
        requires 0 <= b1 <= b2, brpi >= 0, br1 == b1 * brpi, br2 == b2 * brpi;
    assert(0 <= br1 * w <= br2 * w) by (nonlinear_arith)
        requires 0 <= br1 <= br2, w >= 0;
    assert(0 <= br1 * w * unslashed <= br2 * w * unslashed) by (nonlinear_arith)
        requires 0 <= br1 * w <= br2 * w, unslashed >= 0;
    let n1 = br1 * w * unslashed;
    let n2 = br2 * w * unslashed;
    vstd::arithmetic::div_mod::lemma_div_is_ordered(n1, n2, active);
    vstd::arithmetic::div_mod::lemma_div_pos_is_pos(n1, active);
    vstd::arithmetic::div_mod::lemma_div_is_ordered(n1 / active, n2 / active, WEIGHT_DENOMINATOR as int);
    vstd::arithmetic::div_mod::lemma_div_pos_is_pos(n1 / active, WEIGHT_DENOMINATOR as int);
}

/// Ideal reward of flag `f` at bucket `b`, with every step checked.
pub fn ideal_reward(p: &EpochAggregates, f: ParticipationFlag, b: u64) -> (r: Result<u64, RewardError>)
    ensures
        match r {
            Ok(v) => ideal_reward_value(*p, f, b as int) == Some(v as int),
            Err(e) => e == RewardError::Arithmetic && ideal_reward_value(*p, f, b as int) is None,
        },
{
    let inc = p.effective_balance_increment;
    if inc == 0 {
        return Err(RewardError::Arithmetic);
    }
    let balance = match f {
        ParticipationFlag::Source => p.source_participating_balance,
        ParticipationFlag::Target => p.target_participating_balance,
        ParticipationFlag::Head => p.head_participating_balance,
    };
    let unslashed = balance / inc;
    let active = p.total_active_balance / inc;
    let weight = f.weight();
    let br = match b.checked_mul(p.base_reward_per_increment) {
        Some(x) => x,
        None => return Err(RewardError::Arithmetic),
    };
    let bw = match br.checked_mul(weight) {
        Some(x) => x,
        None => return Err(RewardError::Arithmetic),
    };
    let num = match bw.checked_mul(unslashed) {
        Some(x) => x,
        None => return Err(RewardError::Arithmetic),
    };
    if active == 0 {
        return Err(RewardError::Arithmetic);
    }
    Ok(num / active / WEIGHT_DENOMINATOR)
}

/// Builds the ideal-reward table: one row for each bucket `0..=32`.
pub fn build_ideal_rewards(p: &EpochAggregates) -> (r: Result<Vec<IdealReward>, RewardError>)
    ensures
        match r {
            Ok(t) => {
                &&& table_computes(*p)
                &&& t@ == ideal_table(*p)
            },
            Err(e) => e == RewardError::Arithmetic && !table_computes(*p),
        },
        r is Ok && p.in_inactivity_leak ==> forall|b: int|
            0 <= b < r->Ok_0@.len() ==> {
                &&& (#[trigger] r->Ok_0@[b]).source == 0
                &&& r->Ok_0@[b].target == 0
                &&& r->Ok_0@[b].head == 0
            },
        p.total_active_balance == 0 ==> r == Err::<Vec<IdealReward>, RewardError>(
            RewardError::Arithmetic,
        ),
{
    let mut t: Vec<IdealReward> = Vec::new();
    let mut b: u64 = 0;
    while b <= MAX_BUCKET
        invariant
            b <= MAX_BUCKET + 1,
            t@.len() == b,
            forall|i: int| 0 <= i < b ==> bucket_computes(*p, i),
            forall|i: int| 0 <= i < b ==> ideal_row_matches(*p, #[trigger] t@[i], i),
        decreases MAX_BUCKET + 1 - b,
    {
        let source = match ideal_reward(p, ParticipationFlag::Source, b) {
            Ok(v) => v,
            Err(e) => {
                assert(!bucket_computes(*p, b as int));
                return Err(e);
            },
        };
        let target = match ideal_reward(p, ParticipationFlag::Target, b) {
            Ok(v) => v,
            Err(e) => {
                assert(!bucket_computes(*p, b as int));
                return Err(e);
            },
        };
        let head = match ideal_reward(p, ParticipationFlag::Head, b) {
            Ok(v) => v,
            Err(e) => {
                assert(!bucket_computes(*p, b as int));
                return Err(e);
            },
        };
        let row = if p.in_inactivity_leak {
            IdealReward { effective_balance: b, source: 0, target: 0, head: 0 }
        } else {
            IdealReward { effective_balance: b, source, target, head }
        };
        t.push(row);
        b = b + 1;
    }
    assert(bucket_computes(*p, 0));
    assert(t@ =~= ideal_table(*p)) by {
        assert forall|i: int| 0 <= i < t@.len() implies t@[i] == ideal_table(*p)[i] by {
            assert(ideal_row_matches(*p, t@[i], i));
        }
    }
    Ok(t)
}

/// One validator's participation record for the previous epoch.
#[derive(Clone, Copy, Debug, PartialEq, Eq, Structural)]
pub struct ValidatorParticipation {
    pub validator_index: u64,
    /// Whether the validator is eligible for rewards and penalties.
    pub eligible: bool,
    /// Effective balance in Gwei.
    pub effective_balance: u64,
    /// Membership in the unslashed participating set of each flag.
    pub source: bool,
    pub target: bool,
    pub head: bool,
}

/// Whether `v` is in the unslashed participating set of `f`.
pub open spec fn has_flag(v: ValidatorParticipation, f: ParticipationFlag) -> bool {
    match f {
        ParticipationFlag::Source => v.source,
        ParticipationFlag::Target => v.target,
        ParticipationFlag::Head => v.head,
    }
}

/// The effective-balance bucket of a validator, in whole increments.
pub open spec fn bucket_of(p: EpochAggregates, v: ValidatorParticipation) -> int {
    v.effective_balance as int / p.effective_balance_increment as int
}

/// The reward of validator `v` for flag `f`: zero when ineligible, the
/// table's value at its own bucket when it has the flag, otherwise the
/// penalty of its own base reward times the flag's weight.
pub open spec fn flag_reward_value(
    p: EpochAggregates,
    table: Seq<IdealReward>,
    v: ValidatorParticipation,
    f: ParticipationFlag,
) -> Result<int, RewardError> {
    if !v.eligible {
        Ok(0)
    } else if p.effective_balance_increment == 0 {
        Err(RewardError::Arithmetic)
    } else {
        let bucket = bucket_of(p, v);
        if has_flag(v, f) {
            if bucket >= table.len() {
                Err(RewardError::Invalid)
            } else if ideal_field(table[bucket], f) > i64::MAX {
                Err(RewardError::Arithmetic)
            } else {
                Ok(ideal_field(table[bucket], f))
            }
        } else {
            let br = base_reward_of(bucket, p.base_reward_per_increment as int);
            let bw = br * flag_weight(f);
            if br > u64::MAX || bw > u64::MAX {
                Err(RewardError::Arithmetic)
            } else {
                Ok(-(bw / WEIGHT_DENOMINATOR as int))
            }
        }
    }
}

/// The three flag rewards of `v` (source, target, head), or the first error.
pub open spec fn validator_reward_value(
    p: EpochAggregates,
    table: Seq<IdealReward>,
    v: ValidatorParticipation,
) -> Result<(int, int, int), RewardError> {
    let s = flag_reward_value(p, table, v, ParticipationFlag::Source);
    let t = flag_reward_value(p, table, v, ParticipationFlag::Target);
    let h = flag_reward_value(p, table, v, ParticipationFlag::Head);
    if s is Err {
        Err(s->Err_0)
    } else if t is Err {
        Err(t->Err_0)
    } else if h is Err {
        Err(h->Err_0)
    } else {
        let total = s->Ok_0 + t->Ok_0 + h->Ok_0;
        if total < i64::MIN || total > i64::MAX {
            Err(RewardError::Arithmetic)
        } else {
            Ok((s->Ok_0, t->Ok_0, h->Ok_0))
        }
    }
}

/// A validator's rewards by flag, and their sum.
#[derive(Clone, Copy, Debug, PartialEq, Eq, Structural)]
pub struct TotalReward {
    pub validator_index: u64,
    pub head: i64,
    pub target: i64,
    pub source: i64,
    pub total: i64,
}

/// `e` is the reward entry of `v` over `table`.
pub open spec fn reward_matches(
    p: EpochAggregates,
    table: Seq<IdealReward>,
    v: ValidatorParticipation,
    e: TotalReward,
) -> bool {
    &&& validator_reward_value(p, table, v) == Ok::<(int, int, int), RewardError>(
        (e.source as int, e.target as int, e.head as int),
    )
    &&& e.validator_index == v.validator_index
    &&& e.total == e.source + e.target + e.head
}

/// The reward of `v` for flag `f`, looked up in `table` or charged as a penalty.
pub fn flag_reward(
    p: &EpochAggregates,
    table: &Vec<IdealReward>,
    v: &ValidatorParticipation,
    f: ParticipationFlag,
) -> (r: Result<i64, RewardError>)
    ensures
        match r {
            Ok(x) => flag_reward_value(*p, table@, *v, f) == Ok::<int, RewardError>(x as int),
            Err(e) => flag_reward_value(*p, table@, *v, f) == Err::<int, RewardError>(e),
        },
{
    if !v.eligible {
        return Ok(0);
    }
    let inc = p.effective_balance_increment;
    if inc == 0 {
        return Err(RewardError::Arithmetic);
    }
    let bucket = v.effective_balance / inc;
    let has = match f {
        ParticipationFlag::Source => v.source,
        ParticipationFlag::Target => v.target,
        ParticipationFlag::Head => v.head,
    };
    if has {
        if bucket >= table.len() as u64 {
            return Err(RewardError::Invalid);
        }
        let row = table[bucket as usize];
        let x = match f {
            ParticipationFlag::Source => row.source,
            ParticipationFlag::Target => row.target,
            ParticipationFlag::Head => row.head,
        };
        if x > i64::MAX as u64 {
            return Err(RewardError::Arithmetic);
        }
        Ok(x as i64)
    } else {
        let br = match bucket.checked_mul(p.base_reward_per_increment) {
            Some(y) => y,
            None => return Err(RewardError::Arithmetic),
        };
        let bw = match br.checked_mul(f.weight()) {
            Some(y) => y,
            None => return Err(RewardError::Arithmetic),
        };
        let penalty = bw / WEIGHT_DENOMINATOR;
        assert(penalty <= i64::MAX);
        Ok(-(penalty as i64))
    }
}

/// The rewards of one validator by flag, with their total.
pub fn compute_validator_reward(
    p: &EpochAggregates,
    table: &Vec<IdealReward>,
    v: &ValidatorParticipation,
) -> (r: Result<TotalReward, RewardError>)
    ensures
        match r {
            Ok(e) => reward_matches(*p, table@, *v, e),
            Err(e) => validator_reward_value(*p, table@, *v) == Err::<(int, int, int), RewardError>(
                e,
            ),
        },
        !v.eligible ==> r == Ok::<TotalReward, RewardError>(
            (TotalReward {
                validator_index: v.validator_index,
                head: 0,
                target: 0,
                source: 0,
                total: 0,
            }),
        ),
        v.eligible && v.source && v.target && v.head && r is Ok ==> {
            let row = table@[bucket_of(*p, *v)];
            r->Ok_0.total == row.source + row.target + row.head
        },
{
    let source = match flag_reward(p, table, v, ParticipationFlag::Source) {
        Ok(x) => x,
        Err(e) => return Err(e),
    };
    let target = match flag_reward(p, table, v, ParticipationFlag::Target) {
        Ok(x) => x,
        Err(e) => return Err(e),
    };
    let head = match flag_reward(p, table, v, ParticipationFlag::Head) {
        Ok(x) => x,
        Err(e) => return Err(e),
    };
    let total: i128 = source as i128 + target as i128 + head as i128;
    if total < i64::MIN as i128 || total > i64::MAX as i128 {
        return Err(RewardError::Arithmetic);
    }
    Ok(TotalReward { validator_index: v.validator_index, head, target, source, total: total as i64 })
}

/// Every validator of `vs` gets a reward.
pub open spec fn all_rewards_compute(
    p: EpochAggregates,
    table: Seq<IdealReward>,
    vs: Seq<ValidatorParticipation>,
) -> bool {
    forall|i: int| 0 <= i < vs.len() ==> (#[trigger] validator_reward_value(p, table, vs[i])) is Ok
}

/// `e` is the error of the first validator of `vs` that gets no reward.
pub open spec fn first_reward_error(
    p: EpochAggregates,
    table: Seq<IdealReward>,
    vs: Seq<ValidatorParticipation>,
    e: RewardError,
) -> bool {
    exists|i: int|
        0 <= i < vs.len() && all_rewards_compute(p, table, vs.take(i))
            && #[trigger] validator_reward_value(p, table, vs[i]) == Err::<
            (int, int, int),
            RewardError,
        >(e)
}

/// The reward entries of all validators, in their order, over the same table.
pub fn compute_total_rewards(
    p: &EpochAggregates,
    table: &Vec<IdealReward>,
    validators: &Vec<ValidatorParticipation>,
) -> (r: Result<Vec<TotalReward>, RewardError>)
    ensures
        match r {
            Ok(rs) => {
                &&& all_rewards_compute(*p, table@, validators@)
                &&& rs@.len() == validators@.len()
                &&& forall|i: int|
                    0 <= i < rs@.len() ==> reward_matches(*p, table@, validators@[i], #[trigger] rs@[i])
            },
            Err(e) => first_reward_error(*p, table@, validators@, e),
        },
{
    let mut rs: Vec<TotalReward> = Vec::new();
    let mut i: usize = 0;
    while i < validators.len()
        invariant
            i <= validators@.len(),
            rs@.len() == i,
            all_rewards_compute(*p, table@, validators@.take(i as int)),
            forall|j: int| 0 <= j < i ==> reward_matches(*p, table@, validators@[j], #[trigger] rs@[j]),
        decreases validators@.len() - i,
    {
        match compute_validator_reward(p, table, &validators[i]) {
            Ok(e) => {
                rs.push(e);
                assert forall|j: int| 0 <= j < i + 1 implies (#[trigger] validator_reward_value(
                    *p,
                    table@,
                    validators@.take(i + 1)[j],
                )) is Ok by {
                    if j < i {
                        assert(validators@.take(i + 1)[j] == validators@.take(i as int)[j]);
                    }
                }
            },
            Err(e) => {
                assert(validator_reward_value(*p, table@, validators@[i as int]) == Err::<
                    (int, int, int),
                    RewardError,
                >(e));
                return Err(e);
            },
        }
        i = i + 1;
    }
    assert(validators@.take(i as int) =~= validators@);
    Ok(rs)
}

/// The ideal table and each validator's rewards for the previous epoch.
#[derive(Clone, Debug)]
pub struct AttestationRewards {
    pub ideal_rewards: Vec<IdealReward>,
    pub total_rewards: Vec<TotalReward>,
}

/// Builds the ideal-reward table for `p`, then computes each validator's
/// rewards from it. Fails with the table's error, else with the first
/// validator's error.
pub fn compute_attestation_rewards(
    p: &EpochAggregates,
    validators: &Vec<ValidatorParticipation>,
) -> (r: Result<AttestationRewards, RewardError>)
    ensures
        match r {
            Ok(a) => {
                &&& table_computes(*p)
                &&& a.ideal_rewards@ == ideal_table(*p)
                &&& all_rewards_compute(*p, ideal_table(*p), validators@)
                &&& a.total_rewards@.len() == validators@.len()
                &&& forall|i: int|
                    0 <= i < a.total_rewards@.len() ==> reward_matches(
                        *p,
                        ideal_table(*p),
                        validators@[i],
                        #[trigger] a.total_rewards@[i],
                    )
            },
            Err(e) => {
                ||| !table_computes(*p) && e == RewardError::Arithmetic
                ||| table_computes(*p) && first_reward_error(*p, ideal_table(*p), validators@, e)
            },
        },
{
    let table = match build_ideal_rewards(p) {
        Ok(t) => t,
        Err(e) => return Err(e),
    };
    let totals = match compute_total_rewards(p, &table, validators) {
        Ok(rs) => rs,
        Err(e) => return Err(e),
    };
    Ok(AttestationRewards { ideal_rewards: table, total_rewards: totals })
}

} // verus!
