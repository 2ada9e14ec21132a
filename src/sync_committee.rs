use vstd::prelude::*;

use crate::error::RewardError;

verus! {

/// A validator named by its public key or by its index.
#[derive(Clone, Debug)]
pub enum ValidatorId {
    PublicKey(Vec<u8>),
    Index(u64),
}

/// A member of the current sync committee, in committee order, with the
/// validator index that the state gives its key (`None`: unknown key).
#[derive(Clone, Debug)]
pub struct SyncCommitteeMember {
    pub pubkey: Vec<u8>,
    pub validator_index: Option<u64>,
}

/// The reward of one sync-committee member for one block.
#[derive(Clone, Copy, Debug, PartialEq, Eq, Structural)]
pub struct SyncCommitteeReward {
    pub validator_index: u64,
    pub reward: i64,
}

/// Whether `id` names the validator with key `pubkey` and index `index`.
pub open spec fn id_matches(id: ValidatorId, pubkey: Seq<u8>, index: u64) -> bool {
    match id {
        ValidatorId::PublicKey(k) => k@ == pubkey,
        ValidatorId::Index(i) => i == index,
    }
}

/// A member is kept when the filter is empty or names it by key or index.
pub open spec fn selected(filter: Seq<ValidatorId>, pubkey: Seq<u8>, index: u64) -> bool {
    filter.len() == 0 || exists|j: int| 0 <= j < filter.len() && id_matches(#[trigger] filter[j], pubkey, index)
}

/// `value` for a set bit, `-value` for a clear one.
pub open spec fn signed_reward(bit: bool, value: int) -> int {
    if bit {
        value
    } else {
        -value
    }
}

/// The (index, reward) entries of the first `n` members that the filter keeps.
pub open spec fn sync_rewards_upto(
    members: Seq<SyncCommitteeMember>,
    bits: Seq<bool>,
    value: int,
    filter: Seq<ValidatorId>,
    n: int,
) -> Seq<(u64, int)>
    decreases n,
{
    if n <= 0 {
        seq![]
    } else {
        let prev = sync_rewards_upto(members, bits, value, filter, n - 1);
        let m = members[n - 1];
        let idx = m.validator_index.unwrap();
        if selected(filter, m.pubkey@, idx) {
            prev.push((idx, signed_reward(bits[n - 1], value)))
        } else {
            prev
        }
    }
}

/// The (index, reward) entries of all members that the filter keeps, in committee order.
pub open spec fn sync_rewards(
    members: Seq<SyncCommitteeMember>,
    bits: Seq<bool>,
    value: int,
    filter: Seq<ValidatorId>,
) -> Seq<(u64, int)> {
    sync_rewards_upto(members, bits, value, filter, members.len() as int)
}

/// Every member's key resolves to a validator index.
pub open spec fn all_members_known(members: Seq<SyncCommitteeMember>) -> bool {
    forall|i: int| 0 <= i < members.len() ==> (#[trigger] members[i]).validator_index is Some
}

/// The emitted entries are exactly the (index, reward) pairs of `s`.
pub open spec fn rewards_match(r: Seq<SyncCommitteeReward>, s: Seq<(u64, int)>) -> bool {
    &&& r.len() == s.len()
    &&& forall|i: int|
        0 <= i < r.len() ==> (#[trigger] r[i]).validator_index == s[i].0 && r[i].reward == s[i].1
}

/// Whether two byte strings are equal.
pub fn bytes_equal(a: &Vec<u8>, b: &Vec<u8>) -> (r: bool)
    ensures
        r == (a@ == b@),
{
    if a.len() != b.len() {
        return false;
    }
    let mut i: usize = 0;
    while i < a.len()
        invariant
            i <= a@.len(),
            a@.len() == b@.len(),
            forall|j: int| 0 <= j < i ==> a@[j] == b@[j],
        decreases a@.len() - i,
    {
        if a[i] != b[i] {
            return false;
        }
        i = i + 1;
    }
    assert(a@ =~= b@);
    true
}

/// Whether `filter` keeps the member with key `pubkey` and index `index`.
pub fn is_selected(filter: &Vec<ValidatorId>, pubkey: &Vec<u8>, index: u64) -> (r: bool)
    ensures
        r == selected(filter@, pubkey@, index),
{
    if filter.len() == 0 {
        return true;
    }
    let mut j: usize = 0;
    while j < filter.len()
        invariant
            j <= filter@.len(),
            forall|k: int| 0 <= k < j ==> !id_matches(#[trigger] filter@[k], pubkey@, index),
        decreases filter@.len() - j,
    {
        let hit = match &filter[j] {
            ValidatorId::PublicKey(k) => bytes_equal(k, pubkey),
            ValidatorId::Index(i) => *i == index,
        };
        if hit {
            assert(id_matches(filter@[j as int], pubkey@, index));
            return true;
        }
        j = j + 1;
    }
    false
}

/// Rewards of the sync-committee members for one block: `+value` for each
/// member whose aggregate bit is set, `-value` otherwise, for the members that
/// `filter` keeps, in committee order. `None` when the committee is empty.
pub fn compute_sync_committee_rewards(
    members: &Vec<SyncCommitteeMember>,
    bits: &Vec<bool>,
    participant_reward_value: u64,
    filter: &Vec<ValidatorId>,
) -> (r: Result<Option<Vec<SyncCommitteeReward>>, RewardError>)
    ensures
        members@.len() == 0 ==> r == Ok::<Option<Vec<SyncCommitteeReward>>, RewardError>(None),
        members@.len() > 0 && bits@.len() != members@.len() ==> r == Err::<
            Option<Vec<SyncCommitteeReward>>,
            RewardError,
        >(RewardError::Invalid),
        members@.len() > 0 && bits@.len() == members@.len() && !all_members_known(members@) ==> r
            == Err::<Option<Vec<SyncCommitteeReward>>, RewardError>(RewardError::Invalid),
        members@.len() > 0 && bits@.len() == members@.len() && all_members_known(members@)
            && participant_reward_value > i64::MAX ==> r == Err::<
            Option<Vec<SyncCommitteeReward>>,
            RewardError,
        >(RewardError::Arithmetic),
        members@.len() > 0 && bits@.len() == members@.len() && all_members_known(members@)
            && participant_reward_value <= i64::MAX ==> {
            &&& r is Ok
            &&& r->Ok_0 is Some
            &&& rewards_match(
                r->Ok_0->Some_0@,
                sync_rewards(members@, bits@, participant_reward_value as int, filter@),
            )
        },
{
    let n = members.len();
    if n == 0 {
        return Ok(None);
    }
    if bits.len() != n {
        return Err(RewardError::Invalid);
    }
    let mut k: usize = 0;
    while k < n
        invariant
            n == members@.len(),
            k <= n,
            forall|j: int| 0 <= j < k ==> (#[trigger] members@[j]).validator_index is Some,
        decreases n - k,
    {
        if members[k].validator_index.is_none() {
            return Err(RewardError::Invalid);
        }
        k = k + 1;
    }
    if participant_reward_value > i64::MAX as u64 {
        return Err(RewardError::Arithmetic);
    }
    let value = participant_reward_value as i64;
    let mut out: Vec<SyncCommitteeReward> = Vec::new();
    let mut i: usize = 0;
    while i < n
        invariant
            n == members@.len(),
            n == bits@.len(),
            i <= n,
            all_members_known(members@),
            value == participant_reward_value,
            value <= i64::MAX,
            rewards_match(
                out@,
                sync_rewards_upto(members@, bits@, value as int, filter@, i as int),
            ),
        decreases n - i,
    {
        let m = &members[i];
        assert(members@[i as int].validator_index is Some);
        let idx = m.validator_index.unwrap();
        if is_selected(filter, &m.pubkey, idx) {
            let reward = if bits[i] {
                value
            } else {
                -value
            };
            out.push(SyncCommitteeReward { validator_index: idx, reward });
        }
        i = i + 1;
    }
    Ok(Some(out))
}

/// The sum of the absolute rewards of a sequence of entries.
pub open spec fn sum_abs(s: Seq<(u64, int)>) -> int
    decreases s.len(),
{
    if s.len() == 0 {
        0
    } else {
        sum_abs(s.drop_last()) + if s.last().1 < 0 {
            -s.last().1
        } else {
            s.last().1
        }
    }
}

/// Without a filter every member has one entry, in committee order, whose
/// sign follows its aggregate bit, and the absolute rewards sum to
/// `value * committee size`.
pub proof fn lemma_unfiltered_rewards(
    members: Seq<SyncCommitteeMember>,
    bits: Seq<bool>,
    value: int,
    n: int,
)
    requires
        0 <= n <= members.len(),
        value >= 0,
    ensures
        sync_rewards_upto(members, bits, value, seq![], n).len() == n,
        forall|i: int|
            0 <= i < n ==> (#[trigger] sync_rewards_upto(members, bits, value, seq![], n)[i]) == (
            members[i].validator_index.unwrap(),
            signed_reward(bits[i], value),
            ),
        sum_abs(sync_rewards_upto(members, bits, value, seq![], n)) == value * n,
    decreases n,
{
    if n > 0 {
        lemma_unfiltered_rewards(members, bits, value, n - 1);
        let prev = sync_rewards_upto(members, bits, value, seq![], n - 1);
        let cur = sync_rewards_upto(members, bits, value, seq![], n);
        assert(cur.drop_last() =~= prev);
        assert(value * n == value * (n - 1) + value) by (nonlinear_arith);
    }
}

/// Whether `index` is one of `indices`.
pub open spec fn in_indices(indices: Seq<u64>, index: u64) -> bool {
    indices.contains(index)
}

/// The filter that names each of `indices` by index.
pub open spec fn index_filter(indices: Seq<u64>) -> Seq<ValidatorId> {
    indices.map_values(|i: u64| ValidatorId::Index(i))
}

/// Filtering by a non-empty set of validator indices keeps exactly the
/// unfiltered entries whose index is in the set, in the same order.
pub proof fn lemma_index_filter(
    members: Seq<SyncCommitteeMember>,
    bits: Seq<bool>,
    value: int,
    indices: Seq<u64>,
    n: int,
)
    requires
        indices.len() > 0,
        0 <= n <= members.len(),
    ensures
        sync_rewards_upto(members, bits, value, index_filter(indices), n) == sync_rewards_upto(
            members,
            bits,
            value,
            seq![],
            n,
        ).filter(|e: (u64, int)| in_indices(indices, e.0)),
    decreases n,
{
    reveal(Seq::filter);
    let pred = |e: (u64, int)| in_indices(indices, e.0);
    let f = index_filter(indices);
    if n > 0 {
        lemma_index_filter(members, bits, value, indices, n - 1);
        let all = sync_rewards_upto(members, bits, value, seq![], n);
        let all_prev = sync_rewards_upto(members, bits, value, seq![], n - 1);
        assert(all.drop_last() =~= all_prev);
        let m = members[n - 1];
        let idx = m.validator_index.unwrap();
        if selected(f, m.pubkey@, idx) {
            let j = choose|j: int| 0 <= j < f.len() && id_matches(#[trigger] f[j], m.pubkey@, idx);
            assert(indices[j] == idx);
            assert(in_indices(indices, idx));
        } else {
            if in_indices(indices, idx) {
                let j = choose|j: int| 0 <= j < indices.len() && indices[j] == idx;
                assert(id_matches(f[j], m.pubkey@, idx));
            }
        }
    } else {
        assert(sync_rewards_upto(members, bits, value, seq![], n).len() == 0);
    }
}

} // verus!
