use validator_rewards::attestation::{
    build_ideal_rewards, compute_attestation_rewards, compute_validator_reward, flag_reward,
    ideal_reward, EpochAggregates, IdealReward, ParticipationFlag, ValidatorParticipation,
    PROPOSER_WEIGHT, SYNC_REWARD_WEIGHT, WEIGHT_DENOMINATOR,
};
use validator_rewards::error::RewardError;
use validator_rewards::sync_committee::{
    bytes_equal, compute_sync_committee_rewards, is_selected, SyncCommitteeMember,
    SyncCommitteeReward, ValidatorId,
};

const GWEI_PER_ETH: u64 = 1_000_000_000;

fn aggregates() -> EpochAggregates {
    EpochAggregates {
        total_active_balance: 32_000 * GWEI_PER_ETH,
        effective_balance_increment: GWEI_PER_ETH,
        base_reward_per_increment: 100,
        source_participating_balance: 16_000 * GWEI_PER_ETH,
        target_participating_balance: 24_000 * GWEI_PER_ETH,
        head_participating_balance: 32_000 * GWEI_PER_ETH,
        in_inactivity_leak: false,
    }
}

fn validator(index: u64, eligible: bool, flags: bool) -> ValidatorParticipation {
    ValidatorParticipation {
        validator_index: index,
        eligible,
        effective_balance: 32 * GWEI_PER_ETH,
        source: flags,
        target: flags,
        head: flags,
    }
}

fn member(key: u8, index: u64) -> SyncCommitteeMember {
    SyncCommitteeMember { pubkey: vec![key, key, key], validator_index: Some(index) }
}

#[test]
fn weights_add_up_to_the_denominator() {
    let sum = ParticipationFlag::Source.weight()
        + ParticipationFlag::Target.weight()
        + ParticipationFlag::Head.weight()
        + SYNC_REWARD_WEIGHT
        + PROPOSER_WEIGHT;
    assert_eq!(sum, WEIGHT_DENOMINATOR);
}

#[test]
fn ideal_reward_exact_values() {
    let p = aggregates();
    assert_eq!(ideal_reward(&p, ParticipationFlag::Source, 32), Ok(350));
    assert_eq!(ideal_reward(&p, ParticipationFlag::Target, 32), Ok(975));
    assert_eq!(ideal_reward(&p, ParticipationFlag::Head, 32), Ok(700));
    assert_eq!(ideal_reward(&p, ParticipationFlag::Source, 1), Ok(10));
    assert_eq!(ideal_reward(&p, ParticipationFlag::Target, 1), Ok(30));
    assert_eq!(ideal_reward(&p, ParticipationFlag::Head, 1), Ok(21));
    assert_eq!(ideal_reward(&p, ParticipationFlag::Head, 0), Ok(0));
}

#[test]
fn ideal_table_has_every_bucket_and_never_decreases() {
    let table = build_ideal_rewards(&aggregates()).unwrap();
    assert_eq!(table.len(), 33);
    for (b, row) in table.iter().enumerate() {
        assert_eq!(row.effective_balance, b as u64);
    }
    for w in table.windows(2) {
        assert!(w[0].source <= w[1].source);
        assert!(w[0].target <= w[1].target);
        assert!(w[0].head <= w[1].head);
    }
    assert_eq!(
        table[32],
        IdealReward { effective_balance: 32, source: 350, target: 975, head: 700 }
    );
}

#[test]
fn inactivity_leak_zeroes_the_table() {
    let mut p = aggregates();
    p.in_inactivity_leak = true;
    let table = build_ideal_rewards(&p).unwrap();
    assert_eq!(table.len(), 33);
    for row in table.iter() {
        assert_eq!((row.source, row.target, row.head), (0, 0, 0));
    }
}

#[test]
fn zero_total_active_balance_is_an_arithmetic_error() {
    let mut p = aggregates();
    p.total_active_balance = 0;
    assert_eq!(build_ideal_rewards(&p), Err(RewardError::Arithmetic));
    assert!(matches!(compute_attestation_rewards(&p, &vec![]), Err(RewardError::Arithmetic)));
}

#[test]
fn zero_increment_is_an_arithmetic_error() {
    let mut p = aggregates();
    p.effective_balance_increment = 0;
    assert_eq!(build_ideal_rewards(&p), Err(RewardError::Arithmetic));
}

#[test]
fn overflowing_base_reward_is_an_arithmetic_error() {
    let mut p = aggregates();
    p.base_reward_per_increment = u64::MAX / 2;
    assert_eq!(build_ideal_rewards(&p), Err(RewardError::Arithmetic));
}

#[test]
fn ineligible_validator_gets_nothing() {
    let p = aggregates();
    let table = build_ideal_rewards(&p).unwrap();
    for flags in [true, false] {
        let r = compute_validator_reward(&p, &table, &validator(7, false, flags)).unwrap();
        assert_eq!((r.validator_index, r.source, r.target, r.head, r.total), (7, 0, 0, 0, 0));
    }
}

#[test]
fn full_participation_earns_the_table_values() {
    let p = aggregates();
    let table = build_ideal_rewards(&p).unwrap();
    let r = compute_validator_reward(&p, &table, &validator(3, true, true)).unwrap();
    assert_eq!((r.source, r.target, r.head), (350, 975, 700));
    assert_eq!(
        r.total,
        (table[32].source + table[32].target + table[32].head) as i64
    );
}

#[test]
fn missed_flags_are_penalised_by_own_base_reward() {
    let p = aggregates();
    let table = build_ideal_rewards(&p).unwrap();
    let r = compute_validator_reward(&p, &table, &validator(4, true, false)).unwrap();
    assert_eq!((r.source, r.target, r.head, r.total), (-700, -1300, -700, -2700));
}

#[test]
fn each_validator_uses_its_own_bucket_and_flags() {
    let p = aggregates();
    let table = build_ideal_rewards(&p).unwrap();
    let v = ValidatorParticipation {
        validator_index: 9,
        eligible: true,
        effective_balance: GWEI_PER_ETH,
        source: true,
        target: false,
        head: true,
    };
    assert_eq!(flag_reward(&p, &table, &v, ParticipationFlag::Source), Ok(10));
    assert_eq!(flag_reward(&p, &table, &v, ParticipationFlag::Target), Ok(-40));
    assert_eq!(flag_reward(&p, &table, &v, ParticipationFlag::Head), Ok(21));
}

#[test]
fn bucket_beyond_the_table_is_invalid() {
    let p = aggregates();
    let table = build_ideal_rewards(&p).unwrap();
    let mut v = validator(5, true, true);
    v.effective_balance = 64 * GWEI_PER_ETH;
    assert_eq!(compute_validator_reward(&p, &table, &v), Err(RewardError::Invalid));
}

#[test]
fn attestation_rewards_cover_every_validator_in_order() {
    let p = aggregates();
    let vs = vec![validator(1, true, true), validator(2, false, true), validator(3, true, false)];
    let a = compute_attestation_rewards(&p, &vs).unwrap();
    assert_eq!(a.ideal_rewards.len(), 33);
    let got: Vec<(u64, i64)> = a.total_rewards.iter().map(|r| (r.validator_index, r.total)).collect();
    assert_eq!(got, vec![(1, 2025), (2, 0), (3, -2700)]);
}

#[test]
fn sync_rewards_follow_the_bits() {
    let members = vec![member(1, 0), member(2, 1)];
    let r = compute_sync_committee_rewards(&members, &vec![true, false], 10, &vec![]);
    assert_eq!(
        r,
        Ok(Some(vec![
            SyncCommitteeReward { validator_index: 0, reward: 10 },
            SyncCommitteeReward { validator_index: 1, reward: -10 },
        ]))
    );
}

#[test]
fn sync_rewards_absolute_sum_is_value_times_size() {
    let members: Vec<SyncCommitteeMember> = (0..5u8).map(|k| member(k, 100 + k as u64)).collect();
    let bits = vec![true, false, false, true, true];
    let r = compute_sync_committee_rewards(&members, &bits, 7, &vec![]).unwrap().unwrap();
    assert_eq!(r.len(), 5);
    let sum: i64 = r.iter().map(|e| e.reward.abs()).sum();
    assert_eq!(sum, 35);
    for (e, bit) in r.iter().zip(bits.iter()) {
        assert_eq!(e.reward > 0, *bit);
    }
}

#[test]
fn sync_filter_by_index_keeps_order() {
    let members: Vec<SyncCommitteeMember> = (0..4u8).map(|k| member(k, 10 * k as u64)).collect();
    let bits = vec![true, false, true, false];
    let filter = vec![ValidatorId::Index(30), ValidatorId::Index(10), ValidatorId::Index(99)];
    let r = compute_sync_committee_rewards(&members, &bits, 5, &filter).unwrap().unwrap();
    let got: Vec<(u64, i64)> = r.iter().map(|e| (e.validator_index, e.reward)).collect();
    assert_eq!(got, vec![(10, -5), (30, -5)]);
}

#[test]
fn sync_filter_by_public_key() {
    let members = vec![member(1, 0), member(2, 1), member(3, 2)];
    let filter = vec![ValidatorId::PublicKey(vec![3, 3, 3])];
    let r = compute_sync_committee_rewards(&members, &vec![true, true, true], 4, &filter);
    assert_eq!(r, Ok(Some(vec![SyncCommitteeReward { validator_index: 2, reward: 4 }])));
}

#[test]
fn empty_sync_committee_has_no_rewards() {
    assert_eq!(compute_sync_committee_rewards(&vec![], &vec![], 10, &vec![]), Ok(None));
}

#[test]
fn sync_bits_must_match_committee_size() {
    let members = vec![member(1, 0), member(2, 1)];
    let r = compute_sync_committee_rewards(&members, &vec![true], 10, &vec![]);
    assert_eq!(r, Err(RewardError::Invalid));
}

#[test]
fn unknown_sync_member_is_invalid() {
    let members = vec![
        member(1, 0),
        SyncCommitteeMember { pubkey: vec![9], validator_index: None },
    ];
    let filter = vec![ValidatorId::Index(0)];
    let r = compute_sync_committee_rewards(&members, &vec![true, true], 10, &filter);
    assert_eq!(r, Err(RewardError::Invalid));
}

#[test]
fn sync_reward_value_beyond_i64_is_an_arithmetic_error() {
    let members = vec![member(1, 0)];
    let r = compute_sync_committee_rewards(&members, &vec![true], u64::MAX, &vec![]);
    assert_eq!(r, Err(RewardError::Arithmetic));
}

#[test]
fn selection_and_key_comparison() {
    assert!(bytes_equal(&vec![1, 2], &vec![1, 2]));
    assert!(!bytes_equal(&vec![1, 2], &vec![1, 3]));
    assert!(!bytes_equal(&vec![1], &vec![1, 1]));
    assert!(is_selected(&vec![], &vec![5], 5));
    assert!(is_selected(&vec![ValidatorId::Index(5)], &vec![0], 5));
    assert!(!is_selected(&vec![ValidatorId::PublicKey(vec![1])], &vec![0], 5));
}
