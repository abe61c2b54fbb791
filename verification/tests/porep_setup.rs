use filecoin_proofs::constants::{DRG_DEGREE, EXP_DEGREE, NODE_SIZE};
use filecoin_proofs::error::ParamsError;
use filecoin_proofs::parameters::{
    setup_params_fit, drg_seed_from_porep_id, public_params, setup_params,
};
use filecoin_proofs::policy::{PorepPolicy, PorepPolicyEntry};
use filecoin_proofs::scheme::ProofScheme;
use filecoin_proofs::stacked::SetupParams;
use filecoin_proofs::types::PaddedBytesAmount;

const SECTOR_SIZE_2_KIB: u64 = 1 << 11;
const SECTOR_SIZE_8_MIB: u64 = 1 << 23;
const SECTOR_SIZE_32_GIB: u64 = 1 << 35;

fn sample_policy() -> PorepPolicy {
    let mut policy = PorepPolicy::new();
    policy.insert(SECTOR_SIZE_2_KIB, 2, 2);
    policy.insert(SECTOR_SIZE_8_MIB, 2, 2);
    policy.insert(SECTOR_SIZE_32_GIB, 176, 11);
    policy
}

/// A scheme whose public parameters are the setup parameters it was given.
struct Echo;

impl ProofScheme for Echo {
    type SetupParams = SetupParams;
    type PublicParams = SetupParams;

    fn setup(sp: &SetupParams) -> SetupParams {
        *sp
    }
}

#[test]
fn policy_starts_empty() {
    let policy = PorepPolicy::new();
    assert_eq!(policy.get(SECTOR_SIZE_2_KIB), None);
    assert_eq!(policy.get(0), None);
}

#[test]
fn policy_returns_what_was_inserted() {
    let policy = sample_policy();
    assert_eq!(
        policy.get(SECTOR_SIZE_2_KIB),
        Some(PorepPolicyEntry { minimum_challenges: 2, layers: 2 })
    );
    assert_eq!(
        policy.get(SECTOR_SIZE_32_GIB),
        Some(PorepPolicyEntry { minimum_challenges: 176, layers: 11 })
    );
    assert_eq!(policy.get(4096), None);
}

#[test]
fn policy_insert_replaces_an_entry() {
    let mut policy = sample_policy();
    policy.insert(SECTOR_SIZE_2_KIB, 5, 3);
    assert_eq!(
        policy.get(SECTOR_SIZE_2_KIB),
        Some(PorepPolicyEntry { minimum_challenges: 5, layers: 3 })
    );
    assert_eq!(
        policy.get(SECTOR_SIZE_8_MIB),
        Some(PorepPolicyEntry { minimum_challenges: 2, layers: 2 })
    );
}

#[test]
fn setup_params_rejects_sector_size_33() {
    let policy = sample_policy();
    let result = setup_params(&policy, PaddedBytesAmount(33), 1, [0u8; 32]);
    assert_eq!(result.err(), Some(ParamsError::InvalidSectorSize { sector_bytes: 33 }));
}

#[test]
fn setup_params_rejects_invalid_size_even_if_registered() {
    let mut policy = sample_policy();
    policy.insert(33, 2, 2);
    policy.insert(0, 2, 2);
    let result = setup_params(&policy, PaddedBytesAmount(33), 1, [0u8; 32]);
    assert_eq!(result.err(), Some(ParamsError::InvalidSectorSize { sector_bytes: 33 }));
    let result = setup_params(&policy, PaddedBytesAmount(0), 1, [0u8; 32]);
    assert_eq!(result.err(), Some(ParamsError::InvalidSectorSize { sector_bytes: 0 }));
}

#[test]
fn setup_params_rejects_zero_sector_size() {
    let policy = sample_policy();
    let result = setup_params(&policy, PaddedBytesAmount(0), 1, [0u8; 32]);
    assert_eq!(result.err(), Some(ParamsError::InvalidSectorSize { sector_bytes: 0 }));
}

#[test]
fn setup_params_rejects_unregistered_sector_size() {
    let policy = sample_policy();
    let result = setup_params(&policy, PaddedBytesAmount(4096), 1, [0u8; 32]);
    assert_eq!(result.err(), Some(ParamsError::UnknownSectorSize { sector_bytes: 4096 }));
    let empty = PorepPolicy::new();
    let result = setup_params(&empty, PaddedBytesAmount(SECTOR_SIZE_2_KIB), 1, [0u8; 32]);
    assert_eq!(
        result.err(),
        Some(ParamsError::UnknownSectorSize { sector_bytes: SECTOR_SIZE_2_KIB })
    );
}

#[test]
fn setup_params_node_count_is_sector_size_over_32() {
    let policy = sample_policy();
    let params = setup_params(&policy, PaddedBytesAmount(SECTOR_SIZE_2_KIB), 1, [0u8; 32]).unwrap();
    assert_eq!(params.nodes, 64);
    let params = setup_params(&policy, PaddedBytesAmount(SECTOR_SIZE_8_MIB), 1, [0u8; 32]).unwrap();
    assert_eq!(params.nodes, 262144);
    let params =
        setup_params(&policy, PaddedBytesAmount(SECTOR_SIZE_32_GIB), 10, [0u8; 32]).unwrap();
    assert_eq!(params.nodes as u64, SECTOR_SIZE_32_GIB / 32);

    let mut policy = PorepPolicy::new();
    for multiple in 1..=40u64 {
        policy.insert(multiple * 32, 1, 1);
    }
    for multiple in 1..=40u64 {
        let params = setup_params(&policy, PaddedBytesAmount(multiple * 32), 1, [0u8; 32]).unwrap();
        assert_eq!(params.nodes as u64, multiple);
    }
}

#[test]
fn setup_params_fills_the_record() {
    let policy = sample_policy();
    let porep_id = [5u8; 32];
    let params =
        setup_params(&policy, PaddedBytesAmount(SECTOR_SIZE_32_GIB), 10, porep_id).unwrap();
    assert_eq!(params.nodes as u64, 1 << 30);
    assert_eq!(params.degree, 6);
    assert_eq!(params.degree, DRG_DEGREE);
    assert_eq!(params.expansion_degree, 8);
    assert_eq!(params.expansion_degree, EXP_DEGREE);
    assert_eq!(params.seed, drg_seed_from_porep_id(porep_id));
    assert_eq!(params.layer_challenges.layers(), 11);
    assert_eq!(params.layer_challenges.max_count(), 2);
    assert_eq!(params.layer_challenges.challenges_count_all(), 22);
    assert_eq!(NODE_SIZE, 32);
}

#[test]
fn setup_params_seed_known_value() {
    let policy = sample_policy();
    let params = setup_params(&policy, PaddedBytesAmount(SECTOR_SIZE_2_KIB), 1, [0u8; 32]).unwrap();
    let expected: [u8; 28] = [
        182, 87, 190, 10, 224, 216, 119, 224, 156, 251, 118, 129, 162, 245, 38, 42, 149, 144, 158,
        115, 175, 0, 174, 109, 190, 65, 79, 140,
    ];
    assert_eq!(params.seed, expected);
}

#[test]
fn setup_params_challenges_follow_partitions() {
    let mut policy = PorepPolicy::new();
    policy.insert(SECTOR_SIZE_2_KIB, 12, 1);
    for (partitions, count) in [(1usize, 12usize), (2, 6), (4, 3), (12, 1), (13, 1)].iter() {
        let params =
            setup_params(&policy, PaddedBytesAmount(SECTOR_SIZE_2_KIB), *partitions, [0u8; 32])
                .unwrap();
        assert_eq!(params.layer_challenges.layers(), 1);
        assert_eq!(params.layer_challenges.max_count(), *count);
    }
}

#[test]
fn setup_params_fit_accepts_what_ends_in_an_error() {
    let policy = sample_policy();
    assert!(setup_params_fit(&policy, PaddedBytesAmount(33), 0));
    assert!(setup_params_fit(&policy, PaddedBytesAmount(0), 0));
    assert!(setup_params_fit(&policy, PaddedBytesAmount(4096), 0));
}

#[test]
fn setup_params_fit_asks_for_partitions_and_layers() {
    let mut policy = sample_policy();
    assert!(setup_params_fit(&policy, PaddedBytesAmount(SECTOR_SIZE_2_KIB), 1));
    assert!(setup_params_fit(&policy, PaddedBytesAmount(SECTOR_SIZE_32_GIB), 10));
    assert!(!setup_params_fit(&policy, PaddedBytesAmount(SECTOR_SIZE_2_KIB), 0));
    policy.insert(64, 2, 0);
    assert!(!setup_params_fit(&policy, PaddedBytesAmount(64), 1));
    policy.insert(96, usize::MAX, 2);
    assert!(!setup_params_fit(&policy, PaddedBytesAmount(96), 1));
}

#[test]
fn public_params_hands_the_record_to_the_scheme() {
    let policy = sample_policy();
    let porep_id = [9u8; 32];
    let public =
        public_params::<Echo>(&policy, PaddedBytesAmount(SECTOR_SIZE_32_GIB), 10, porep_id)
            .unwrap();
    let params =
        setup_params(&policy, PaddedBytesAmount(SECTOR_SIZE_32_GIB), 10, porep_id).unwrap();
    assert_eq!(public.nodes, params.nodes);
    assert_eq!(public.nodes as u64, 1 << 30);
    assert_eq!(public.degree, 6);
    assert_eq!(public.expansion_degree, 8);
    assert_eq!(public.seed, drg_seed_from_porep_id(porep_id));
    assert_eq!(public.layer_challenges.layers(), 11);
    assert_eq!(public.layer_challenges.max_count(), 2);
}

#[test]
fn public_params_passes_errors_on() {
    let policy = sample_policy();
    let result = public_params::<Echo>(&policy, PaddedBytesAmount(33), 1, [0u8; 32]);
    assert_eq!(result.err(), Some(ParamsError::InvalidSectorSize { sector_bytes: 33 }));
    let result = public_params::<Echo>(&policy, PaddedBytesAmount(4096), 1, [0u8; 32]);
    assert_eq!(result.err(), Some(ParamsError::UnknownSectorSize { sector_bytes: 4096 }));
}
