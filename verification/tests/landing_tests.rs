use ore_cli_utils::landing::{find_landed_txs, satisfies_confirmed, CommitmentTier, TxStatus};
use solana_sdk::signature::Signature;

fn with_tier(tier: CommitmentTier) -> TxStatus {
    TxStatus { confirmation_status: Some(tier), confirmations: Some(1) }
}

#[test]
fn landing_classification_keeps_only_confirmed() {
    let s1 = Signature::new_unique();
    let s2 = Signature::new_unique();
    let s3 = Signature::new_unique();
    let signatures = vec![s1, s2, s3];
    let statuses = vec![
        Some(with_tier(CommitmentTier::Confirmed)),
        None,
        Some(with_tier(CommitmentTier::Processed)),
    ];
    let landed = find_landed_txs(&signatures, &statuses);
    assert_eq!(landed, vec![s1]);
}

#[test]
fn landing_classification_includes_finalized() {
    let s1 = Signature::new_unique();
    let s2 = Signature::new_unique();
    let signatures = vec![s1, s2];
    let statuses = vec![
        Some(with_tier(CommitmentTier::Finalized)),
        Some(with_tier(CommitmentTier::Processed)),
    ];
    let landed = find_landed_txs(&signatures, &statuses);
    assert_eq!(landed, vec![s1]);
}

#[test]
fn landing_classification_empty_input() {
    let signatures: Vec<Signature> = Vec::new();
    let statuses: Vec<Option<TxStatus>> = Vec::new();
    let landed = find_landed_txs(&signatures, &statuses);
    assert!(landed.is_empty());
}

#[test]
fn landing_classification_preserves_input_order() {
    let s1 = Signature::new_unique();
    let s2 = Signature::new_unique();
    let s3 = Signature::new_unique();
    let signatures = vec![s1, s2, s3];
    let statuses = vec![
        Some(with_tier(CommitmentTier::Finalized)),
        Some(with_tier(CommitmentTier::Processed)),
        Some(with_tier(CommitmentTier::Confirmed)),
    ];
    let landed = find_landed_txs(&signatures, &statuses);
    assert_eq!(landed, vec![s1, s3]);
}

#[test]
fn older_node_reports_fall_back_to_confirmation_count() {
    let rooted = TxStatus { confirmation_status: None, confirmations: None };
    let counted = TxStatus { confirmation_status: None, confirmations: Some(2) };
    let single = TxStatus { confirmation_status: None, confirmations: Some(1) };
    let unconfirmed = TxStatus { confirmation_status: None, confirmations: Some(0) };
    assert!(satisfies_confirmed(&rooted));
    assert!(satisfies_confirmed(&counted));
    assert!(!satisfies_confirmed(&single));
    assert!(!satisfies_confirmed(&unconfirmed));
}

#[test]
fn satisfies_confirmed_follows_the_tier_ordering() {
    assert!(!satisfies_confirmed(&with_tier(CommitmentTier::Processed)));
    assert!(satisfies_confirmed(&with_tier(CommitmentTier::Confirmed)));
    assert!(satisfies_confirmed(&with_tier(CommitmentTier::Finalized)));
}
