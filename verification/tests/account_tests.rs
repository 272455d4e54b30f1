use ore_cli_utils::accounts::{_get_treasury, get_clock, get_config, get_proof, FetchError};
use solana_program::clock::Clock;
use solana_program::pubkey::Pubkey;

fn config_bytes(base_reward_rate: u64, last_reset_at: i64, min_difficulty: u64, top_balance: u64) -> Vec<u8> {
    let mut data = vec![101u8, 0, 0, 0, 0, 0, 0, 0];
    data.extend_from_slice(&base_reward_rate.to_le_bytes());
    data.extend_from_slice(&last_reset_at.to_le_bytes());
    data.extend_from_slice(&min_difficulty.to_le_bytes());
    data.extend_from_slice(&top_balance.to_le_bytes());
    data
}

#[test]
fn missing_account_is_not_found_for_every_reader() {
    assert_eq!(get_config(None), Err(FetchError::NotFound));
    assert_eq!(_get_treasury(None), Err(FetchError::NotFound));
    assert_eq!(get_proof(None), Err(FetchError::NotFound));
    assert_eq!(get_clock(None), Err(FetchError::NotFound));
}

#[test]
fn config_decodes_from_valid_bytes() {
    let config = get_config(Some(config_bytes(32, 7, 3, 9))).unwrap();
    assert_eq!(config.base_reward_rate, 32);
    assert_eq!(config.last_reset_at, 7);
    assert_eq!(config.min_difficulty, 3);
    assert_eq!(config.top_balance, 9);
}

#[test]
fn config_with_wrong_tag_is_decode_error() {
    let mut data = config_bytes(32, 7, 3, 9);
    data[0] = 99;
    assert_eq!(get_config(Some(data)), Err(FetchError::DecodeError));
}

#[test]
fn config_with_wrong_length_is_decode_error() {
    assert_eq!(get_config(Some(Vec::new())), Err(FetchError::DecodeError));
    assert_eq!(get_config(Some(vec![101u8])), Err(FetchError::DecodeError));
    let mut short = config_bytes(32, 7, 3, 9);
    short.pop();
    assert_eq!(get_config(Some(short)), Err(FetchError::DecodeError));
}

#[test]
fn treasury_decodes_from_valid_bytes() {
    let data = vec![103u8, 0, 0, 0, 0, 0, 0, 0];
    assert!(_get_treasury(Some(data)).is_ok());
    assert_eq!(_get_treasury(Some(vec![0u8; 8])), Err(FetchError::DecodeError));
}

#[test]
fn proof_decodes_from_valid_bytes() {
    let authority = Pubkey::new_unique();
    let miner = Pubkey::new_unique();
    let mut data = vec![102u8, 0, 0, 0, 0, 0, 0, 0];
    data.extend_from_slice(&authority.to_bytes());
    data.extend_from_slice(&42u64.to_le_bytes());
    data.extend_from_slice(&[1u8; 32]);
    data.extend_from_slice(&[2u8; 32]);
    data.extend_from_slice(&100i64.to_le_bytes());
    data.extend_from_slice(&200i64.to_le_bytes());
    data.extend_from_slice(&miner.to_bytes());
    data.extend_from_slice(&7u64.to_le_bytes());
    data.extend_from_slice(&8u64.to_le_bytes());
    let proof = get_proof(Some(data)).unwrap();
    assert_eq!(proof.authority, authority);
    assert_eq!(proof.balance, 42);
    assert_eq!(proof.challenge, [1u8; 32]);
    assert_eq!(proof.last_hash, [2u8; 32]);
    assert_eq!(proof.last_hash_at, 100);
    assert_eq!(proof.last_stake_at, 200);
    assert_eq!(proof.miner, miner);
    assert_eq!(proof.total_hashes, 7);
    assert_eq!(proof.total_rewards, 8);
}

#[test]
fn proof_with_truncated_bytes_is_decode_error() {
    let data = vec![102u8, 0, 0, 0, 0, 0, 0, 0];
    assert_eq!(get_proof(Some(data)), Err(FetchError::DecodeError));
}

#[test]
fn clock_round_trips_through_the_wire_encoding() {
    let clock = Clock {
        slot: 11,
        epoch_start_timestamp: 22,
        epoch: 33,
        leader_schedule_epoch: 44,
        unix_timestamp: 55,
    };
    let data = bincode::serialize(&clock).unwrap();
    let decoded = get_clock(Some(data)).unwrap();
    assert_eq!(decoded.slot, 11);
    assert_eq!(decoded.epoch_start_timestamp, 22);
    assert_eq!(decoded.epoch, 33);
    assert_eq!(decoded.leader_schedule_epoch, 44);
    assert_eq!(decoded.unix_timestamp, 55);
}

#[test]
fn clock_with_truncated_bytes_is_decode_error() {
    assert_eq!(get_clock(Some(vec![1u8, 2, 3])), Err(FetchError::DecodeError));
}
