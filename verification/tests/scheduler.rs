use round_robin::roster::{Config, ConfigError, ValidatorRoster};
use round_robin::scheduler::{is_my_turn, next_slot};

#[test]
fn turn_follows_the_next_height() {
    for total in 1u32..8 {
        for height in 0u64..60 {
            for id in 0u32..9 {
                let expected = (height + 1) % u64::from(total) == u64::from(id);
                assert_eq!(is_my_turn(height, id, total), expected);
            }
        }
    }
}

#[test]
fn slots_of_known_heights() {
    assert_eq!(next_slot(9, 3), 1);
    assert_eq!(next_slot(10, 3), 2);
    assert_eq!(next_slot(11, 3), 0);
    assert_eq!(next_slot(0, 1), 0);
    assert_eq!(next_slot(0, 5), 1);
    assert_eq!(next_slot(4, 5), 0);
}

#[test]
fn exactly_one_validator_has_the_turn() {
    for total in 1u32..10 {
        for height in 0u64..40 {
            let mut owners = 0;
            for id in 0..total {
                if is_my_turn(height, id, total) {
                    owners += 1;
                    assert_eq!(id, next_slot(height, total));
                }
            }
            assert_eq!(owners, 1);
        }
    }
}

#[test]
fn asking_twice_gives_the_same_answer() {
    for height in [0u64, 1, 9, 10, 4_000_000_000, u64::MAX - 1, u64::MAX] {
        for id in 0u32..4 {
            let first = is_my_turn(height, id, 3);
            let second = is_my_turn(height, id, 3);
            assert_eq!(first, second);
        }
    }
}

#[test]
fn every_validator_is_picked_once_per_round() {
    let total = 5u32;
    let rounds = 4u64;
    let start = 13u64;
    for id in 0..total {
        let mut picked = 0u64;
        for height in start..start + rounds * u64::from(total) {
            if is_my_turn(height, id, total) {
                picked += 1;
            }
        }
        assert_eq!(picked, rounds);
    }
}

#[test]
fn heights_beyond_the_roster_type_are_reduced_first() {
    // 2^32 is 4 modulo 7, so 2^32 + 5 steps to 2^32 + 6, which is 3 modulo 7.
    // Narrowing the height first would leave 6.
    let height = (1u64 << 32) + 5;
    assert_eq!(next_slot(height, 7), 3);
    assert!(is_my_turn(height, 3, 7));
    assert!(!is_my_turn(height, 6, 7));
    // 2^64 - 1 is 1 modulo 7.
    assert_eq!(next_slot(u64::MAX - 1, 7), 1);
}

#[test]
fn the_largest_height_saturates() {
    // 2^64 - 1 is divisible by 3, and stepping it stays where it is.
    assert_eq!(next_slot(u64::MAX, 3), 0);
    assert!(is_my_turn(u64::MAX, 0, 3));
    assert!(!is_my_turn(u64::MAX, 1, 3));
    assert_eq!(next_slot(u64::MAX, 1), 0);
}

#[test]
fn a_single_validator_always_has_the_turn() {
    for height in 0u64..20 {
        assert!(is_my_turn(height, 0, 1));
        assert!(!is_my_turn(height, 1, 1));
    }
}

#[test]
fn roster_refuses_an_empty_set() {
    assert_eq!(ValidatorRoster::new(0, 0), Err(ConfigError::NoValidators));
    assert_eq!(ValidatorRoster::new(3, 0), Err(ConfigError::NoValidators));
}

#[test]
fn roster_keeps_what_it_was_given() {
    let roster = ValidatorRoster::new(2, 3).unwrap();
    assert_eq!(roster.self_id(), 2);
    assert_eq!(roster.total(), 3);
    assert_eq!(roster.next_slot(9), 1);
    assert!(!roster.is_my_turn(9));
    assert!(roster.is_my_turn(10));
}

#[test]
fn roster_agrees_with_the_scheduler() {
    for total in 1u32..6 {
        for id in 0..total {
            let roster = ValidatorRoster::new(id, total).unwrap();
            for height in 0u64..30 {
                assert_eq!(roster.is_my_turn(height), is_my_turn(height, id, total));
                assert_eq!(roster.next_slot(height), next_slot(height, total));
            }
        }
    }
}

#[test]
fn config_checks_its_options() {
    assert_eq!(Config::new(0, 0, 6000), Err(ConfigError::NoValidators));
    assert_eq!(Config::new(0, 0, 0), Err(ConfigError::NoValidators));
    assert_eq!(Config::new(0, 3, 0), Err(ConfigError::ZeroInterval));
    let config = Config::new(1, 3, 6000).unwrap();
    assert_eq!(config.roster().self_id(), 1);
    assert_eq!(config.roster().total(), 3);
    assert_eq!(config.tick_interval_ms(), 6000);
}
