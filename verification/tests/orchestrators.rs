use thelio_io_tester::blockdev::{await_bootloaders, BlockProbe};
use thelio_io_tester::device::{await_ecs, require_single_ec, DeviceId};
use thelio_io_tester::errors::TestError;
use thelio_io_tester::fans::{check_fan, run_fan_test, FanReading};
use thelio_io_tester::firmware::{expected_board_bytes, expected_version_bytes, verify_identity};
use thelio_io_tester::fixture::require_single_bootloader;
use thelio_io_tester::security::{poll_round, run_unlock, should_arm_unlock, SecurityState};

fn ec_id() -> DeviceId {
    DeviceId { vendor: 0x3384, product: 0x000B, interface: 1 }
}

fn bootloader_probe(name: &[u8]) -> BlockProbe {
    BlockProbe { vendor: Some(b"RPI".to_vec()), model: Some(b"RP2".to_vec()), name: name.to_vec() }
}

#[test]
fn retry_loop_never_exceeds_budget_on_always_failing_condition() {
    // An environment that never produces a device: every runner must
    // consume exactly its budget, and no more rounds than it has.
    let empty_ec_rounds: Vec<Vec<DeviceId>> = vec![Vec::new(); 30];
    let w = await_ecs(&empty_ec_rounds, 30);
    assert_eq!(w.attempts, 30);
    assert!(w.found.is_empty());

    let empty_block_rounds: Vec<Vec<BlockProbe>> = (0..30).map(|_| Vec::new()).collect();
    let b = await_bootloaders(&empty_block_rounds, 30);
    assert_eq!(b.attempts, 30);
    assert!(b.found.is_empty());

    let locked_rounds: Vec<Vec<SecurityState>> = vec![vec![SecurityState::Lock]; 60];
    let u = run_unlock(&locked_rounds, 1, 60);
    assert_eq!(u.attempts, 60);
    assert_eq!(u.result, Err(TestError::UnlockTimeout { locked: 1 }));
}

#[test]
fn retry_loop_stops_at_first_success() {
    let mut rounds: Vec<Vec<DeviceId>> = vec![Vec::new(); 30];
    rounds[2] = vec![ec_id()];
    rounds[7] = vec![ec_id(), ec_id()];
    let w = await_ecs(&rounds, 30);
    assert_eq!(w.attempts, 3);
    assert_eq!(w.found, vec![ec_id()]);
}

#[test]
fn arm_command_only_for_locked_states() {
    assert!(should_arm_unlock(&SecurityState::Lock));
    assert!(should_arm_unlock(&SecurityState::PrepareLock));
    assert!(!should_arm_unlock(&SecurityState::PrepareUnlock));
    assert!(!should_arm_unlock(&SecurityState::Unlock));
}

#[test]
fn unlock_machine_arms_exactly_the_locked_states() {
    let states = vec![
        SecurityState::Lock,
        SecurityState::PrepareLock,
        SecurityState::PrepareUnlock,
        SecurityState::Unlock,
    ];
    let round = poll_round(&states);
    assert_eq!(round.arm, vec![true, true, false, false]);
    assert_eq!(round.unlocked, 1);
}

#[test]
fn unlock_machine_terminates_on_first_all_unlocked_poll() {
    // One controller walks Lock -> PrepareLock -> PrepareUnlock -> Unlock.
    let mut rounds: Vec<Vec<SecurityState>> = vec![vec![SecurityState::Unlock]; 60];
    rounds[0] = vec![SecurityState::Lock];
    rounds[1] = vec![SecurityState::PrepareLock];
    rounds[2] = vec![SecurityState::PrepareUnlock];
    rounds[3] = vec![SecurityState::Unlock];
    let u = run_unlock(&rounds, 1, 60);
    assert_eq!(u.result, Ok(()));
    assert_eq!(u.attempts, 4);
    // A PrepareUnlock command went out only while the state was Lock or
    // PrepareLock, never once the controller was armed or unlocked.
    assert_eq!(
        u.arm_commands,
        vec![vec![true], vec![true], vec![false], vec![false]],
    );
}

#[test]
fn unlock_timeout_reports_remaining_locked_count() {
    let round = vec![SecurityState::Unlock, SecurityState::Lock, SecurityState::PrepareUnlock];
    let rounds: Vec<Vec<SecurityState>> = vec![round; 60];
    let u = run_unlock(&rounds, 3, 60);
    assert_eq!(u.result, Err(TestError::UnlockTimeout { locked: 2 }));
}

#[test]
fn unlock_succeeds_immediately_with_no_controllers() {
    let rounds: Vec<Vec<SecurityState>> = vec![Vec::new(); 60];
    let u = run_unlock(&rounds, 0, 60);
    assert_eq!(u.result, Ok(()));
    assert_eq!(u.attempts, 1);
}

#[test]
fn flash_requires_exactly_one_bootloader() {
    let none: Vec<Vec<u8>> = Vec::new();
    assert_eq!(
        require_single_bootloader(&none),
        Err(TestError::BootloaderCount { found: 0 })
    );

    let one = vec![b"sda".to_vec()];
    assert_eq!(require_single_bootloader(&one), Ok(b"sda".to_vec()));

    let two = vec![b"sda".to_vec(), b"sdb".to_vec()];
    assert_eq!(
        require_single_bootloader(&two),
        Err(TestError::BootloaderCount { found: 2 })
    );
}

#[test]
fn bootloader_wait_returns_first_nonempty_round() {
    let mut rounds: Vec<Vec<BlockProbe>> = (0..30).map(|_| Vec::new()).collect();
    rounds[4] = vec![bootloader_probe(b"sda"), bootloader_probe(b"sdb")];
    let b = await_bootloaders(&rounds, 30);
    assert_eq!(b.attempts, 5);
    assert_eq!(b.found, vec![b"sda".to_vec(), b"sdb".to_vec()]);
}

#[test]
fn functional_test_requires_exactly_one_controller() {
    assert_eq!(
        require_single_ec(&Vec::new()),
        Err(TestError::EcCount { found: 0 })
    );
    assert_eq!(require_single_ec(&vec![ec_id()]), Ok(ec_id()));
    assert_eq!(
        require_single_ec(&vec![ec_id(), ec_id()]),
        Err(TestError::EcCount { found: 2 })
    );
}

#[test]
fn identity_passes_iff_both_strings_match_exactly() {
    let board = expected_board_bytes();
    let version = expected_version_bytes();
    let wrong_board = b"system76/thelio_io_1".to_vec();
    let wrong_version = b"0.21.0-65-g0c3e4d".to_vec();

    assert_eq!(verify_identity(&board, &version), Ok(()));
    assert_eq!(
        verify_identity(&wrong_board, &version),
        Err(TestError::BoardMismatch { found: wrong_board.clone(), expected: board.clone() })
    );
    assert_eq!(
        verify_identity(&board, &wrong_version),
        Err(TestError::VersionMismatch {
            found: wrong_version.clone(),
            expected: version.clone(),
        })
    );
    // A wrong board is reported first even when both differ.
    assert_eq!(
        verify_identity(&wrong_board, &wrong_version),
        Err(TestError::BoardMismatch { found: wrong_board.clone(), expected: board.clone() })
    );
}

#[test]
fn fan_channel_fails_on_wrong_pwm_readback() {
    let r = check_fan(2, FanReading { pwm: 126, rpm: 1000 });
    assert_eq!(r, Err(TestError::FanPwm { channel: 2, found: 126, expected: 127 }));
}

#[test]
fn fan_channel_rpm_bound_is_inclusive() {
    assert_eq!(check_fan(0, FanReading { pwm: 127, rpm: 300 }), Ok(()));
    assert_eq!(
        check_fan(0, FanReading { pwm: 127, rpm: 299 }),
        Err(TestError::FanRpm { channel: 0, found: 299, minimum: 300 })
    );
}

#[test]
fn fan_test_reports_first_failing_channel() {
    let readings = vec![
        FanReading { pwm: 127, rpm: 500 },
        FanReading { pwm: 127, rpm: 299 },
        FanReading { pwm: 0, rpm: 0 },
        FanReading { pwm: 127, rpm: 300 },
    ];
    assert_eq!(
        run_fan_test(&readings),
        Err(TestError::FanRpm { channel: 1, found: 299, minimum: 300 })
    );

    let all_good = vec![FanReading { pwm: 127, rpm: 300 }; 4];
    assert_eq!(run_fan_test(&all_good), Ok(()));
}
