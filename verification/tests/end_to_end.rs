use thelio_io_tester::blockdev::BlockProbe;
use thelio_io_tester::device::DeviceId;
use thelio_io_tester::errors::{FixtureError, GuardError, TestError};
use thelio_io_tester::fans::FanReading;
use thelio_io_tester::firmware::{expected_board_bytes, expected_version_bytes};
use thelio_io_tester::fixture::{exit_code, run_tester, tester_with_blocked_module, TestTrace};
use thelio_io_tester::security::SecurityState;

fn ec_id() -> DeviceId {
    DeviceId { vendor: 0x3384, product: 0x000B, interface: 1 }
}

fn bootloader_probe(name: &[u8]) -> BlockProbe {
    BlockProbe { vendor: Some(b"RPI".to_vec()), model: Some(b"RP2".to_vec()), name: name.to_vec() }
}

/// A trace in which everything goes right: one controller that unlocks on
/// the second poll, one bootloader device that mounts, a successful
/// firmware write, one re-enumerated controller with the expected
/// identity, and four healthy fans.
fn passing_trace() -> TestTrace {
    let mut unlock_rounds: Vec<Vec<SecurityState>> = vec![vec![SecurityState::Unlock]; 60];
    unlock_rounds[0] = vec![SecurityState::Lock];

    let mut block_rounds: Vec<Vec<BlockProbe>> = (0..30).map(|_| Vec::new()).collect();
    block_rounds[1] = vec![bootloader_probe(b"/dev/sda")];

    let mut ec_rounds: Vec<Vec<DeviceId>> = vec![Vec::new(); 30];
    ec_rounds[2] = vec![ec_id()];

    TestTrace {
        initial_devices: vec![ec_id()],
        unlock_rounds,
        block_rounds,
        mount_first: None,
        mount_command_ok: true,
        mount_second: Some(b"/media/RPI-RP2".to_vec()),
        firmware_write_ok: true,
        ec_rounds,
        board: expected_board_bytes(),
        version: expected_version_bytes(),
        fans: vec![FanReading { pwm: 127, rpm: 300 }; 4],
    }
}

#[test]
fn full_run_passes_with_exit_code_zero() {
    let trace = passing_trace();
    let verdict = tester_with_blocked_module(Ok(()), &trace, Ok(()));
    assert_eq!(verdict, Ok(()));
    assert_eq!(exit_code(&verdict), 0);
}

#[test]
fn version_mismatch_fails_with_both_strings_reported() {
    let mut trace = passing_trace();
    trace.version = b"0.21.0-66-gffffff".to_vec();
    let verdict = tester_with_blocked_module(Ok(()), &trace, Ok(()));
    assert_eq!(
        verdict,
        Err(FixtureError::Test(TestError::VersionMismatch {
            found: b"0.21.0-66-gffffff".to_vec(),
            expected: expected_version_bytes(),
        }))
    );
    assert_eq!(exit_code(&verdict), 1);
}

#[test]
fn board_mismatch_fails_before_version_is_checked() {
    let mut trace = passing_trace();
    trace.board = b"system76/other".to_vec();
    trace.version = b"bogus".to_vec();
    assert_eq!(
        run_tester(&trace),
        Err(TestError::BoardMismatch {
            found: b"system76/other".to_vec(),
            expected: expected_board_bytes(),
        })
    );
}

#[test]
fn zero_bootloaders_after_budget_is_a_cardinality_error() {
    let mut trace = passing_trace();
    trace.block_rounds = (0..30).map(|_| Vec::new()).collect();
    assert_eq!(run_tester(&trace), Err(TestError::BootloaderCount { found: 0 }));
}

#[test]
fn two_bootloaders_are_a_cardinality_error() {
    let mut trace = passing_trace();
    trace.block_rounds[1] = vec![bootloader_probe(b"/dev/sda"), bootloader_probe(b"/dev/sdb")];
    assert_eq!(run_tester(&trace), Err(TestError::BootloaderCount { found: 2 }));
}

#[test]
fn unlock_timeout_fails_the_run() {
    let mut trace = passing_trace();
    trace.unlock_rounds = vec![vec![SecurityState::PrepareUnlock]; 60];
    assert_eq!(run_tester(&trace), Err(TestError::UnlockTimeout { locked: 1 }));
}

#[test]
fn mount_command_failure_is_fatal() {
    let mut trace = passing_trace();
    trace.mount_command_ok = false;
    trace.mount_second = None;
    assert_eq!(run_tester(&trace), Err(TestError::MountCommandFailed));
}

#[test]
fn unmounted_bootloader_is_skipped_not_failed() {
    // The documented gap: a bootloader that never appears in the mount
    // table is skipped, so the run proceeds to the functional test.
    let mut trace = passing_trace();
    trace.mount_second = None;
    trace.firmware_write_ok = false;
    assert_eq!(run_tester(&trace), Ok(()));
}

#[test]
fn firmware_write_failure_is_fatal() {
    let mut trace = passing_trace();
    trace.firmware_write_ok = false;
    assert_eq!(run_tester(&trace), Err(TestError::FirmwareWrite));
}

#[test]
fn no_runtime_controller_is_a_cardinality_error() {
    let mut trace = passing_trace();
    trace.ec_rounds = vec![Vec::new(); 30];
    assert_eq!(run_tester(&trace), Err(TestError::EcCount { found: 0 }));
}

#[test]
fn failing_fan_fails_the_run() {
    let mut trace = passing_trace();
    trace.fans[3] = FanReading { pwm: 127, rpm: 299 };
    assert_eq!(
        run_tester(&trace),
        Err(TestError::FanRpm { channel: 3, found: 299, minimum: 300 })
    );
}

#[test]
fn guard_block_failure_wins_over_everything() {
    let trace = passing_trace();
    let verdict = tester_with_blocked_module(Err(GuardError::BlacklistWrite), &trace, Ok(()));
    assert_eq!(verdict, Err(FixtureError::Guard(GuardError::BlacklistWrite)));
    assert_eq!(exit_code(&verdict), 1);
}

#[test]
fn guard_release_failure_wins_over_a_passing_body() {
    let trace = passing_trace();
    let verdict =
        tester_with_blocked_module(Ok(()), &trace, Err(GuardError::BlacklistRemove));
    assert_eq!(verdict, Err(FixtureError::Guard(GuardError::BlacklistRemove)));
}
