//! The whole fixture run, composed from the phase decisions: unlock every
//! controller and reset it into the bootloader, wait for exactly one
//! bootloader block device and flash it, wait for exactly one controller
//! to re-enumerate at runtime, verify its identity, and exercise each fan
//! channel — all under the driver-isolation guard, whose release step
//! runs whatever the test body decided.
//!
//! The run is expressed over a [`TestTrace`]: the plain observations the
//! environment hands back, poll round by poll round. The program around
//! the library gathers those observations from the bus; the decisions
//! taken on them all live here.

use vstd::prelude::*;

use crate::blockdev::{await_bootloaders, bootloader_names, BlockProbe};
use crate::bytes::copy_bytes;
use crate::device::{await_ecs, ec_devices, require_single_ec, DeviceId};
use crate::errors::{FixtureError, GuardError, TestError};
use crate::fans::{fan_failure, fan_passes, FanReading, FAN_CHANNELS};
use crate::firmware::{expected_board, expected_version, verify_identity};
use crate::mounts::{resolve_mount, MountResolution};
use crate::security::{all_unlocked, locked_after, run_unlock, SecurityState};

verus! {

/// Poll budget for the unlock state machine, one poll per second.
pub const UNLOCK_ATTEMPTS: usize = 60;

/// Poll budget for the bootloader block device to appear after reset.
pub const BOOTLOADER_WAIT_ATTEMPTS: usize = 30;

/// Poll budget for the controller to re-enumerate after flashing.
pub const RUNTIME_WAIT_ATTEMPTS: usize = 30;

/// Seconds between two polls of any retry loop.
pub const POLL_INTERVAL_SECS: u64 = 1;

/// Seconds granted for the freshly appeared device to settle (the block
/// device to be mountable, a commanded fan to spin up) before reading.
pub const SETTLE_SECS: u64 = 1;

/// Flashing is only ever done to exactly one candidate: zero candidates
/// after the budget ran out, or several at any point, is a fatal
/// cardinality error carrying the observed count — the wrong target would
/// be destroyed, so ambiguity halts the run instead of guessing.
pub fn require_single_bootloader(found: &Vec<Vec<u8>>) -> (r: Result<Vec<u8>, TestError>)
    ensures
        found@.len() == 1 ==> (r matches Ok(d) && d@ == found@[0]@),
        found@.len() != 1 ==> r == Err::<Vec<u8>, TestError>(
            TestError::BootloaderCount { found: found@.len() as usize },
        ),
{
    if found.len() == 1 {
        Ok(copy_bytes(&found[0]))
    } else {
        Err(TestError::BootloaderCount { found: found.len() })
    }
}

/// Everything the environment reported during one test run, in the order
/// the phases consume it.
pub struct TestTrace {
    /// The USB devices enumerated before the unlock phase.
    pub initial_devices: Vec<DeviceId>,
    /// Security states read on each unlock poll, one entry per controller
    /// found in the initial enumeration.
    pub unlock_rounds: Vec<Vec<SecurityState>>,
    /// Block-device probes of each bootloader-wait poll.
    pub block_rounds: Vec<Vec<BlockProbe>>,
    /// First mount-table lookup of the bootloader device.
    pub mount_first: Option<Vec<u8>>,
    /// Whether the external mount command exited successfully.
    pub mount_command_ok: bool,
    /// Mount-table lookup repeated after a successful mount command.
    pub mount_second: Option<Vec<u8>>,
    /// Whether writing the firmware image to the mounted volume succeeded.
    pub firmware_write_ok: bool,
    /// USB devices enumerated on each runtime-wait poll.
    pub ec_rounds: Vec<Vec<DeviceId>>,
    /// Board identifier the re-enumerated controller reported.
    pub board: Vec<u8>,
    /// Firmware version the re-enumerated controller reported.
    pub version: Vec<u8>,
    /// Fan readings, one per channel, after commanding the test duty.
    pub fans: Vec<FanReading>,
}

/// The trace has one unlock reading per discovered controller on every
/// round, enough rounds for every budget, and one reading per fan channel.
pub open spec fn trace_wf(t: TestTrace) -> bool {
    &&& t.unlock_rounds@.len() >= UNLOCK_ATTEMPTS
    &&& forall|i: int|
        0 <= i < t.unlock_rounds@.len() ==> (#[trigger] t.unlock_rounds@[i])@.len()
            == ec_devices(t.initial_devices@).len()
    &&& t.block_rounds@.len() >= BOOTLOADER_WAIT_ATTEMPTS
    &&& t.ec_rounds@.len() >= RUNTIME_WAIT_ATTEMPTS
    &&& t.fans@.len() == FAN_CHANNELS
}

/// Some unlock poll within the budget saw every controller unlocked.
pub open spec fn unlock_ok(t: TestTrace) -> bool {
    exists|k: int| 0 <= k < UNLOCK_ATTEMPTS && all_unlocked((#[trigger] t.unlock_rounds@[k])@)
}

/// Round `k` is the first bootloader-wait poll that saw any candidate.
pub open spec fn boot_first_at(t: TestTrace, k: int) -> bool {
    &&& 0 <= k < BOOTLOADER_WAIT_ATTEMPTS
    &&& bootloader_names(t.block_rounds@[k]@).len() > 0
    &&& forall|j: int| 0 <= j < k ==> bootloader_names((#[trigger] t.block_rounds@[j])@).len() == 0
}

/// The bootloader wait ended with exactly one candidate.
pub open spec fn boot_single(t: TestTrace) -> bool {
    exists|k: int| #[trigger] boot_first_at(t, k) && bootloader_names(t.block_rounds@[k]@).len() == 1
}

/// The external mount command was needed and failed.
pub open spec fn mount_cmd_fails(t: TestTrace) -> bool {
    t.mount_first is None && !t.mount_command_ok
}

/// Mount resolution produced a mount point to write to.
pub open spec fn mount_resolves(t: TestTrace) -> bool {
    t.mount_first is Some || (t.mount_command_ok && t.mount_second is Some)
}

/// The flash phase ends without error: one candidate, and either its
/// volume resolved and the write succeeded, or it never appeared in the
/// mount table and was skipped.
pub open spec fn flash_ok(t: TestTrace) -> bool {
    &&& boot_single(t)
    &&& !mount_cmd_fails(t)
    &&& (mount_resolves(t) ==> t.firmware_write_ok)
}

/// Round `k` is the first runtime-wait poll that saw any controller.
pub open spec fn runtime_first_at(t: TestTrace, k: int) -> bool {
    &&& 0 <= k < RUNTIME_WAIT_ATTEMPTS
    &&& ec_devices(t.ec_rounds@[k]@).len() > 0
    &&& forall|j: int| 0 <= j < k ==> ec_devices((#[trigger] t.ec_rounds@[j])@).len() == 0
}

/// The runtime wait ended with exactly one controller.
pub open spec fn runtime_single(t: TestTrace) -> bool {
    exists|k: int| #[trigger] runtime_first_at(t, k) && ec_devices(t.ec_rounds@[k]@).len() == 1
}

/// The reported board identifier and firmware version both match.
pub open spec fn identity_ok(t: TestTrace) -> bool {
    t.board@ == expected_board() && t.version@ == expected_version()
}

/// Every fan channel passes.
pub open spec fn fans_ok(t: TestTrace) -> bool {
    forall|i: int| 0 <= i < t.fans@.len() ==> fan_passes(#[trigger] t.fans@[i])
}

/// The whole test body passes: every phase in order.
pub open spec fn tester_passes(t: TestTrace) -> bool {
    &&& unlock_ok(t)
    &&& flash_ok(t)
    &&& runtime_single(t)
    &&& identity_ok(t)
    &&& fans_ok(t)
}

/// Runs the whole test body over the trace: unlock, flash, re-enumerate,
/// verify identity, test the fans. It passes exactly when every phase
/// passes, and otherwise fails with the first failing phase's error.
pub fn run_tester(t: &TestTrace) -> (r: Result<(), TestError>)
    requires
        trace_wf(*t),
    ensures
        (r is Ok) <==> tester_passes(*t),
        !unlock_ok(*t) ==> r == Err::<(), TestError>(
            TestError::UnlockTimeout {
                locked: locked_after(
                    t.unlock_rounds@,
                    ec_devices(t.initial_devices@).len() as usize,
                    UNLOCK_ATTEMPTS,
                ),
            },
        ),
        unlock_ok(*t) && (forall|k: int|
            0 <= k < BOOTLOADER_WAIT_ATTEMPTS ==> bootloader_names(
                (#[trigger] t.block_rounds@[k])@,
            ).len() == 0) ==> r == Err::<(), TestError>(TestError::BootloaderCount { found: 0 }),
        forall|k: int|
            unlock_ok(*t) && #[trigger] boot_first_at(*t, k) && bootloader_names(
                t.block_rounds@[k]@,
            ).len() != 1 ==> r == Err::<(), TestError>(
                TestError::BootloaderCount {
                    found: bootloader_names(t.block_rounds@[k]@).len() as usize,
                },
            ),
        unlock_ok(*t) && boot_single(*t) && mount_cmd_fails(*t) ==> r == Err::<(), TestError>(
            TestError::MountCommandFailed,
        ),
        unlock_ok(*t) && boot_single(*t) && !mount_cmd_fails(*t) && mount_resolves(*t)
            && !t.firmware_write_ok ==> r == Err::<(), TestError>(TestError::FirmwareWrite),
        unlock_ok(*t) && flash_ok(*t) && (forall|k: int|
            0 <= k < RUNTIME_WAIT_ATTEMPTS ==> ec_devices((#[trigger] t.ec_rounds@[k])@).len()
                == 0) ==> r == Err::<(), TestError>(TestError::EcCount { found: 0 }),
        forall|k: int|
            unlock_ok(*t) && flash_ok(*t) && #[trigger] runtime_first_at(*t, k) && ec_devices(
                t.ec_rounds@[k]@,
            ).len() != 1 ==> r == Err::<(), TestError>(
                TestError::EcCount { found: ec_devices(t.ec_rounds@[k]@).len() as usize },
            ),
        unlock_ok(*t) && flash_ok(*t) && runtime_single(*t) && t.board@ != expected_board() ==> (
        r matches Err(TestError::BoardMismatch { found, expected }) && found@ == t.board@
            && expected@ == expected_board()),
        unlock_ok(*t) && flash_ok(*t) && runtime_single(*t) && t.board@ == expected_board()
            && t.version@ != expected_version() ==> (r matches Err(
            TestError::VersionMismatch { found, expected },
        ) && found@ == t.version@ && expected@ == expected_version()),
        unlock_ok(*t) && flash_ok(*t) && runtime_single(*t) && identity_ok(*t) && !fans_ok(*t)
            ==> (r matches Err(e) && exists|i: int|
            {
                &&& 0 <= i < t.fans@.len()
                &&& !fan_passes(#[trigger] t.fans@[i])
                &&& e == fan_failure(i as u8, t.fans@[i])
                &&& forall|k: int| 0 <= k < i ==> fan_passes(t.fans@[k])
            }),
{
    let ecs = crate::device::select_ecs(&t.initial_devices);
    let unlock = run_unlock(&t.unlock_rounds, ecs.len(), UNLOCK_ATTEMPTS);
    if let Err(e) = unlock.result {
        return Err(e);
    }
    let boot_wait = await_bootloaders(&t.block_rounds, BOOTLOADER_WAIT_ATTEMPTS);
    proof {
        if boot_wait.found@.len() > 0 {
            assert(boot_first_at(*t, boot_wait.attempts - 1));
            assert forall|k: int| #[trigger]
                boot_first_at(*t, k) implies k == boot_wait.attempts - 1 by {
                if k < boot_wait.attempts - 1 {
                    assert(bootloader_names(t.block_rounds@[k]@).len() == 0);
                } else if k > boot_wait.attempts - 1 {
                    assert(bootloader_names(t.block_rounds@[boot_wait.attempts - 1]@).len() == 0);
                }
            }
        } else {
            assert forall|k: int| !(#[trigger] boot_first_at(*t, k)) by {
                if 0 <= k < BOOTLOADER_WAIT_ATTEMPTS {
                    assert(bootloader_names(t.block_rounds@[k]@).len() == 0);
                }
            }
        }
    }
    let dev = match require_single_bootloader(&boot_wait.found) {
        Ok(dev) => dev,
        Err(e) => {
            return Err(e);
        },
    };
    match resolve_mount(&t.mount_first, t.mount_command_ok, &t.mount_second) {
        MountResolution::CommandFailed => {
            return Err(TestError::MountCommandFailed);
        },
        MountResolution::Mounted(_mount_point) => {
            if !t.firmware_write_ok {
                return Err(TestError::FirmwareWrite);
            }
        },
        MountResolution::NotMounted => {
            // A device that never shows up in the mount table is skipped,
            // not failed.
        },
    }
    let ec_wait = await_ecs(&t.ec_rounds, RUNTIME_WAIT_ATTEMPTS);
    proof {
        if ec_wait.found@.len() > 0 {
            assert(runtime_first_at(*t, ec_wait.attempts - 1));
            assert forall|k: int| #[trigger]
                runtime_first_at(*t, k) implies k == ec_wait.attempts - 1 by {
                if k < ec_wait.attempts - 1 {
                    assert(ec_devices(t.ec_rounds@[k]@).len() == 0);
                } else if k > ec_wait.attempts - 1 {
                    assert(ec_devices(t.ec_rounds@[ec_wait.attempts - 1]@).len() == 0);
                }
            }
        } else {
            assert forall|k: int| !(#[trigger] runtime_first_at(*t, k)) by {
                if 0 <= k < RUNTIME_WAIT_ATTEMPTS {
                    assert(ec_devices(t.ec_rounds@[k]@).len() == 0);
                }
            }
        }
    }
    if let Err(e) = require_single_ec(&ec_wait.found) {
        return Err(e);
    }
    if let Err(e) = verify_identity(&t.board, &t.version) {
        return Err(e);
    }
    crate::fans::run_fan_test(&t.fans)
}

/// Combines the guard steps with the outcome of the test body: a failure
/// to engage the guard wins (the body never ran), then a failure to
/// release it, then the body's own result — the release step always runs
/// once the guard was engaged, whatever the body decided.
pub fn guarded_outcome(
    block: Result<(), GuardError>,
    body: Result<(), TestError>,
    allow: Result<(), GuardError>,
) -> (r: Result<(), FixtureError>)
    ensures
        block matches Err(e) ==> r == Err::<(), FixtureError>(FixtureError::Guard(e)),
        block is Ok ==> (allow matches Err(e) ==> r == Err::<(), FixtureError>(
            FixtureError::Guard(e),
        )),
        block is Ok && allow is Ok ==> match body {
            Ok(()) => r is Ok,
            Err(e) => r == Err::<(), FixtureError>(FixtureError::Test(e)),
        },
{
    if let Err(e) = block {
        return Err(FixtureError::Guard(e));
    }
    if let Err(e) = allow {
        return Err(FixtureError::Guard(e));
    }
    match body {
        Ok(()) => Ok(()),
        Err(e) => Err(FixtureError::Test(e)),
    }
}

/// The whole fixture: the test body run over the trace, bracketed by the
/// driver-isolation guard. `block` is the outcome of engaging the guard
/// before the body; `allow` the outcome of releasing it afterwards, a
/// step that runs on every exit path once the guard was engaged (and so
/// is ignored here when `block` failed, since the body never ran).
pub fn tester_with_blocked_module(
    block: Result<(), GuardError>,
    trace: &TestTrace,
    allow: Result<(), GuardError>,
) -> (r: Result<(), FixtureError>)
    requires
        trace_wf(*trace),
    ensures
        block matches Err(e) ==> r == Err::<(), FixtureError>(FixtureError::Guard(e)),
        block is Ok ==> (allow matches Err(e) ==> r == Err::<(), FixtureError>(
            FixtureError::Guard(e),
        )),
        block is Ok && allow is Ok ==> ((r is Ok) <==> tester_passes(*trace)),
        block is Ok && allow is Ok && !tester_passes(*trace) ==> r matches Err(
            FixtureError::Test(_),
        ),
        block is Ok && allow is Ok && unlock_ok(*trace) && flash_ok(*trace) && runtime_single(
            *trace,
        ) && trace.board@ != expected_board() ==> (r matches Err(
            FixtureError::Test(TestError::BoardMismatch { found, expected }),
        ) && found@ == trace.board@ && expected@ == expected_board()),
        block is Ok && allow is Ok && unlock_ok(*trace) && flash_ok(*trace) && runtime_single(
            *trace,
        ) && trace.board@ == expected_board() && trace.version@ != expected_version() ==> (
        r matches Err(FixtureError::Test(TestError::VersionMismatch { found, expected }))
            && found@ == trace.version@ && expected@ == expected_version()),
{
    if let Err(e) = block {
        return Err(FixtureError::Guard(e));
    }
    let body = run_tester(trace);
    guarded_outcome(Ok(()), body, allow)
}

/// The process exit code the verdict maps to: zero on pass, one on any
/// failure.
pub fn exit_code(r: &Result<(), FixtureError>) -> (c: i32)
    ensures
        c == if r is Ok { 0int } else { 1int },
{
    match r {
        Ok(()) => 0,
        Err(_) => 1,
    }
}

} // verus!
