//! The fixture's error taxonomy: transport failures (always fatal, never
//! retried), cardinality failures (zero or several candidate devices),
//! retry-budget exhaustion, and identity or fan verification mismatches.
//! Mismatch variants carry both the observed and the expected value so the
//! operator can diagnose a failing board.

use vstd::prelude::*;

verus! {

/// Failures of the driver-isolation guard that brackets a test run.
#[derive(Clone, Copy, PartialEq, Eq, Structural, Debug)]
pub enum GuardError {
    /// Writing the configuration file that blacklists the kernel module failed.
    BlacklistWrite,
    /// The module-removal command could not be started.
    ModuleRemoveSpawn,
    /// The module-removal command ran but exited with failure.
    ModuleRemoveFailed,
    /// Removing the blacklist configuration file failed.
    BlacklistRemove,
}

/// Failures of the test body itself, from unlocking the controller through
/// the final fan check.
#[derive(Clone, PartialEq, Eq, Debug)]
pub enum TestError {
    /// The USB HID subsystem could not be opened for enumeration.
    HidApiOpen,
    /// A device matching the controller identity could not be opened.
    EcOpen,
    /// The opened device refused the transport handshake.
    EcAccess,
    /// The opened device failed the protocol probe.
    EcProbe,
    /// Reading a controller's security state failed.
    SecurityRead,
    /// Commanding a controller to prepare for unlock failed.
    SecuritySet,
    /// Resetting a controller into its bootloader failed.
    EcReset,
    /// The unlock retry budget ran out with `locked` controllers not yet unlocked.
    UnlockTimeout { locked: usize },
    /// Enumerating block devices failed.
    BlockScan,
    /// Not exactly one bootloader block device was found.
    BootloaderCount { found: usize },
    /// The mount table could not be read.
    MountTableRead,
    /// The external mount command could not be started.
    MountCommandSpawn,
    /// The external mount command ran but exited with failure.
    MountCommandFailed,
    /// Writing the firmware image onto the mounted bootloader volume failed.
    FirmwareWrite,
    /// Not exactly one controller re-enumerated in its runtime personality.
    EcCount { found: usize },
    /// Reading the board identifier failed.
    BoardRead,
    /// Reading the firmware version failed.
    VersionRead,
    /// The board identifier differs from the expected one.
    BoardMismatch { found: Vec<u8>, expected: Vec<u8> },
    /// The firmware version differs from the expected one.
    VersionMismatch { found: Vec<u8>, expected: Vec<u8> },
    /// Commanding a fan channel's duty value failed.
    FanSet { channel: u8 },
    /// Reading back a fan channel's duty value failed.
    FanGet { channel: u8 },
    /// Reading a fan channel's tachometer failed.
    FanTach { channel: u8 },
    /// A fan channel read back a duty value other than the commanded one.
    FanPwm { channel: u8, found: u8, expected: u8 },
    /// A fan channel's measured rotation rate fell below the minimum.
    FanRpm { channel: u8, found: u16, minimum: u16 },
}

/// The overall verdict of one run: either the guard failed around the test
/// body, or the test body itself failed.
#[derive(Clone, PartialEq, Eq, Debug)]
pub enum FixtureError {
    Guard(GuardError),
    Test(TestError),
}

} // verus!
