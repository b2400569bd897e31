//! Post-flash identity verification: the freshly flashed controller must
//! report exactly the expected board identifier and firmware version,
//! byte for byte, with no trimming and no case folding.

use vstd::prelude::*;

use crate::bytes::{bytes_eq, copy_bytes};
use crate::errors::TestError;

verus! {

/// The bytes of the expected board identifier, "system76/thelio_io_2".
pub open spec fn expected_board() -> Seq<u8> {
    seq![
        0x73u8, 0x79u8, 0x73u8, 0x74u8, 0x65u8, 0x6du8, 0x37u8, 0x36u8, 0x2fu8, 0x74u8,
        0x68u8, 0x65u8, 0x6cu8, 0x69u8, 0x6fu8, 0x5fu8, 0x69u8, 0x6fu8, 0x5fu8, 0x32u8,
    ]
}

/// The bytes of the expected firmware version, "0.21.0-65-g0c3e4c".
pub open spec fn expected_version() -> Seq<u8> {
    seq![
        0x30u8, 0x2eu8, 0x32u8, 0x31u8, 0x2eu8, 0x30u8, 0x2du8, 0x36u8, 0x35u8, 0x2du8,
        0x67u8, 0x30u8, 0x63u8, 0x33u8, 0x65u8, 0x34u8, 0x63u8,
    ]
}

/// The expected board identifier as a byte string.
pub fn expected_board_bytes() -> (r: Vec<u8>)
    ensures
        r@ == expected_board(),
{
    let mut r: Vec<u8> = Vec::new();
    r.push(0x73);
    r.push(0x79);
    r.push(0x73);
    r.push(0x74);
    r.push(0x65);
    r.push(0x6d);
    r.push(0x37);
    r.push(0x36);
    r.push(0x2f);
    r.push(0x74);
    r.push(0x68);
    r.push(0x65);
    r.push(0x6c);
    r.push(0x69);
    r.push(0x6f);
    r.push(0x5f);
    r.push(0x69);
    r.push(0x6f);
    r.push(0x5f);
    r.push(0x32);
    proof {
        assert(r@ =~= expected_board());
    }
    r
}

/// The expected firmware version as a byte string.
pub fn expected_version_bytes() -> (r: Vec<u8>)
    ensures
        r@ == expected_version(),
{
    let mut r: Vec<u8> = Vec::new();
    r.push(0x30);
    r.push(0x2e);
    r.push(0x32);
    r.push(0x31);
    r.push(0x2e);
    r.push(0x30);
    r.push(0x2d);
    r.push(0x36);
    r.push(0x35);
    r.push(0x2d);
    r.push(0x67);
    r.push(0x30);
    r.push(0x63);
    r.push(0x33);
    r.push(0x65);
    r.push(0x34);
    r.push(0x63);
    proof {
        assert(r@ =~= expected_version());
    }
    r
}

/// Compares the board identifier and firmware version the controller
/// reported against the expected constants. The board is checked first;
/// a mismatch of either is fatal and carries both the observed and the
/// expected bytes.
pub fn verify_identity(board: &Vec<u8>, version: &Vec<u8>) -> (r: Result<(), TestError>)
    ensures
        (r is Ok) <==> (board@ == expected_board() && version@ == expected_version()),
        board@ != expected_board() ==> (r matches Err(
            TestError::BoardMismatch { found, expected },
        ) && found@ == board@ && expected@ == expected_board()),
        board@ == expected_board() && version@ != expected_version() ==> (r matches Err(
            TestError::VersionMismatch { found, expected },
        ) && found@ == version@ && expected@ == expected_version()),
{
    let expected_b = expected_board_bytes();
    if !bytes_eq(board, &expected_b) {
        return Err(TestError::BoardMismatch { found: copy_bytes(board), expected: expected_b });
    }
    let expected_v = expected_version_bytes();
    if !bytes_eq(version, &expected_v) {
        return Err(
            TestError::VersionMismatch { found: copy_bytes(version), expected: expected_v },
        );
    }
    Ok(())
}

} // verus!
