//! Block-device scanning: recognising the controller's bootloader by the
//! vendor and model descriptors of a block device's parent, and the
//! bounded wait for such a device to appear after the reset.

use vstd::prelude::*;

use crate::bytes::{bytes_eq, copy_bytes, trim_ascii, trimmed};

verus! {

/// Vendor descriptor, after trimming, of the bootloader's mass-storage
/// presentation: the bytes of "RPI".
pub open spec fn bootloader_vendor_tag() -> Seq<u8> {
    seq![0x52u8, 0x50u8, 0x49u8]
}

/// Model descriptor, after trimming, of the bootloader's mass-storage
/// presentation: the bytes of "RP2".
pub open spec fn bootloader_model_tag() -> Seq<u8> {
    seq![0x52u8, 0x50u8, 0x32u8]
}

/// What one block device looked like when probed: the vendor and model
/// descriptors of its parent physical device, where they could be read at
/// all, and the device's own name (its path in the device tree). A probe
/// without a parent, or whose descriptors could not be read, carries
/// `None` and is silently skipped — most block devices of the system are
/// simply not the target.
pub struct BlockProbe {
    pub vendor: Option<Vec<u8>>,
    pub model: Option<Vec<u8>>,
    pub name: Vec<u8>,
}

/// A probe is the bootloader exactly when both descriptors were readable
/// and, trimmed, equal the fixed vendor and model tags.
pub open spec fn is_bootloader_probe(p: BlockProbe) -> bool {
    match (p.vendor, p.model) {
        (Some(v), Some(m)) => trimmed(v@) == bootloader_vendor_tag() && trimmed(m@)
            == bootloader_model_tag(),
        _ => false,
    }
}

/// The names of the probes recognised as bootloaders, in probe order.
pub open spec fn bootloader_names(probes: Seq<BlockProbe>) -> Seq<Seq<u8>>
    decreases probes.len(),
{
    if probes.len() == 0 {
        Seq::empty()
    } else {
        let rest = bootloader_names(probes.drop_last());
        if is_bootloader_probe(probes.last()) {
            rest.push(probes.last().name@)
        } else {
            rest
        }
    }
}

fn vendor_tag_bytes() -> (r: Vec<u8>)
    ensures
        r@ == bootloader_vendor_tag(),
{
    let mut r: Vec<u8> = Vec::new();
    r.push(0x52);
    r.push(0x50);
    r.push(0x49);
    proof {
        assert(r@ =~= bootloader_vendor_tag());
    }
    r
}

fn model_tag_bytes() -> (r: Vec<u8>)
    ensures
        r@ == bootloader_model_tag(),
{
    let mut r: Vec<u8> = Vec::new();
    r.push(0x52);
    r.push(0x50);
    r.push(0x32);
    proof {
        assert(r@ =~= bootloader_model_tag());
    }
    r
}

/// Executable recognition of one probe.
pub fn probe_is_bootloader(p: &BlockProbe) -> (r: bool)
    ensures
        r == is_bootloader_probe(*p),
{
    match (&p.vendor, &p.model) {
        (Some(v), Some(m)) => {
            let tv = trim_ascii(v);
            let ev = vendor_tag_bytes();
            if !bytes_eq(&tv, &ev) {
                return false;
            }
            let tm = trim_ascii(m);
            let em = model_tag_bytes();
            bytes_eq(&tm, &em)
        },
        _ => false,
    }
}

/// Scans one round of block-device probes and returns the names of those
/// recognised as bootloaders, in probe order.
pub fn scan_bootloaders(probes: &Vec<BlockProbe>) -> (r: Vec<Vec<u8>>)
    ensures
        r@.len() == bootloader_names(probes@).len(),
        forall|i: int|
            0 <= i < r@.len() ==> (#[trigger] r@[i])@ == bootloader_names(probes@)[i],
{
    let n = probes.len();
    let mut r: Vec<Vec<u8>> = Vec::new();
    let mut i: usize = 0;
    while i < n
        invariant
            n == probes@.len(),
            0 <= i <= n,
            r@.len() == bootloader_names(probes@.take(i as int)).len(),
            forall|k: int|
                0 <= k < r@.len() ==> (#[trigger] r@[k])@ == bootloader_names(
                    probes@.take(i as int),
                )[k],
        decreases n - i,
    {
        if probe_is_bootloader(&probes[i]) {
            r.push(copy_bytes(&probes[i].name));
        }
        proof {
            assert(probes@.take(i + 1).drop_last() =~= probes@.take(i as int));
            assert(probes@.take(i + 1).last() == probes@[i as int]);
        }
        i = i + 1;
    }
    proof {
        assert(probes@.take(n as int) =~= probes@);
    }
    r
}

/// Result of waiting for the bootloader to appear: the bootloader names
/// of the first probe round that saw any, and the number of rounds used.
pub struct BootloaderWait {
    pub found: Vec<Vec<u8>>,
    pub attempts: usize,
}

/// Polls the given probe rounds in order, stopping at the first round in
/// which any probe is recognised as a bootloader, and never looking at
/// more than `max_attempts` rounds.
pub fn await_bootloaders(rounds: &Vec<Vec<BlockProbe>>, max_attempts: usize) -> (r: BootloaderWait)
    requires
        rounds@.len() >= max_attempts,
    ensures
        r.attempts <= max_attempts,
        r.found@.len() > 0 ==> {
            &&& 1 <= r.attempts
            &&& r.found@.len() == bootloader_names(rounds@[r.attempts - 1]@).len()
            &&& forall|i: int|
                0 <= i < r.found@.len() ==> (#[trigger] r.found@[i])@ == bootloader_names(
                    rounds@[r.attempts - 1]@,
                )[i]
            &&& forall|k: int|
                0 <= k < r.attempts - 1 ==> bootloader_names(rounds@[k]@).len() == 0
        },
        r.found@.len() == 0 ==> {
            &&& r.attempts == max_attempts
            &&& forall|k: int|
                0 <= k < max_attempts ==> bootloader_names(rounds@[k]@).len() == 0
        },
{
    let mut attempt: usize = 0;
    while attempt < max_attempts
        invariant
            rounds@.len() >= max_attempts,
            0 <= attempt <= max_attempts,
            forall|k: int| 0 <= k < attempt ==> bootloader_names(rounds@[k]@).len() == 0,
        decreases max_attempts - attempt,
    {
        let found = scan_bootloaders(&rounds[attempt]);
        attempt = attempt + 1;
        if found.len() > 0 {
            return BootloaderWait { found, attempts: attempt };
        }
    }
    BootloaderWait { found: Vec::new(), attempts: max_attempts }
}

} // verus!
