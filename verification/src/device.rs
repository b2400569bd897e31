//! USB device identity: the fixed (vendor, product, interface) triple that
//! identifies the controller on the bus, the scan filter over enumerated
//! devices, and the bounded wait for the controller to re-enumerate.

use vstd::prelude::*;

use crate::errors::TestError;

verus! {

/// USB vendor id of the controller.
pub const EC_VENDOR_ID: u16 = 0x3384;

/// USB product id of the controller.
pub const EC_PRODUCT_ID: u16 = 0x000B;

/// USB interface number of the controller's vendor interface.
pub const EC_INTERFACE_NUMBER: i32 = 1;

/// The identity triple of one enumerated USB device.
#[derive(Clone, Copy, PartialEq, Eq, Structural, Debug)]
pub struct DeviceId {
    pub vendor: u16,
    pub product: u16,
    pub interface: i32,
}

/// A device is the controller exactly when all three identity fields match.
pub open spec fn is_ec_identity(d: DeviceId) -> bool {
    d.vendor == EC_VENDOR_ID && d.product == EC_PRODUCT_ID && d.interface == EC_INTERFACE_NUMBER
}

/// The subsequence of enumerated devices that carry the controller identity.
pub open spec fn ec_devices(devs: Seq<DeviceId>) -> Seq<DeviceId> {
    devs.filter(|d: DeviceId| is_ec_identity(d))
}

/// Executable identity test for one enumerated device.
pub fn matches_ec(d: &DeviceId) -> (r: bool)
    ensures
        r == is_ec_identity(*d),
{
    d.vendor == EC_VENDOR_ID && d.product == EC_PRODUCT_ID && d.interface == EC_INTERFACE_NUMBER
}

/// Selects, in bus order, every enumerated device whose identity triple
/// matches the controller. A device that differs in any field is excluded.
pub fn select_ecs(devs: &Vec<DeviceId>) -> (r: Vec<DeviceId>)
    ensures
        r@ == ec_devices(devs@),
{
    let n = devs.len();
    let mut r: Vec<DeviceId> = Vec::new();
    let mut i: usize = 0;
    while i < n
        invariant
            n == devs@.len(),
            0 <= i <= n,
            r@ == ec_devices(devs@.take(i as int)),
        decreases n - i,
    {
        if matches_ec(&devs[i]) {
            r.push(devs[i]);
        }
        proof {
            reveal(Seq::filter);
            assert(devs@.take(i + 1).drop_last() =~= devs@.take(i as int));
            assert(devs@.take(i + 1).last() == devs@[i as int]);
        }
        i = i + 1;
    }
    proof {
        assert(devs@.take(n as int) =~= devs@);
    }
    r
}

/// The scan keeps exactly the matching devices: every selected device
/// carries the controller identity, every matching device of the input is
/// selected, and nothing else is.
pub proof fn lemma_ec_devices_exact(devs: Seq<DeviceId>)
    ensures
        forall|d: DeviceId| #[trigger]
            ec_devices(devs).contains(d) <==> devs.contains(d) && is_ec_identity(d),
    decreases devs.len(),
{
    reveal(Seq::filter);
    if devs.len() == 0 {
        assert forall|d: DeviceId| #[trigger]
            ec_devices(devs).contains(d) <==> devs.contains(d) && is_ec_identity(d) by {
            assert(!devs.contains(d));
            assert(!ec_devices(devs).contains(d));
        }
    } else {
        let dl = devs.drop_last();
        let l = devs.last();
        lemma_ec_devices_exact(dl);
        assert forall|d: DeviceId| #[trigger]
            ec_devices(devs).contains(d) <==> devs.contains(d) && is_ec_identity(d) by {
            if ec_devices(devs).contains(d) {
                let i = choose|i: int|
                    0 <= i < ec_devices(devs).len() && ec_devices(devs)[i] == d;
                if is_ec_identity(l) && i == ec_devices(devs).len() - 1 {
                    assert(devs[devs.len() - 1] == d);
                } else {
                    assert(ec_devices(dl).contains(d));
                    let j = choose|j: int| 0 <= j < dl.len() && dl[j] == d;
                    assert(devs[j] == d);
                }
            }
            if devs.contains(d) && is_ec_identity(d) {
                let i = choose|i: int| 0 <= i < devs.len() && devs[i] == d;
                if i == devs.len() - 1 {
                    if is_ec_identity(l) {
                        assert(ec_devices(devs)[ec_devices(devs).len() - 1] == d);
                    }
                } else {
                    assert(dl[i] == d);
                    assert(ec_devices(dl).contains(d));
                    let j = choose|j: int|
                        0 <= j < ec_devices(dl).len() && ec_devices(dl)[j] == d;
                    assert(ec_devices(devs)[j] == d);
                }
            }
        }
    }
}

/// Result of waiting for the controller to enumerate: the matching devices
/// of the first scan round that saw any, and the number of rounds used.
pub struct EnumerationWait {
    pub found: Vec<DeviceId>,
    pub attempts: usize,
}

/// Polls the given scan rounds in order, stopping at the first round in
/// which any device matches the controller identity, and never looking at
/// more than `max_attempts` rounds. `rounds[k]` is the full device list
/// the bus reported on poll `k`.
pub fn await_ecs(rounds: &Vec<Vec<DeviceId>>, max_attempts: usize) -> (r: EnumerationWait)
    requires
        rounds@.len() >= max_attempts,
    ensures
        r.attempts <= max_attempts,
        r.found@.len() > 0 ==> {
            &&& 1 <= r.attempts
            &&& r.found@ == ec_devices(rounds@[r.attempts - 1]@)
            &&& forall|k: int|
                0 <= k < r.attempts - 1 ==> ec_devices(rounds@[k]@).len() == 0
        },
        r.found@.len() == 0 ==> {
            &&& r.attempts == max_attempts
            &&& forall|k: int|
                0 <= k < max_attempts ==> ec_devices(rounds@[k]@).len() == 0
        },
{
    let mut attempt: usize = 0;
    while attempt < max_attempts
        invariant
            rounds@.len() >= max_attempts,
            0 <= attempt <= max_attempts,
            forall|k: int| 0 <= k < attempt ==> ec_devices(rounds@[k]@).len() == 0,
        decreases max_attempts - attempt,
    {
        let found = select_ecs(&rounds[attempt]);
        attempt = attempt + 1;
        if found.len() > 0 {
            return EnumerationWait { found, attempts: attempt };
        }
    }
    EnumerationWait { found: Vec::new(), attempts: max_attempts }
}

/// The functional test drives exactly one controller; zero or several is a
/// fatal cardinality error reporting the observed count.
pub fn require_single_ec(found: &Vec<DeviceId>) -> (r: Result<DeviceId, TestError>)
    ensures
        found@.len() == 1 ==> r == Ok::<DeviceId, TestError>(found@[0]),
        found@.len() != 1 ==> r == Err::<DeviceId, TestError>(
            TestError::EcCount { found: found@.len() as usize },
        ),
{
    if found.len() == 1 {
        Ok(found[0])
    } else {
        Err(TestError::EcCount { found: found.len() })
    }
}

} // verus!
