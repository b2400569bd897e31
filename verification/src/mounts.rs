//! Mount resolution: looking a block device up in the mount table, and
//! the decision sequence around the external mount command — use an
//! existing mount entry if there is one; otherwise have the mount utility
//! mount the device and look again; a device that still is not mounted is
//! skipped rather than failed.

use vstd::prelude::*;

use crate::bytes::copy_bytes;

verus! {

/// One entry of the live mount table: the block device it mounts and the
/// directory it is mounted on.
pub struct MountEntry {
    pub source: Vec<u8>,
    pub dest: Vec<u8>,
}

/// The destination of the first mount-table entry whose source is `dev`.
pub open spec fn mount_lookup(entries: Seq<MountEntry>, dev: Seq<u8>) -> Option<Seq<u8>>
    decreases entries.len(),
{
    if entries.len() == 0 {
        None
    } else if entries[0].source@ == dev {
        Some(entries[0].dest@)
    } else {
        mount_lookup(entries.subrange(1, entries.len() as int), dev)
    }
}

/// Finds the mount point of `dev` in the mount table, taking the first
/// entry whose source equals the device path.
pub fn find_mount(entries: &Vec<MountEntry>, dev: &Vec<u8>) -> (r: Option<Vec<u8>>)
    ensures
        match r {
            Some(d) => mount_lookup(entries@, dev@) matches Some(s) && s == d@,
            None => mount_lookup(entries@, dev@) is None,
        },
{
    let n = entries.len();
    proof {
        assert(entries@.subrange(0, n as int) =~= entries@);
    }
    let mut i: usize = 0;
    while i < n
        invariant
            n == entries@.len(),
            0 <= i <= n,
            mount_lookup(entries@, dev@) == mount_lookup(
                entries@.subrange(i as int, n as int),
                dev@,
            ),
        decreases n - i,
    {
        let mut same = entries[i].source.len() == dev.len();
        if same {
            let m = entries[i].source.len();
            let mut j: usize = 0;
            while j < m
                invariant
                    i < n == entries@.len(),
                    m == entries@[i as int].source@.len() == dev@.len(),
                    0 <= j <= m,
                    same == (forall|k: int|
                        0 <= k < j ==> entries@[i as int].source@[k] == dev@[k]),
                decreases m - j,
            {
                if entries[i].source[j] != dev[j] {
                    same = false;
                }
                j = j + 1;
            }
            proof {
                if same {
                    assert(entries@[i as int].source@ =~= dev@);
                }
            }
        }
        proof {
            let rest = entries@.subrange(i as int, n as int);
            assert(rest[0] == entries@[i as int]);
            assert(rest.subrange(1, rest.len() as int) =~= entries@.subrange(
                i + 1,
                n as int,
            ));
        }
        if same {
            return Some(copy_bytes(&entries[i].dest));
        }
        i = i + 1;
    }
    None
}

/// Where the mount-resolution sequence ended: the device is mounted at a
/// known directory; the external mount command itself failed; or the
/// device is still absent from the mount table even after a successful
/// mount command, in which case the caller skips it.
pub enum MountResolution {
    Mounted(Vec<u8>),
    CommandFailed,
    NotMounted,
}

/// Decides the outcome of mount resolution from its three observations:
/// the first mount-table lookup, the exit status of the external mount
/// command (consulted only when the first lookup found nothing), and the
/// second lookup made after a successful command.
pub fn resolve_mount(first: &Option<Vec<u8>>, command_ok: bool, second: &Option<Vec<u8>>) -> (r:
    MountResolution)
    ensures
        match first {
            Some(d) => r matches MountResolution::Mounted(m) && m@ == d@,
            None => {
                if !command_ok {
                    r is CommandFailed
                } else {
                    match second {
                        Some(d) => r matches MountResolution::Mounted(m) && m@ == d@,
                        None => r is NotMounted,
                    }
                }
            },
        },
{
    match first {
        Some(d) => MountResolution::Mounted(copy_bytes(d)),
        None => {
            if !command_ok {
                MountResolution::CommandFailed
            } else {
                match second {
                    Some(d) => MountResolution::Mounted(copy_bytes(d)),
                    None => MountResolution::NotMounted,
                }
            }
        },
    }
}

} // verus!
