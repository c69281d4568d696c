use vstd::prelude::*;

verus! {

// Kernel feature eras, ranked: atomic close-on-exec on sockets arrived in
// 2.6.27, as did two-flag pipe creation; four-argument accept in 2.6.28.
/// A release that predates 2.6, or one that could not be classified.
pub const VERS_UNKNOWN: usize = 1;

/// A 2.6 release before 2.6.27.
pub const VERS_2_6_18: usize = 2;

/// A release of 2.6.27, or a later 2.6 release before 2.6.28.
pub const VERS_2_6_27: usize = 3;

/// A release of 2.6.28 or a later 2.6 release.
pub const VERS_2_6_28: usize = 4;

/// A release of the 3 series or later.
pub const VERS_3: usize = 5;

/// The major, minor and patch numbers read from a release string, scanned
/// from position `i` with `curr` fields already finished and the given
/// accumulators. A dot or a dash finishes the current field; a digit extends
/// it; anything else, or a third finished field, ends the scan.
pub open spec fn scan_version(rel: Seq<u8>, i: int, curr: int, major: int, minor: int, patch: int)
    -> (int, int, int)
    decreases rel.len() - i,
{
    if i < 0 || i >= rel.len() || curr >= 3 {
        (major, minor, patch)
    } else {
        let b = rel[i];
        if b == 46 || b == 45 {
            scan_version(rel, i + 1, curr + 1, major, minor, patch)
        } else if 48 <= b && b <= 57 {
            if curr == 0 {
                scan_version(rel, i + 1, curr, major * 10 + (b - 48), minor, patch)
            } else if curr == 1 {
                scan_version(rel, i + 1, curr, major, minor * 10 + (b - 48), patch)
            } else {
                scan_version(rel, i + 1, curr, major, minor, patch * 10 + (b - 48))
            }
        } else {
            (major, minor, patch)
        }
    }
}

/// The era a parsed major/minor/patch triple belongs to.
pub open spec fn version_rank(major: int, minor: int, patch: int) -> usize {
    if major >= 3 {
        VERS_3
    } else if major >= 2 {
        if minor >= 7 {
            VERS_UNKNOWN
        } else if minor >= 6 {
            if patch >= 28 {
                VERS_2_6_28
            } else if patch >= 27 {
                VERS_2_6_27
            } else {
                VERS_2_6_18
            }
        } else {
            VERS_UNKNOWN
        }
    } else {
        VERS_UNKNOWN
    }
}

/// The era a whole release string belongs to.
pub open spec fn kernel_version_of(rel: Seq<u8>) -> usize {
    version_rank(
        scan_version(rel, 0, 0, 0, 0, 0).0,
        scan_version(rel, 0, 0, 0, 0, 0).1,
        scan_version(rel, 0, 0, 0, 0, 0).2,
    )
}

/// True when the executable accumulator stands for the unbounded ghost one:
/// equal while the ghost value fits, pinned to the maximum once it does not.
spec fn saturated(e: u64, g: int) -> bool {
    if g <= u64::MAX {
        e == g
    } else {
        e == u64::MAX
    }
}

/// Appends a decimal digit to an accumulator, saturating at the largest
/// representable value. Saturation cannot change the era a release is
/// ranked into, since every threshold the ranking compares against is far
/// below the saturation point.
fn sat_acc(acc: u64, d: u64) -> (r: u64)
    requires
        d <= 9,
    ensures
        acc * 10 + d <= u64::MAX ==> r == acc * 10 + d,
        acc * 10 + d > u64::MAX ==> r == u64::MAX,
{
    match acc.checked_mul(10) {
        Some(m) => match m.checked_add(d) {
            Some(v) => v,
            None => u64::MAX,
        },
        None => u64::MAX,
    }
}

/// Reads the major, minor and patch numbers off the front of a kernel
/// release string, such as the bytes of "5.15.0-91-generic", and classifies
/// the release into its feature era.
pub fn parse_kernel_version(release: &Vec<u8>) -> (r: usize)
    ensures
        r == kernel_version_of(release@),
        1 <= r <= 5,
{
    let ghost rel = release@;
    let mut curr: u64 = 0;
    let mut major: u64 = 0;
    let mut minor: u64 = 0;
    let mut patch: u64 = 0;
    let ghost mut gmajor: int = 0;
    let ghost mut gminor: int = 0;
    let ghost mut gpatch: int = 0;
    let mut i: usize = 0;
    let mut stop: bool = false;
    while i < release.len() && !stop
        invariant
            release@ == rel,
            0 <= i <= rel.len(),
            0 <= gmajor,
            0 <= gminor,
            0 <= gpatch,
            saturated(major, gmajor),
            saturated(minor, gminor),
            saturated(patch, gpatch),
            scan_version(rel, i as int, curr as int, gmajor, gminor, gpatch) == scan_version(
                rel,
                0,
                0,
                0,
                0,
                0,
            ),
            stop ==> scan_version(rel, i as int, curr as int, gmajor, gminor, gpatch) == (
            gmajor,
            gminor,
            gpatch,
            ),
        decreases 2 * (rel.len() - i) + if stop {
            0int
        } else {
            1int
        },
    {
        let b: u8 = release[i];
        if curr >= 3 {
            stop = true;
        } else if b == 46 || b == 45 {
            // A dot or a dash finishes the current field.
            curr = curr + 1;
            i = i + 1;
        } else if 48 <= b && b <= 57 {
            let d: u64 = (b - 48) as u64;
            if curr == 0 {
                major = sat_acc(major, d);
                proof {
                    gmajor = gmajor * 10 + (b - 48);
                }
            } else if curr == 1 {
                minor = sat_acc(minor, d);
                proof {
                    gminor = gminor * 10 + (b - 48);
                }
            } else {
                patch = sat_acc(patch, d);
                proof {
                    gpatch = gpatch * 10 + (b - 48);
                }
            }
            i = i + 1;
        } else {
            stop = true;
        }
    }
    if major >= 3 {
        VERS_3
    } else if major >= 2 {
        if minor >= 7 {
            VERS_UNKNOWN
        } else if minor >= 6 {
            if patch >= 28 {
                VERS_2_6_28
            } else if patch >= 27 {
                VERS_2_6_27
            } else {
                VERS_2_6_18
            }
        } else {
            VERS_UNKNOWN
        }
    } else {
        VERS_UNKNOWN
    }
}

/// Relies on rustix's `system::uname`: returns the bytes of the running
/// kernel's release string.
#[verifier::external_body]
fn os_release_bytes() -> (r: Vec<u8>)
{
    let u = rustix::system::uname();
    u.release().to_bytes().to_vec()
}

/// Reads the running kernel's release string and classifies it into its
/// feature era. The rank depends only on the running kernel, which does not
/// change while the process runs, so callers may read it once and keep it.
pub fn kernel_version() -> (r: usize)
    ensures
        1 <= r <= 5,
{
    let release = os_release_bytes();
    parse_kernel_version(&release)
}

/// True when a release rank names a kernel with the atomic close-on-exec
/// socket semantics: the 2.6.27 era or anything later.
pub fn atomic_cloexec_of(rank: usize) -> (r: bool)
    ensures
        r == (rank >= VERS_2_6_27),
{
    rank >= VERS_2_6_27
}

/// True when the running kernel creates sockets with the atomic
/// close-on-exec semantics, which arrived in kernel 2.6.27: the running
/// kernel's release rank, held against that threshold by the contracted
/// `atomic_cloexec_of`.
pub fn socket_atomic_cloexec() -> bool {
    atomic_cloexec_of(kernel_version())
}

} // verus!
