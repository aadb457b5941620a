//! Building the snapshot that records what applying a profile overwrote.
use vstd::prelude::*;
use crate::text::{decimal, decimal_string};
use crate::types::{HardwareProfile, Snapshot, SnapshotEntry};

verus! {

broadcast use vstd::string::group_string_axioms;

/// The format version of the snapshots this library writes.
pub const SNAPSHOT_VERSION: u32 = 1;

/// The fingerprint of the hardware a snapshot was taken on: the processor, the
/// graphics adapter, the memory size in MiB, the disk model and the OS build.
pub open spec fn fingerprint(hw: HardwareProfile) -> Seq<char> {
    "cpu="@ + hw.cpu.name@ + ";gpu="@ + hw.gpu.name@ + ";ram="@ + decimal(hw.memory.total_mb as nat)
        + ";disk="@ + hw.storage.model@ + ";os="@ + hw.os.build_number@
}

/// The fingerprint of `hw` (see [`fingerprint`]); it is never empty.
pub fn hardware_fingerprint(hw: &HardwareProfile) -> (r: String)
    ensures
        r@ == fingerprint(*hw),
        r@.len() > 0,
{
    let mut r = "cpu=".to_string();
    r.append(hw.cpu.name.as_str());
    r.append(";gpu=");
    r.append(hw.gpu.name.as_str());
    r.append(";ram=");
    let ram = decimal_string(hw.memory.total_mb);
    r.append(ram.as_str());
    r.append(";disk=");
    r.append(hw.storage.model.as_str());
    r.append(";os=");
    r.append(hw.os.build_number.as_str());
    proof {
        reveal_strlit("cpu=");
    }
    r
}

/// The snapshot of a profile's entries, taken at `timestamp` on `hardware`.
pub fn capture_snapshot(profile_id: &str, entries: Vec<SnapshotEntry>, hardware: &HardwareProfile, timestamp: String) -> (r: Snapshot)
    ensures
        r.version == SNAPSHOT_VERSION,
        r.timestamp == timestamp,
        r.hardware_fingerprint@ == fingerprint(*hardware),
        r.hardware_fingerprint@.len() > 0,
        r.profile_applied@ == profile_id@,
        r.changes == entries,
{
    Snapshot {
        version: SNAPSHOT_VERSION,
        timestamp,
        hardware_fingerprint: hardware_fingerprint(hardware),
        profile_applied: profile_id.to_string(),
        changes: entries,
    }
}

} // verus!
