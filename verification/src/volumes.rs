//! Storage units of the machine: splitting the system's list of drive roots
//! and turning what was probed of each drive into a volume record.
use vstd::prelude::*;
use crate::types::VolumeInfo;

verus! {

/// Drive type reported for removable media.
pub const DRIVE_REMOVABLE: u32 = 2;
/// Drive type reported for a network share.
pub const DRIVE_REMOTE: u32 = 4;
/// Drive type reported for an optical reader.
pub const DRIVE_CDROM: u32 = 5;

/// The roots found in the first `n` units of a drive-strings buffer, and
/// where the root being read started: a zero unit ends a root, and a root
/// is kept only when it is not empty.
pub open spec fn roots_prefix(buf: Seq<u16>, n: int) -> (Seq<Seq<u16>>, int)
    decreases n,
{
    if n <= 0 {
        (Seq::empty(), 0)
    } else {
        let (roots, start) = roots_prefix(buf, n - 1);
        if buf[n - 1] == 0u16 {
            (if n - 1 > start {
                roots.push(buf.subrange(start, n - 1))
            } else {
                roots
            }, n)
        } else {
            (roots, start)
        }
    }
}

/// The drive roots listed in the first `len` units of the buffer; none when
/// the system reported nothing or more than the buffer holds.
pub open spec fn drive_roots_spec(buf: Seq<u16>, len: int) -> Seq<Seq<u16>> {
    if len == 0 || len > buf.len() {
        Seq::empty()
    } else {
        roots_prefix(buf, len).0
    }
}

proof fn lemma_roots_prefix_shape(buf: Seq<u16>, n: int)
    requires
        0 <= n <= buf.len(),
    ensures
        0 <= roots_prefix(buf, n).1 <= n,
        forall|k: int| 0 <= k < roots_prefix(buf, n).0.len() ==> {
            let r = #[trigger] roots_prefix(buf, n).0[k];
            r.len() > 0 && forall|j: int| 0 <= j < r.len() ==> r[j] != 0u16
        },
        forall|j: int| roots_prefix(buf, n).1 <= j < n ==> buf[j] != 0u16,
    decreases n,
{
    if n > 0 {
        lemma_roots_prefix_shape(buf, n - 1);
    }
}

/// Splits the system's drive-strings buffer (roots separated and ended by a
/// zero unit, `len` units filled) into its roots, in order. Each root is
/// non-empty and holds no zero unit.
pub fn drive_roots(buffer: &[u16], len: u32) -> (r: Vec<Vec<u16>>)
    ensures
        r@.len() == drive_roots_spec(buffer@, len as int).len(),
        forall|k: int| 0 <= k < r@.len() ==> (#[trigger] r@[k])@ == drive_roots_spec(buffer@, len as int)[k],
        forall|k: int| 0 <= k < r@.len() ==> (#[trigger] r@[k])@.len() > 0 && forall|j: int|
            0 <= j < r@[k]@.len() ==> r@[k]@[j] != 0u16,
{
    let mut roots: Vec<Vec<u16>> = Vec::new();
    if len == 0 || len as usize > buffer.len() {
        return roots;
    }
    let n: usize = len as usize;
    let mut start: usize = 0;
    let mut i: usize = 0;
    while i < n
        invariant
            n == len as int,
            n <= buffer@.len(),
            i <= n,
            start as int == roots_prefix(buffer@, i as int).1,
            roots@.len() == roots_prefix(buffer@, i as int).0.len(),
            forall|k: int| 0 <= k < roots@.len() ==> (#[trigger] roots@[k])@ == roots_prefix(buffer@, i as int).0[k],
        decreases n - i,
    {
        proof {
            lemma_roots_prefix_shape(buffer@, i as int);
        }
        if buffer[i] == 0 {
            if i > start {
                let mut root: Vec<u16> = Vec::new();
                let mut j: usize = start;
                while j < i
                    invariant
                        start <= j <= i,
                        i < buffer@.len(),
                        root@ == buffer@.subrange(start as int, j as int),
                    decreases i - j,
                {
                    root.push(buffer[j]);
                    j = j + 1;
                    assert(root@ =~= buffer@.subrange(start as int, j as int));
                }
                roots.push(root);
            }
            start = i + 1;
        }
        i = i + 1;
    }
    proof {
        lemma_roots_prefix_shape(buffer@, n as int);
    }
    roots
}

/// What was learnt of one drive root: its path, the drive type the system
/// reported, its label and file system when the volume could be read, and
/// its space figures.
#[derive(Debug, Clone, PartialEq, Eq)]
pub struct DriveProbe {
    pub path: String,
    pub drive_type: u32,
    pub volume: Option<(String, String)>,
    pub free_bytes: u64,
    pub total_bytes: u64,
}

/// Optical readers are left out of the listing.
pub open spec fn is_listed(p: DriveProbe) -> bool {
    p.drive_type != DRIVE_CDROM
}

/// The probes that are listed, in order.
pub open spec fn listed_probes(s: Seq<DriveProbe>) -> Seq<DriveProbe>
    decreases s.len(),
{
    if s.len() == 0 {
        Seq::empty()
    } else if is_listed(s.last()) {
        listed_probes(s.drop_last()).push(s.last())
    } else {
        listed_probes(s.drop_last())
    }
}

/// Label shown for a drive: the volume's own label, or a name by kind when
/// it has none or could not be read.
pub open spec fn volume_label_spec(p: DriveProbe) -> Seq<char> {
    let own = match p.volume {
        Some(v) => v.0@,
        None => Seq::empty(),
    };
    if own.len() == 0 {
        if p.drive_type == DRIVE_REMOVABLE {
            "Unidad USB"@
        } else {
            "Disco Local"@
        }
    } else {
        own
    }
}

/// File system shown for a drive: the one read from the volume, else
/// "Red" for a network share and "Desconocido" otherwise.
pub open spec fn volume_fs_spec(p: DriveProbe) -> Seq<char> {
    match p.volume {
        Some(v) => v.1@,
        None => if p.drive_type == DRIVE_REMOTE {
            "Red"@
        } else {
            "Desconocido"@
        },
    }
}

/// The volume record listed for a probe under the given id.
pub open spec fn volume_record_matches(p: DriveProbe, id: int, v: VolumeInfo) -> bool {
    &&& v.id as int == id % 256
    &&& v.path@ == p.path@
    &&& v.label@ == volume_label_spec(p)
    &&& v.fs_type@ == volume_fs_spec(p)
    &&& v.is_removable == (p.drive_type == DRIVE_REMOVABLE)
    &&& v.is_ready == (p.volume is Some)
    &&& v.total_bytes == p.total_bytes
    &&& v.free_bytes == p.free_bytes
}

fn volume_record(p: &DriveProbe, id: u8) -> (v: VolumeInfo)
    ensures
        volume_record_matches(*p, id as int, v),
{
    let removable = p.drive_type == DRIVE_REMOVABLE;
    let (own_label, fs_type, ready) = match &p.volume {
        Some(v) => (String::from_str(v.0.as_str()), String::from_str(v.1.as_str()), true),
        None => (
            String::new(),
            if p.drive_type == DRIVE_REMOTE {
                String::from_str("Red")
            } else {
                String::from_str("Desconocido")
            },
            false,
        ),
    };
    let label = if own_label.unicode_len() == 0 {
        if removable {
            String::from_str("Unidad USB")
        } else {
            String::from_str("Disco Local")
        }
    } else {
        own_label
    };
    VolumeInfo {
        id,
        path: String::from_str(p.path.as_str()),
        label,
        fs_type,
        is_removable: removable,
        is_ready: ready,
        total_bytes: p.total_bytes,
        free_bytes: p.free_bytes,
    }
}

/// The system's storage units from what was probed of each drive root, in
/// the system's order: optical readers are left out, and the others are
/// numbered from 0 in order (the number wraps past 255). With no drive
/// probed (as on systems without drive letters) the list is empty.
pub fn list_system_volumes(probes: Vec<DriveProbe>) -> (r: Vec<VolumeInfo>)
    ensures
        r@.len() == listed_probes(probes@).len(),
        forall|k: int| 0 <= k < r@.len() ==> volume_record_matches(
            listed_probes(probes@)[k],
            k,
            #[trigger] r@[k],
        ),
{
    let mut out: Vec<VolumeInfo> = Vec::new();
    let mut vol_id: u8 = 0;
    let mut i: usize = 0;
    while i < probes.len()
        invariant
            i <= probes@.len(),
            out@.len() == listed_probes(probes@.subrange(0, i as int)).len(),
            vol_id as int == out@.len() % 256,
            forall|k: int| 0 <= k < out@.len() ==> volume_record_matches(
                listed_probes(probes@.subrange(0, i as int))[k],
                k,
                #[trigger] out@[k],
            ),
        decreases probes@.len() - i,
    {
        let ghost prev = probes@.subrange(0, i as int);
        let ghost next = probes@.subrange(0, i + 1);
        assert(next.drop_last() =~= prev);
        assert(next.last() == probes@[i as int]);
        let p = &probes[i];
        if p.drive_type != DRIVE_CDROM {
            let v = volume_record(p, vol_id);
            out.push(v);
            vol_id = vol_id.wrapping_add(1);
        }
        i = i + 1;
    }
    assert(probes@.subrange(0, probes@.len() as int) =~= probes@);
    out
}

} // verus!
