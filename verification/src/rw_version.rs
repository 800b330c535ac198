//! The RenderWare version codec: unpacking of the compact on-disk version
//! encoding, and the table of known named releases.

use vstd::prelude::*;

verus! {

/// The on-disk encoding is "new-style" when the high 16 bits are nonzero.
pub open spec fn spec_is_packed(version: u32) -> bool {
    version & 0xFFFF0000 != 0
}

/// Unpacked form of a version number. A value with zero high bits is
/// already unpacked ("old-style") and is returned unchanged.
pub open spec fn spec_unpack_version(version: u32) -> u32 {
    if spec_is_packed(version) {
        (((version >> 14 & 0x3FF00) + 0x30000) as u32) | (version >> 16 & 0x3F)
    } else {
        version
    }
}

/// Build number carried beside a new-style version; old-style values carry none.
pub open spec fn spec_unpack_build(version: u32) -> u32 {
    if spec_is_packed(version) {
        version & 0xFFFF
    } else {
        0
    }
}

/// Unpacks the compact on-disk version encoding into its human-oriented form.
pub fn unpack_version(version: u32) -> (r: u32)
    ensures
        r == spec_unpack_version(version),
{
    if version & 0xFFFF0000 != 0 {
        assert((version >> 14 & 0x3FF00) + 0x30000 <= 0x6FF00) by (bit_vector);
        ((version >> 14 & 0x3FF00) + 0x30000) | (version >> 16 & 0x3F)
    } else {
        version
    }
}

/// Extracts the build number from a new-style packed version.
pub fn unpack_build(version: u32) -> (r: u32)
    ensures
        r == spec_unpack_build(version),
{
    if version & 0xFFFF0000 != 0 {
        version & 0xFFFF
    } else {
        0
    }
}

/// Unpacking is idempotent on a value that is already unpacked
/// (an "old-style" value, one whose high 16 bits are zero).
pub proof fn lemma_unpack_idempotent_on_old_style(version: u32)
    requires
        !spec_is_packed(version),
    ensures
        spec_unpack_version(spec_unpack_version(version)) == spec_unpack_version(version),
{
}

/// The release string attached to a known unpacked version number, if any.
pub open spec fn spec_version_name(version_number: u32) -> Option<Seq<char>> {
    if version_number == 0x31000 {
        Some("RenderWare 3.1.0.0 (III on PS2)"@)
    } else if version_number == 0x32000 {
        Some("RenderWare 3.2.0.0 (III on PC)"@)
    } else if version_number == 0x33002 {
        Some("RenderWare 3.3.0.2 (III on PC, VC on PS2)"@)
    } else if version_number == 0x34003 {
        Some("RenderWare 3.4.0.3 (VC on PC)"@)
    } else if version_number == 0x34005 {
        Some("RenderWare 3.4.0.5 (III on PS2, VC on Android/PC)"@)
    } else if version_number == 0x35000 {
        Some("RenderWare 3.5.0.0 (III/VC on Xbox)"@)
    } else if version_number == 0x36003 {
        Some("RenderWare 3.6.0.3 (SA)"@)
    } else {
        None
    }
}

/// Lookup of the known named releases. The table is immutable once built.
pub struct RwVersion {
    table: Vec<(u32, String)>,
}

impl RwVersion {
    /// The table lists exactly the known releases, keyed by unpacked version.
    pub closed spec fn wf(&self) -> bool {
        &&& self.table@.len() == 7
        &&& forall|i: int|
            0 <= i < self.table@.len() ==> spec_version_name(#[trigger] self.table@[i].0)
                == Some(self.table@[i].1@)
        &&& forall|v: u32|
            spec_version_name(v) is Some ==> exists|i: int|
                0 <= i < self.table@.len() && (#[trigger] self.table@[i]).0 == v
    }

    /// Builds the lookup of known releases.
    pub fn new() -> (r: RwVersion)
        ensures
            r.wf(),
    {
        let mut table: Vec<(u32, String)> = Vec::new();
        table.push((0x31000, "RenderWare 3.1.0.0 (III on PS2)".to_owned()));
        table.push((0x32000, "RenderWare 3.2.0.0 (III on PC)".to_owned()));
        table.push((0x33002, "RenderWare 3.3.0.2 (III on PC, VC on PS2)".to_owned()));
        table.push((0x34003, "RenderWare 3.4.0.3 (VC on PC)".to_owned()));
        table.push((0x34005, "RenderWare 3.4.0.5 (III on PS2, VC on Android/PC)".to_owned()));
        table.push((0x35000, "RenderWare 3.5.0.0 (III/VC on Xbox)".to_owned()));
        table.push((0x36003, "RenderWare 3.6.0.3 (SA)".to_owned()));
        let r = RwVersion { table };
        assert forall|v: u32| spec_version_name(v) is Some implies exists|i: int|
            0 <= i < r.table@.len() && (#[trigger] r.table@[i]).0 == v by {
            if v == 0x31000 {
                assert(r.table@[0].0 == v);
            } else if v == 0x32000 {
                assert(r.table@[1].0 == v);
            } else if v == 0x33002 {
                assert(r.table@[2].0 == v);
            } else if v == 0x34003 {
                assert(r.table@[3].0 == v);
            } else if v == 0x34005 {
                assert(r.table@[4].0 == v);
            } else if v == 0x35000 {
                assert(r.table@[5].0 == v);
            } else {
                assert(r.table@[6].0 == v);
            }
        }
        r
    }

    /// Returns the release string of a known unpacked version number, and
    /// `None` for any version outside the table.
    pub fn get_version_string(&self, version_number: u32) -> (r: Option<String>)
        requires
            self.wf(),
        ensures
            match r {
                Some(s) => spec_version_name(version_number) == Some(s@),
                None => spec_version_name(version_number) is None,
            },
    {
        let n = self.table.len();
        for i in 0..n
            invariant
                self.wf(),
                n == self.table@.len(),
                forall|j: int| 0 <= j < i ==> (#[trigger] self.table@[j]).0 != version_number,
        {
            if self.table[i].0 == version_number {
                return Some(self.table[i].1.clone());
            }
        }
        None
    }
}

} // verus!
