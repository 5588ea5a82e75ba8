//! The value types a scan produces: a timestamp, the filesystem
//! metadata of an archive, and the classification result itself.

use vstd::prelude::*;

verus! {

/// A point in time, as whole seconds since the Unix epoch plus the
/// nanoseconds of the current second.
#[derive(Clone, Copy, Debug, PartialEq, Eq, Structural)]
pub struct Timestamp {
    pub secs: u64,
    pub nanos: u32,
}

impl Timestamp {
    /// A timestamp carries strictly less than one second of nanoseconds.
    pub open spec fn wf(self) -> bool {
        self.nanos < 1_000_000_000
    }
}

/// Filesystem metadata of an archive file: its last-modification time,
/// where the filesystem reports one, and its size in bytes.
#[derive(Clone, Copy, Debug)]
pub struct FileMeta {
    pub modified: Option<Timestamp>,
    pub size: u64,
}

/// The names of a sequence of members, as sequences of characters.
pub open spec fn names_view(s: Seq<String>) -> Seq<Seq<char>> {
    s.map_values(|n: String| n@)
}

/// What one archive scan reports. `is_valid` holds only of an archive
/// that was opened, holds at least one file entry, and whose every
/// inspected entry is an image. The metadata fields are filled whenever
/// the filesystem reported them, whatever the verdict; `image_count`
/// counts the image entries seen before the scan ended.
pub struct ScanResult {
    pub is_valid: bool,
    pub members: Option<Vec<String>>,
    pub modified_at: Option<Timestamp>,
    pub size_bytes: Option<u64>,
    pub image_count: u32,
}

/// The mathematical shadow of a `ScanResult`.
#[verifier::ext_equal]
pub struct ScanResultSpec {
    pub is_valid: bool,
    pub members: Option<Seq<Seq<char>>>,
    pub modified_at: Option<Timestamp>,
    pub size_bytes: Option<u64>,
    pub image_count: nat,
}

impl View for ScanResult {
    type V = ScanResultSpec;

    open spec fn view(&self) -> ScanResultSpec {
        ScanResultSpec {
            is_valid: self.is_valid,
            members: match self.members {
                Some(v) => Some(names_view(v@)),
                None => None,
            },
            modified_at: self.modified_at,
            size_bytes: self.size_bytes,
            image_count: self.image_count as nat,
        }
    }
}

impl ScanResult {
    /// The structural invariant of a result: a member list is attached
    /// only to a valid verdict, and a valid verdict counts at least one
    /// image.
    pub open spec fn wf(self) -> bool {
        &&& self.members is Some ==> self.is_valid
        &&& self.is_valid ==> self.image_count > 0
    }
}

/// The result for a path that does not exist or whose metadata could
/// not be read: invalid, with nothing known of the file.
pub open spec fn spec_missing() -> ScanResultSpec {
    ScanResultSpec {
        is_valid: false,
        members: None,
        modified_at: None,
        size_bytes: None,
        image_count: 0,
    }
}

/// The result for a file whose metadata was read but whose contents
/// were never classified: oversized, unreadable, or not a well-formed
/// archive.
pub open spec fn spec_meta_only(m: FileMeta) -> ScanResultSpec {
    ScanResultSpec {
        is_valid: false,
        members: None,
        modified_at: m.modified,
        size_bytes: Some(m.size),
        image_count: 0,
    }
}

/// Builds the result for a path that does not exist on the filesystem,
/// or whose metadata could not be read.
pub fn missing_result() -> (r: ScanResult)
    ensures
        r@ == spec_missing(),
        r.wf(),
{
    ScanResult {
        is_valid: false,
        members: None,
        modified_at: None,
        size_bytes: None,
        image_count: 0,
    }
}

/// Builds the result for a file whose metadata was read but which was
/// not classified: too large, unreadable, or no well-formed archive.
pub fn metadata_result(meta: &FileMeta) -> (r: ScanResult)
    ensures
        r@ == spec_meta_only(*meta),
        r.wf(),
{
    let r = ScanResult {
        is_valid: false,
        members: None,
        modified_at: meta.modified,
        size_bytes: Some(meta.size),
        image_count: 0,
    };
    proof {
        assert(r@ =~= spec_meta_only(*meta));
    }
    r
}

} // verus!
