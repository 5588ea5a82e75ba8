//! The archive scanner: classifies an archive, under fixed resource
//! bounds, by whether it contains exclusively image files.
//!
//! Every failure is absorbed into the returned `ScanResult`; no input
//! makes a scan panic. The entry walk is specified by `tally_upto`, a
//! fold over the member names in archive order.

use vstd::prelude::*;

use crate::archive::{archive_len, elapsed_secs, entries_of, entry_name, now_instant, open_archive,
    parsed_names};
use crate::matcher::{is_image, spec_is_image};
use crate::result::{metadata_result, missing_result, names_view, spec_meta_only, spec_missing,
    FileMeta, ScanResult, ScanResultSpec};

verus! {

/// Largest file, in bytes, that the scanner will open as an archive.
pub const MAX_FILE_SIZE: u64 = 500 * 1024 * 1024;

/// An archive declaring more entries than this is rejected outright,
/// before any entry is inspected.
pub const MAX_ENTRIES: usize = 10000;

/// At most this many entries are inspected per scan; an archive with
/// more is never trusted as image-only.
pub const INSPECT_CAP: usize = 1000;

/// Wall-clock budget, in seconds, for one entry-inspection loop.
pub const TIME_BUDGET_SECS: u64 = 15;

/// A member name with a trailing separator denotes a directory.
pub open spec fn spec_is_dir(s: Seq<char>) -> bool {
    s.len() > 0 && (s[s.len() - 1] == '/' || s[s.len() - 1] == '\\')
}

/// Decides whether a member name denotes a directory entry.
pub fn name_is_dir(name: &str) -> (r: bool)
    ensures
        r == spec_is_dir(name@),
{
    let n = name.unicode_len();
    if n == 0 {
        false
    } else {
        let c = name.get_char(n - 1);
        c == '/' || c == '\\'
    }
}

/// The running state of an entry walk: images counted, whether a file
/// entry was seen, the image names in order, and whether a non-image
/// file has ended the walk.
#[verifier::ext_equal]
pub struct Tally {
    pub image_count: nat,
    pub saw_file: bool,
    pub names: Seq<Seq<char>>,
    pub rejected: bool,
}

/// One step of the walk: a rejected walk stays as it is, a directory
/// entry is skipped, an image file is counted and collected, and any
/// other file rejects the archive.
pub open spec fn tally_step(t: Tally, name: Seq<char>) -> Tally {
    if t.rejected {
        t
    } else if spec_is_dir(name) {
        t
    } else if spec_is_image(name) {
        Tally {
            image_count: t.image_count + 1,
            saw_file: true,
            names: t.names.push(name),
            rejected: false,
        }
    } else {
        Tally { image_count: t.image_count, saw_file: true, names: t.names, rejected: true }
    }
}

/// The walk state after the first `k` entries.
pub open spec fn tally_upto(es: Seq<Seq<char>>, k: int) -> Tally
    decreases k,
{
    if k <= 0 {
        Tally { image_count: 0, saw_file: false, names: seq![], rejected: false }
    } else {
        tally_step(tally_upto(es, k - 1), es[k - 1])
    }
}

/// Once a walk is rejected it never changes again.
pub proof fn lemma_tally_latched(es: Seq<Seq<char>>, j: int, k: int)
    requires
        0 <= j <= k,
        tally_upto(es, j).rejected,
    ensures
        tally_upto(es, k) == tally_upto(es, j),
    decreases k,
{
    if k > j {
        lemma_tally_latched(es, j, k - 1);
    }
}

/// The collected names are exact: a walk holds one name per image it
/// counted, and every name it holds is one the matcher accepts.
pub proof fn lemma_collected_names_are_images(es: Seq<Seq<char>>, k: int)
    ensures
        tally_upto(es, k).names.len() == tally_upto(es, k).image_count,
        forall|j: int|
            0 <= j < tally_upto(es, k).names.len() ==> spec_is_image(
                #[trigger] tally_upto(es, k).names[j],
            ),
    decreases k,
{
    if k > 0 {
        lemma_collected_names_are_images(es, k - 1);
    }
}

/// How many entries of an archive with `total` entries are inspected.
pub open spec fn inspect_count(total: int) -> int {
    if total > INSPECT_CAP as int {
        INSPECT_CAP as int
    } else {
        total
    }
}

/// The mathematical shadow of a `Classification`.
#[verifier::ext_equal]
pub struct ClassSpec {
    pub is_valid: bool,
    pub members: Option<Seq<Seq<char>>>,
    pub image_count: nat,
}

/// What classifying the member names `es` yields: the walk state after
/// the inspected prefix, valid exactly when no entry rejected it, the
/// entry count is within the inspection cap, and at least one file
/// entry — hence at least one image — was seen.
pub open spec fn spec_classify(es: Seq<Seq<char>>, collect: bool) -> ClassSpec {
    let t = tally_upto(es, inspect_count(es.len() as int));
    let valid = !t.rejected && es.len() <= INSPECT_CAP as nat && t.saw_file && t.image_count > 0;
    ClassSpec {
        is_valid: valid,
        members: if valid && collect {
            Some(t.names)
        } else {
            None
        },
        image_count: t.image_count,
    }
}

/// The verdict on one list of member names: whether they are exclusively
/// images, the image names if collection was requested and the verdict
/// holds, and the number of images seen before the walk ended.
pub struct Classification {
    pub is_valid: bool,
    pub members: Option<Vec<String>>,
    pub image_count: u32,
}

impl View for Classification {
    type V = ClassSpec;

    open spec fn view(&self) -> ClassSpec {
        ClassSpec {
            is_valid: self.is_valid,
            members: match self.members {
                Some(v) => Some(names_view(v@)),
                None => None,
            },
            image_count: self.image_count as nat,
        }
    }
}

/// Classifies a list of member names, in order: at most `INSPECT_CAP`
/// of them are inspected, directories are skipped, and the first
/// non-image file ends the walk with a rejection.
pub fn classify_entries(entries: &Vec<String>, collect: bool) -> (r: Classification)
    ensures
        r@ == spec_classify(names_view(entries@), collect),
{
    let ghost es = names_view(entries@);
    let total = entries.len();
    let cap = if total > INSPECT_CAP {
        INSPECT_CAP
    } else {
        total
    };
    let mut count: u32 = 0;
    let mut saw = false;
    let mut names: Vec<String> = Vec::new();
    let mut i: usize = 0;
    while i < cap
        invariant
            es == names_view(entries@),
            total == es.len(),
            cap as int == inspect_count(es.len() as int),
            cap <= total,
            i <= cap,
            count <= i,
            ({
                let t = tally_upto(es, i as int);
                &&& t.image_count == count
                &&& t.saw_file == saw
                &&& !t.rejected
                &&& collect ==> t.names == names_view(names@)
                &&& !collect ==> names@.len() == 0
            }),
        decreases cap - i,
    {
        let name = &entries[i];
        proof {
            assert(es[i as int] == name@);
        }
        if !name_is_dir(name.as_str()) {
            saw = true;
            if is_image(name.as_str()) {
                count = count + 1;
                if collect {
                    let ghost prev = names@;
                    names.push(name.clone());
                    proof {
                        assert(names_view(names@) =~= names_view(prev).push(name@));
                    }
                }
            } else {
                proof {
                    lemma_tally_latched(es, i + 1, cap as int);
                }
                return Classification { is_valid: false, members: None, image_count: count };
            }
        }
        i = i + 1;
    }
    let is_valid = saw && count > 0 && total <= INSPECT_CAP;
    let members = if is_valid && collect {
        Some(names)
    } else {
        None
    };
    Classification { is_valid, members, image_count: count }
}

/// The result of a completed scan: metadata alone where the bytes are
/// no well-formed archive or declare too many entries, else the
/// classification of the member names joined with the metadata.
pub open spec fn spec_full_scan(
    m: FileMeta,
    pn: Option<Seq<Seq<char>>>,
    collect: bool,
) -> ScanResultSpec {
    match pn {
        None => spec_meta_only(m),
        Some(es) => if es.len() > MAX_ENTRIES as nat {
            spec_meta_only(m)
        } else {
            let c = spec_classify(es, collect);
            ScanResultSpec {
                is_valid: c.is_valid,
                members: c.members,
                modified_at: m.modified,
                size_bytes: Some(m.size),
                image_count: c.image_count,
            }
        },
    }
}

/// The result of a scan that hit its time budget after inspecting `k`
/// entries: invalid, metadata kept, and the images counted so far.
pub open spec fn spec_timed_out(m: FileMeta, es: Seq<Seq<char>>, k: int) -> ScanResultSpec {
    ScanResultSpec {
        is_valid: false,
        members: None,
        modified_at: m.modified,
        size_bytes: Some(m.size),
        image_count: tally_upto(es, k).image_count,
    }
}

/// Everything a scan of archive bytes may return: the completed-scan
/// result, or — only when the entry walk ran at all — a partial result
/// cut off by the time budget.
pub open spec fn scan_outcome_ok(
    r: ScanResultSpec,
    m: FileMeta,
    data: Seq<u8>,
    collect: bool,
) -> bool {
    ||| r == spec_full_scan(m, parsed_names(data), collect)
    ||| (parsed_names(data) matches Some(es) && es.len() <= MAX_ENTRIES as nat && exists|k: int|
        0 <= k < inspect_count(es.len() as int) && r == spec_timed_out(m, es, k))
}

/// Scans archive bytes whose filesystem metadata is already known.
/// Parses them as a ZIP container and walks at most `INSPECT_CAP`
/// entries under the time budget; every failure is reported through the
/// result, never by panicking.
pub fn scan_archive_bytes(meta: &FileMeta, data: &Vec<u8>, collect: bool) -> (r: ScanResult)
    ensures
        scan_outcome_ok(r@, *meta, data@, collect),
        r.wf(),
{
    let z = match open_archive(data) {
        None => {
            return metadata_result(meta);
        },
        Some(z) => z,
    };
    let ghost es = entries_of(z);
    let total = archive_len(&z);
    if total > MAX_ENTRIES {
        return metadata_result(meta);
    }
    let cap = if total > INSPECT_CAP {
        INSPECT_CAP
    } else {
        total
    };
    let timer = now_instant();
    let mut count: u32 = 0;
    let mut saw = false;
    let mut names: Vec<String> = Vec::new();
    let mut i: usize = 0;
    while i < cap
        invariant
            es == entries_of(z),
            parsed_names(data@) == Some(es),
            total == es.len(),
            total <= MAX_ENTRIES,
            cap as int == inspect_count(es.len() as int),
            cap <= total,
            i <= cap,
            count <= i,
            ({
                let t = tally_upto(es, i as int);
                &&& t.image_count == count
                &&& t.saw_file == saw
                &&& !t.rejected
                &&& collect ==> t.names == names_view(names@)
                &&& !collect ==> names@.len() == 0
            }),
        decreases cap - i,
    {
        if elapsed_secs(&timer) >= TIME_BUDGET_SECS {
            let r = ScanResult {
                is_valid: false,
                members: None,
                modified_at: meta.modified,
                size_bytes: Some(meta.size),
                image_count: count,
            };
            proof {
                assert(r@ =~= spec_timed_out(*meta, es, i as int));
            }
            return r;
        }
        let name = match entry_name(&z, i) {
            Some(name) => name,
            None => {
                proof {
                    assert(false);
                }
                return metadata_result(meta);
            },
        };
        if !name_is_dir(name.as_str()) {
            saw = true;
            if is_image(name.as_str()) {
                count = count + 1;
                if collect {
                    let ghost prev = names@;
                    names.push(name);
                    proof {
                        assert(names_view(names@) =~= names_view(prev).push(es[i as int]));
                    }
                }
            } else {
                proof {
                    lemma_tally_latched(es, i + 1, cap as int);
                }
                let r = ScanResult {
                    is_valid: false,
                    members: None,
                    modified_at: meta.modified,
                    size_bytes: Some(meta.size),
                    image_count: count,
                };
                proof {
                    assert(r@ =~= spec_full_scan(*meta, parsed_names(data@), collect));
                }
                return r;
            }
        }
        i = i + 1;
    }
    let is_valid = saw && count > 0 && total <= INSPECT_CAP;
    let members = if is_valid && collect {
        Some(names)
    } else {
        None
    };
    let r = ScanResult {
        is_valid,
        members,
        modified_at: meta.modified,
        size_bytes: Some(meta.size),
        image_count: count,
    };
    proof {
        assert(r@ =~= spec_full_scan(*meta, parsed_names(data@), collect));
    }
    r
}

/// What to do with a path before any archive is opened.
pub enum Directive {
    /// The scan is already decided; this is its result.
    Done(ScanResult),
    /// The file may be opened and its bytes scanned.
    Open,
}

/// Decides a scan from filesystem metadata alone: a missing or
/// unreadable path is done with an empty result, an oversized file is
/// done with its metadata, and anything else is to be opened.
pub fn pre_open(meta: &Option<FileMeta>) -> (d: Directive)
    ensures
        match *meta {
            None => d matches Directive::Done(r) && r@ == spec_missing() && r.wf(),
            Some(m) => if m.size > MAX_FILE_SIZE {
                d matches Directive::Done(r) && r@ == spec_meta_only(m) && r.wf()
            } else {
                d matches Directive::Open
            },
        },
{
    match meta {
        None => Directive::Done(missing_result()),
        Some(m) => {
            if m.size > MAX_FILE_SIZE {
                Directive::Done(metadata_result(m))
            } else {
                Directive::Open
            }
        },
    }
}

/// Scanning the same unmodified archive twice yields identical
/// results: two completed scans of the same bytes and metadata, with
/// the same collection request, return the same value.
pub proof fn lemma_scan_deterministic(
    m: FileMeta,
    data: Seq<u8>,
    collect: bool,
    r1: ScanResultSpec,
    r2: ScanResultSpec,
)
    requires
        r1 == spec_full_scan(m, parsed_names(data), collect),
        r2 == spec_full_scan(m, parsed_names(data), collect),
    ensures
        r1 == r2,
{
}

} // verus!
