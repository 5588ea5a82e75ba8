//! The batch coordinator's verified core: one scan per prepared input,
//! every input path kept, path-to-result association preserved.
//!
//! Reading metadata and bytes off the filesystem, and fanning the work
//! out over a worker pool, happen outside the library; each worker
//! hands its path's prepared parts to `scan_prepared`.

use vstd::prelude::*;

use crate::result::{metadata_result, missing_result, spec_meta_only, spec_missing, FileMeta,
    ScanResult, ScanResultSpec};
use crate::scan::{pre_open, scan_archive_bytes, scan_outcome_ok, Directive, MAX_FILE_SIZE};

verus! {

/// Everything one path contributes to a batch: the path itself, its
/// filesystem metadata where readable, and the file's bytes where the
/// metadata admitted opening it and reading succeeded.
pub struct ScanInput {
    pub path: String,
    pub meta: Option<FileMeta>,
    pub data: Option<Vec<u8>>,
}

/// Everything a scan of one prepared input may return: the empty
/// result without metadata, metadata alone for an oversized or
/// unreadable file, else an outcome of scanning the bytes.
pub open spec fn spec_prepared_ok(r: ScanResultSpec, inp: ScanInput, collect: bool) -> bool {
    match inp.meta {
        None => r == spec_missing(),
        Some(m) => if m.size > MAX_FILE_SIZE {
            r == spec_meta_only(m)
        } else {
            match inp.data {
                None => r == spec_meta_only(m),
                Some(d) => scan_outcome_ok(r, m, d@, collect),
            }
        },
    }
}

/// Scans one prepared input, in the strict order of the scanner's
/// guards: missing metadata, then the size guard, then unreadable
/// bytes, then the archive itself.
pub fn scan_prepared(inp: &ScanInput, collect: bool) -> (r: ScanResult)
    ensures
        spec_prepared_ok(r@, *inp, collect),
        r.wf(),
{
    match pre_open(&inp.meta) {
        Directive::Done(r) => r,
        Directive::Open => {
            let m = match &inp.meta {
                Some(m) => m,
                None => {
                    proof {
                        assert(false);
                    }
                    return missing_result();
                },
            };
            match &inp.data {
                None => metadata_result(m),
                Some(d) => scan_archive_bytes(m, d, collect),
            }
        },
    }
}

/// Scans a batch of prepared inputs. The output holds exactly one
/// entry per input, in order, each pairing the input's path with a
/// result that `spec_prepared_ok` admits for it; no failure of one
/// path disturbs another.
pub fn scan_many(inputs: &Vec<ScanInput>, collect: bool) -> (r: Vec<(String, ScanResult)>)
    ensures
        r@.len() == inputs@.len(),
        forall|i: int|
            0 <= i < r@.len() ==> {
                &&& (#[trigger] r@[i]).0@ == inputs@[i].path@
                &&& spec_prepared_ok(r@[i].1@, inputs@[i], collect)
                &&& r@[i].1.wf()
            },
{
    let mut out: Vec<(String, ScanResult)> = Vec::new();
    let n = inputs.len();
    let mut idx: usize = 0;
    while idx < n
        invariant
            n == inputs@.len(),
            idx <= n,
            out@.len() == idx,
            forall|i: int|
                0 <= i < idx ==> {
                    &&& (#[trigger] out@[i]).0@ == inputs@[i].path@
                    &&& spec_prepared_ok(out@[i].1@, inputs@[i], collect)
                    &&& out@[i].1.wf()
                },
        decreases n - idx,
    {
        let res = scan_prepared(&inputs[idx], collect);
        out.push((inputs[idx].path.clone(), res));
        idx = idx + 1;
    }
    out
}

/// A batch drops no path and invents none: the sequence of keys in the
/// output is exactly the sequence of input paths, so the two agree as
/// sets and every input path appears exactly once.
pub proof fn lemma_batch_keys(inputs: Seq<ScanInput>, rs: Seq<(String, ScanResult)>)
    requires
        rs.len() == inputs.len(),
        forall|i: int| 0 <= i < rs.len() ==> (#[trigger] rs[i]).0@ == inputs[i].path@,
    ensures
        rs.map_values(|p: (String, ScanResult)| p.0@) =~= inputs.map_values(
            |q: ScanInput| q.path@,
        ),
{
}

} // verus!
