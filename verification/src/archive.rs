//! The trusted boundary around the `zip` crate and the process clock.
//!
//! An opened archive is modelled by the sequence of its member names,
//! in central-directory order. Parsing is a function of the archive
//! bytes alone, so its outcome carries a name, `parsed_names`, that the
//! wrappers' contracts share. Nothing is stated of the clock: a scan
//! states what holds of its result whatever the clock said.

use vstd::prelude::*;

verus! {

#[verifier::external_type_specification]
#[verifier::external_body]
#[verifier::reject_recursive_types(R)]
pub struct ExZipArchive<R>(zip::ZipArchive<R>);

#[verifier::external_type_specification]
#[verifier::external_body]
#[verifier::reject_recursive_types(T)]
pub struct ExCursor<T>(std::io::Cursor<T>);

#[verifier::external_type_specification]
#[verifier::external_body]
pub struct ExInstant(std::time::Instant);

/// What parsing a byte sequence as a ZIP container yields: nothing for
/// bytes that are no well-formed archive, else the member names of its
/// central directory, in order.
pub uninterp spec fn parsed_names(data: Seq<u8>) -> Option<Seq<Seq<char>>>;

/// The member names an opened archive holds, in central-directory
/// order.
pub uninterp spec fn entries_of(z: zip::ZipArchive<std::io::Cursor<Vec<u8>>>) -> Seq<Seq<char>>;

/// Relies on `zip::ZipArchive::new`: it reads the central directory of
/// the given bytes, a function of the bytes alone, and fails exactly on
/// bytes that are no well-formed archive.
#[verifier::external_body]
pub(crate) fn open_archive(data: &Vec<u8>) -> (r: Option<
    zip::ZipArchive<std::io::Cursor<Vec<u8>>>,
>)
    ensures
        match r {
            Some(z) => parsed_names(data@) matches Some(es) && entries_of(z) == es,
            None => parsed_names(data@) is None,
        },
{
    zip::ZipArchive::new(std::io::Cursor::new(data.clone())).ok()
}

/// Relies on `zip::ZipArchive::len`: the number of entries in the
/// central directory.
#[verifier::external_body]
pub(crate) fn archive_len(z: &zip::ZipArchive<std::io::Cursor<Vec<u8>>>) -> (n: usize)
    ensures
        n == entries_of(*z).len(),
{
    z.len()
}

/// Relies on `zip::ZipArchive::name_for_index`: the name of the entry
/// at the given index, and nothing for an index at or past the entry
/// count.
#[verifier::external_body]
pub(crate) fn entry_name(z: &zip::ZipArchive<std::io::Cursor<Vec<u8>>>, i: usize) -> (r: Option<
    String,
>)
    ensures
        if i < entries_of(*z).len() {
            r matches Some(name) && name@ == entries_of(*z)[i as int]
        } else {
            r is None
        },
{
    z.name_for_index(i).map(|s| s.to_string())
}

/// Relies on `std::time::Instant::now`. Nothing is stated of the
/// result: it is a reading of the process clock.
#[verifier::external_body]
pub(crate) fn now_instant() -> std::time::Instant {
    std::time::Instant::now()
}

/// Relies on `std::time::Instant::elapsed`: the whole seconds since the
/// instant was taken. Nothing is stated of the result: it depends on
/// the clock.
#[verifier::external_body]
pub(crate) fn elapsed_secs(t: &std::time::Instant) -> u64 {
    t.elapsed().as_secs()
}

} // verus!
