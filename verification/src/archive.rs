//! Unpacking a packed extension that is held in memory.
//!
//! The archive format is read by the `zip` crate. This module walks the
//! archive in its stored order and turns it into the list of files the
//! bundle directory has to hold, or gives the whole archive up at the first
//! entry that cannot be used. Reading the archive from disk and writing the
//! files out is left to the caller.

use crate::error::HarnessError;
use std::io::Cursor;
use vstd::prelude::*;
use zip::read::ZipFile;
use zip::result::ZipError;
use zip::ZipArchive;

verus! {

/// `zip::ZipArchive`, known to the verifier as an opaque type.
#[verifier::external_type_specification]
#[verifier::external_body]
#[verifier::reject_recursive_types(R)]
pub struct ExZipArchive<R>(ZipArchive<R>);

/// `std::io::Cursor`, known to the verifier as an opaque type.
#[verifier::external_type_specification]
#[verifier::external_body]
#[verifier::reject_recursive_types(T)]
pub struct ExCursor<T>(Cursor<T>);

/// `zip::read::ZipFile`, known to the verifier as an opaque type.
#[verifier::external_type_specification]
#[verifier::external_body]
pub struct ExZipFile<'a>(ZipFile<'a>);

/// `zip::result::ZipError`, known to the verifier as an opaque type.
#[verifier::external_type_specification]
#[verifier::external_body]
pub struct ExZipError(ZipError);

/// `std::io::Error`, known to the verifier as an opaque type.
#[verifier::external_type_specification]
#[verifier::external_body]
pub struct ExIoError(std::io::Error);

/// An archive over bytes in memory.
pub type MemArchive = ZipArchive<Cursor<Vec<u8>>>;

/// What an archive holds at one index, as far as unpacking reads it.
pub struct Stored {
    /// Whether the entry can be opened for reading: its compression is
    /// known, and it is not protected by a password other than the empty
    /// one.
    pub opens: bool,
    /// The entry's path, where that path stays inside the directory it is
    /// unpacked into.
    pub name: Option<Seq<char>>,
    /// The entry's decompressed bytes, where they can be read to the end.
    pub data: Option<Seq<u8>>,
}

/// A file of the bundle as a pair of mathematical sequences.
pub struct BundleFileView {
    pub path: Seq<char>,
    pub contents: Seq<u8>,
}

/// One file of the unpacked bundle: where it goes, relative to the bundle
/// directory, and what it holds.
#[derive(Debug)]
pub struct BundleFile {
    pub path: String,
    pub contents: Vec<u8>,
}

impl View for BundleFile {
    type V = BundleFileView;

    open spec fn view(&self) -> BundleFileView {
        BundleFileView { path: self.path@, contents: self.contents@ }
    }
}

/// The entries of an archive, in stored order.
pub uninterp spec fn archive_entries(a: MemArchive) -> Seq<Stored>;

/// What an opened entry stands for.
pub uninterp spec fn opened_entry(f: ZipFile<'_>) -> Stored;

/// The entries that the bytes of an archive describe, or `None` where the
/// bytes are no archive that can be read.
pub uninterp spec fn parsed_archive(bytes: Seq<u8>) -> Option<Seq<Stored>>;

/// An entry that unpacking can turn into a file.
pub open spec fn usable(e: Stored) -> bool {
    e.opens && e.name is Some && e.data is Some
}

/// The file that a usable entry becomes.
pub open spec fn file_of(e: Stored) -> BundleFileView {
    BundleFileView { path: e.name->0, contents: e.data->0 }
}

/// Whether every entry can be turned into a file.
pub open spec fn all_usable(entries: Seq<Stored>) -> bool {
    forall|i: int| 0 <= i < entries.len() ==> usable(#[trigger] entries[i])
}

/// Whether `files` is, entry for entry and in the same order, what
/// `entries` unpack to.
pub open spec fn unpacks_to(entries: Seq<Stored>, files: Seq<BundleFile>) -> bool {
    &&& files.len() == entries.len()
    &&& forall|i: int| 0 <= i < entries.len() ==> (#[trigger] files[i])@ == file_of(entries[i])
}

/// Calls `zip::ZipArchive::new` on a cursor over the bytes. The result is
/// taken to depend on the bytes alone: it is `Ok` exactly where
/// `parsed_archive` names a listing, and the archive then holds that
/// listing.
#[verifier::external_body]
fn open_archive(bytes: Vec<u8>) -> (r: Result<MemArchive, ZipError>)
    ensures
        match r {
            Ok(a) => parsed_archive(bytes@) == Some(archive_entries(a)),
            Err(_) => parsed_archive(bytes@) is None,
        },
{
    ZipArchive::new(Cursor::new(bytes))
}

/// Calls `zip::ZipArchive::len`: the number of entries of the archive.
#[verifier::external_body]
fn entry_count(a: &MemArchive) -> (n: usize)
    ensures
        n == archive_entries(*a).len(),
{
    a.len()
}

/// Calls `zip::ZipArchive::by_index_decrypt` with an empty password. For
/// an entry that is not encrypted the password is not used, and the call
/// is `by_index` without the panic that `by_index` has on an entry that
/// carries an encryption record without being marked encrypted. The call
/// moves the reader and leaves the entries as they were. Past the end the
/// crate returns an error. For an index inside the archive it hands out an
/// opened entry exactly where the entry opens, and what it hands out
/// stands for that entry.
#[verifier::external_body]
fn entry_at<'a>(a: &'a mut MemArchive, i: usize) -> (r: Result<Option<ZipFile<'a>>, ZipError>)
    ensures
        archive_entries(*final(a)) == archive_entries(*old(a)),
        i >= archive_entries(*old(a)).len() ==> r is Err,
        i < archive_entries(*old(a)).len() ==> match r {
            Ok(Some(f)) => archive_entries(*old(a))[i as int].opens && opened_entry(f)
                == archive_entries(*old(a))[i as int],
            _ => !archive_entries(*old(a))[i as int].opens,
        },
{
    a.by_index_decrypt(i, &[]).map(|opened| opened.ok())
}

/// Calls `zip::read::ZipFile::enclosed_name` and copies the path into a
/// `String`: the entry's path where it stays inside the target directory,
/// `None` where it would leave it.
#[verifier::external_body]
fn enclosed_name(f: &ZipFile<'_>) -> (r: Option<String>)
    ensures
        match r {
            Some(s) => opened_entry(*f).name == Some(s@),
            None => opened_entry(*f).name is None,
        },
{
    f.enclosed_name().and_then(|p| p.to_str()).map(|s| s.to_string())
}

/// Calls `std::io::copy` from a freshly opened entry into a buffer: the
/// entry's decompressed bytes, or the error that reading ran into.
#[verifier::external_body]
fn read_all(f: &mut ZipFile<'_>) -> (r: Result<Vec<u8>, std::io::Error>)
    ensures
        match r {
            Ok(v) => opened_entry(*old(f)).data == Some(v@),
            Err(_) => opened_entry(*old(f)).data is None,
        },
{
    let mut buf: Vec<u8> = Vec::new();
    std::io::copy(f, &mut buf).map(|_| buf)
}

/// Decides what becomes of one opened entry, given its enclosed path and
/// the outcome of reading it: a file of the bundle where both are there, an
/// I/O failure otherwise.
pub fn accept_entry(name: Option<String>, data: Result<Vec<u8>, std::io::Error>) -> (r: Result<
    BundleFile,
    HarnessError,
>)
    ensures
        match r {
            Ok(file) => name == Some(file.path) && data is Ok && data->Ok_0 == file.contents,
            Err(e) => e == HarnessError::Io && (name is None || data is Err),
        },
{
    match name {
        None => Err(HarnessError::Io),
        Some(path) => match data {
            Err(_) => Err(HarnessError::Io),
            Ok(contents) => Ok(BundleFile { path, contents }),
        },
    }
}

/// Unpacks an opened archive: every entry in stored order, each with its
/// enclosed path and its decompressed bytes. The first entry that does not
/// open, whose path would leave the bundle directory, or whose bytes cannot
/// be read makes the whole archive an I/O failure.
pub fn extract_entries(archive: MemArchive) -> (r: Result<Vec<BundleFile>, HarnessError>)
    ensures
        match r {
            Ok(files) => all_usable(archive_entries(archive)) && unpacks_to(
                archive_entries(archive),
                files@,
            ),
            Err(e) => e == HarnessError::Io && !all_usable(archive_entries(archive)),
        },
{
    let ghost entries = archive_entries(archive);
    let mut a = archive;
    let n = entry_count(&a);
    let mut files: Vec<BundleFile> = Vec::new();
    let mut i: usize = 0;
    while i < n
        invariant
            i <= n,
            n == entries.len(),
            entries == archive_entries(archive),
            archive_entries(a) == entries,
            files@.len() == i,
            forall|k: int| 0 <= k < i ==> usable(#[trigger] entries[k]),
            forall|k: int| 0 <= k < i ==> (#[trigger] files@[k])@ == file_of(entries[k]),
        decreases n - i,
    {
        let step = match entry_at(&mut a, i) {
            Err(_) => Err(HarnessError::Io),
            Ok(None) => Err(HarnessError::Io),
            Ok(Some(mut f)) => {
                let name = enclosed_name(&f);
                let data = read_all(&mut f);
                accept_entry(name, data)
            },
        };
        match step {
            Err(e) => {
                assert(!usable(entries[i as int]));
                return Err(e);
            },
            Ok(file) => {
                files.push(file);
            },
        }
        i = i + 1;
    }
    Ok(files)
}

/// What unpacking the bytes of an archive comes to: the files of its
/// listing where the bytes are an archive and every entry is usable.
pub open spec fn unpacked(bytes: Seq<u8>, files: Seq<BundleFile>) -> bool {
    &&& parsed_archive(bytes) matches Some(entries)
    &&& all_usable(entries)
    &&& unpacks_to(entries, files)
}

/// Unpacks a packed extension held in memory into the files of the bundle
/// directory, in archive order. An archive without entries unpacks to no
/// files. Bytes that are no readable archive, and archives with an entry
/// that cannot be used, are an I/O failure.
pub fn extract_extension(bytes: Vec<u8>) -> (r: Result<Vec<BundleFile>, HarnessError>)
    ensures
        match r {
            Ok(files) => unpacked(bytes@, files@),
            Err(e) => e == HarnessError::Io && !(parsed_archive(bytes@) is Some && all_usable(
                parsed_archive(bytes@)->0,
            )),
        },
{
    match open_archive(bytes) {
        Err(_) => Err(HarnessError::Io),
        Ok(a) => extract_entries(a),
    }
}

/// What an archive unpacks to is settled by its entries: two lists of
/// files that both are what the entries unpack to agree file for file.
pub proof fn lemma_unpacking_is_determined(
    entries: Seq<Stored>,
    first: Seq<BundleFile>,
    second: Seq<BundleFile>,
)
    requires
        unpacks_to(entries, first),
        unpacks_to(entries, second),
    ensures
        first.len() == second.len(),
        forall|i: int| 0 <= i < first.len() ==> (#[trigger] first[i])@ == second[i]@,
{
    assert forall|i: int| 0 <= i < first.len() implies (#[trigger] first[i])@ == second[i]@ by {
        assert(first[i]@ == file_of(entries[i]));
        assert(second[i]@ == file_of(entries[i]));
    }
}

/// An archive without entries is usable as it is, and it unpacks to no
/// files at all.
pub proof fn lemma_empty_archive(files: Seq<BundleFile>)
    ensures
        all_usable(Seq::<Stored>::empty()),
        unpacks_to(Seq::<Stored>::empty(), files) <==> files.len() == 0,
{
}

} // verus!
