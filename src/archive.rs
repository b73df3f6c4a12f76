//! Archive traversal: which pipeline an input takes, gzip payloads, and the
//! entries of a zip archive in index order, each failing on its own.
use vstd::prelude::*;
use crate::text::{ends_with_text, has_suffix};

verus! {

#[verifier::external_type_specification]
#[verifier::external_body]
#[verifier::reject_recursive_types(T)]
pub struct ExCursor<T>(std::io::Cursor<T>);

#[verifier::external_type_specification]
#[verifier::external_body]
#[verifier::reject_recursive_types(R)]
pub struct ExZipArchive<R>(zip::ZipArchive<R>);

#[verifier::external_type_specification]
#[verifier::external_body]
pub struct ExZipError(zip::result::ZipError);

/// A zip archive read from memory.
pub type MemZip = zip::ZipArchive<std::io::Cursor<Vec<u8>>>;

/// How an input file is read, chosen by its name.
#[derive(Clone, Copy, Debug, PartialEq, Eq, Structural)]
pub enum InputKind {
    PlainXml,
    GzipXml,
    Zip,
    Ignored,
}

/// What went wrong in a container or one of its entries.
#[derive(Clone, Copy, Debug, PartialEq, Eq, Structural)]
pub enum ArchiveError {
    /// The archive's directory cannot be read.
    Unreadable,
    /// An entry's header or stream cannot be read.
    Entry,
    /// A gzip stream is corrupt.
    Gzip,
}

pub open spec fn input_kind_of(path: Seq<char>) -> InputKind {
    if has_suffix(path, ".xml"@) {
        InputKind::PlainXml
    } else if has_suffix(path, ".xml.gz"@) {
        InputKind::GzipXml
    } else if has_suffix(path, ".zip"@) {
        InputKind::Zip
    } else {
        InputKind::Ignored
    }
}

/// Chooses the pipeline for an input path by its suffix.
pub fn input_kind(path: &str) -> (r: InputKind)
    ensures
        r == input_kind_of(path@),
{
    if ends_with_text(path, ".xml") {
        InputKind::PlainXml
    } else if ends_with_text(path, ".xml.gz") {
        InputKind::GzipXml
    } else if ends_with_text(path, ".zip") {
        InputKind::Zip
    } else {
        InputKind::Ignored
    }
}

/// Whether a gzip stream decompresses without error.
pub uninterp spec fn gunzip_ok(b: Seq<u8>) -> bool;

/// The bytes a gzip stream decompresses to.
pub uninterp spec fn gunzip_of(b: Seq<u8>) -> Seq<u8>;

/// Relies on flate2's `read::GzDecoder`, read to its end: the decompressed bytes of
/// the stream, or an error where the stream is corrupt. Both depend on the bytes alone.
#[verifier::external_body]
fn gunzip(b: &[u8]) -> (r: Option<Vec<u8>>)
    ensures
        r is Some <==> gunzip_ok(b@),
        r is Some ==> r->Some_0@ == gunzip_of(b@),
{
    let mut out = Vec::new();
    match std::io::Read::read_to_end(&mut flate2::read::GzDecoder::new(b), &mut out) {
        Ok(_) => Some(out),
        Err(_) => None,
    }
}

/// The XML bytes of a single document, gzip-decoded first where it is compressed.
pub fn unpack(bytes: &Vec<u8>, gzipped: bool) -> (r: Result<Vec<u8>, ArchiveError>)
    ensures
        !gzipped ==> r is Ok && r->Ok_0@ == bytes@,
        gzipped ==> (r is Ok <==> gunzip_ok(bytes@)),
        gzipped && r is Ok ==> r->Ok_0@ == gunzip_of(bytes@),
        r is Err ==> r->Err_0 == ArchiveError::Gzip,
{
    if gzipped {
        match gunzip(bytes.as_slice()) {
            Some(v) => Ok(v),
            None => Err(ArchiveError::Gzip),
        }
    } else {
        Ok(bytes.clone())
    }
}

/// Whether the directory of an archive can be read from these bytes.
pub uninterp spec fn zip_opens(b: Seq<u8>) -> bool;

/// The number of entries in the directory of the archive in these bytes.
pub uninterp spec fn zip_count_of(b: Seq<u8>) -> nat;

/// The stored name of entry `i` of the archive in these bytes.
pub uninterp spec fn zip_name_of(b: Seq<u8>, i: int) -> Seq<char>;

/// Whether entry `i` of the archive in these bytes can be found and read to its end.
pub uninterp spec fn zip_file_ok(b: Seq<u8>, i: int) -> bool;

/// The uncompressed contents of entry `i` of the archive in these bytes.
pub uninterp spec fn zip_data_of(b: Seq<u8>, i: int) -> Seq<u8>;

/// The number of entries in the directory of an opened archive.
pub uninterp spec fn zip_len_of(a: MemZip) -> nat;

/// The stored name of entry `i` of an opened archive.
pub uninterp spec fn zip_entry_name_of(a: MemZip, i: int) -> Seq<char>;

/// Whether entry `i` of an opened archive can be found and read to its end.
pub uninterp spec fn zip_entry_ok(a: MemZip, i: int) -> bool;

/// The uncompressed contents of entry `i` of an opened archive.
pub uninterp spec fn zip_entry_data_of(a: MemZip, i: int) -> Seq<u8>;

/// Relies on `zip::ZipArchive::new`: reads the directory of an archive held in
/// memory with the default configuration; what the opened archive then lists and
/// reads is what these bytes hold.
#[verifier::external_body]
fn open_archive(bytes: Vec<u8>) -> (r: Result<MemZip, zip::result::ZipError>)
    ensures
        r is Ok <==> zip_opens(bytes@),
        r is Ok ==> zip_len_of(r->Ok_0) == zip_count_of(bytes@),
        r is Ok ==> forall|i: int|
            #![trigger zip_entry_name_of(r->Ok_0, i)]
            #![trigger zip_entry_ok(r->Ok_0, i)]
            #![trigger zip_entry_data_of(r->Ok_0, i)]
            zip_entry_name_of(r->Ok_0, i) == zip_name_of(bytes@, i) && zip_entry_ok(r->Ok_0, i)
                == zip_file_ok(bytes@, i) && zip_entry_data_of(r->Ok_0, i) == zip_data_of(
                bytes@,
                i,
            ),
{
    zip::ZipArchive::new(std::io::Cursor::new(bytes))
}

/// Relies on `zip::ZipArchive::len`: the number of entries in the directory.
#[verifier::external_body]
fn entry_count(a: &MemZip) -> (r: usize)
    ensures
        r == zip_len_of(*a),
{
    a.len()
}

/// Relies on `zip::ZipArchive::name_for_index`: the stored name of entry `i`, read
/// from the directory, for every index below the number of entries.
#[verifier::external_body]
fn entry_name(a: &MemZip, i: usize) -> (r: Option<String>)
    ensures
        r is Some <==> i < zip_len_of(*a),
        r is Some ==> r->Some_0@ == zip_entry_name_of(*a, i as int),
{
    a.name_for_index(i).map(|n| n.to_string())
}

/// Relies on `zip::ZipArchive::by_index` and reading the entry to its end: the
/// uncompressed bytes of entry `i`. Reading seeks to absolute offsets and leaves
/// the directory as it was, so what every entry gives stays the same.
#[verifier::external_body]
fn read_entry(a: &mut MemZip, i: usize) -> (r: Result<Vec<u8>, zip::result::ZipError>)
    ensures
        zip_len_of(*final(a)) == zip_len_of(*old(a)),
        forall|j: int|
            #![trigger zip_entry_name_of(*final(a), j)]
            #![trigger zip_entry_ok(*final(a), j)]
            #![trigger zip_entry_data_of(*final(a), j)]
            zip_entry_name_of(*final(a), j) == zip_entry_name_of(*old(a), j) && zip_entry_ok(
                *final(a),
                j,
            ) == zip_entry_ok(*old(a), j) && zip_entry_data_of(*final(a), j)
                == zip_entry_data_of(*old(a), j),
        r is Ok <==> zip_entry_ok(*old(a), i as int),
        r is Ok ==> r->Ok_0@ == zip_entry_data_of(*old(a), i as int),
{
    let mut f = a.by_index(i)?;
    let mut data = Vec::new();
    std::io::Read::read_to_end(&mut f, &mut data)?;
    Ok(data)
}

/// One visited entry of an archive: its index, its stored name, and its XML bytes
/// or the error that reading them gave.
#[derive(Debug, PartialEq, Eq)]
pub struct ArchiveEntry {
    pub index: usize,
    pub label: String,
    pub payload: Result<Vec<u8>, ArchiveError>,
}

/// Names that end so hold gzip-compressed XML.
pub open spec fn gzip_name(name: Seq<char>) -> bool {
    has_suffix(name, ".xml.gz"@)
}

/// `e` is what visiting entry `i` gives, where the entry has stored name `name`, can
/// be read or not (`ok`), and holds `data`: an unreadable entry is marked so; a
/// readable one carries its XML, gzip-decoded where the name says so.
pub open spec fn entry_is(e: ArchiveEntry, i: int, name: Seq<char>, ok: bool, data: Seq<u8>) -> bool {
    &&& e.index == i
    &&& e.label@ == name
    &&& if !ok {
        e.payload == Err::<Vec<u8>, ArchiveError>(ArchiveError::Entry)
    } else if !gzip_name(name) {
        e.payload is Ok && e.payload->Ok_0@ == data
    } else if gunzip_ok(data) {
        e.payload is Ok && e.payload->Ok_0@ == gunzip_of(data)
    } else {
        e.payload == Err::<Vec<u8>, ArchiveError>(ArchiveError::Gzip)
    }
}

/// `e` is what visiting entry `i` of an opened archive gives.
pub open spec fn archive_entry_of(e: ArchiveEntry, a: MemZip, i: int) -> bool {
    entry_is(e, i, zip_entry_name_of(a, i), zip_entry_ok(a, i), zip_entry_data_of(a, i))
}

/// `e` is what visiting entry `i` of the archive in the bytes `b` gives.
pub open spec fn entry_of(e: ArchiveEntry, b: Seq<u8>, i: int) -> bool {
    entry_is(e, i, zip_name_of(b, i), zip_file_ok(b, i), zip_data_of(b, i))
}

/// Visits every entry of an archive once, in ascending index order. A failure of
/// one entry is recorded with that entry and its name, and does not stop the visit.
pub fn traverse_archive(a: &mut MemZip) -> (r: Vec<ArchiveEntry>)
    ensures
        r@.len() == zip_len_of(*old(a)),
        forall|i: int| 0 <= i < r@.len() ==> archive_entry_of(#[trigger] r@[i], *old(a), i),
{
    let ghost start = *a;
    let n = entry_count(a);
    let mut out: Vec<ArchiveEntry> = Vec::new();
    let mut i: usize = 0;
    while i < n
        invariant
            n == zip_len_of(start),
            zip_len_of(*a) == n,
            forall|j: int|
                #![trigger zip_entry_name_of(*a, j)]
                #![trigger zip_entry_ok(*a, j)]
                #![trigger zip_entry_data_of(*a, j)]
                zip_entry_name_of(*a, j) == zip_entry_name_of(start, j) && zip_entry_ok(*a, j)
                    == zip_entry_ok(start, j) && zip_entry_data_of(*a, j) == zip_entry_data_of(
                    start,
                    j,
                ),
            i <= n,
            out@.len() == i,
            forall|j: int| 0 <= j < i ==> archive_entry_of(#[trigger] out@[j], start, j),
        decreases n - i,
    {
        let name = match entry_name(a, i) {
            Some(nm) => nm,
            None => String::new(),
        };
        let payload = match read_entry(a, i) {
            Err(_) => Err(ArchiveError::Entry),
            Ok(data) => {
                let gz = ends_with_text(name.as_str(), ".xml.gz");
                unpack(&data, gz)
            },
        };
        let e = ArchiveEntry { index: i, label: name, payload };
        assert(archive_entry_of(e, start, i as int));
        out.push(e);
        i = i + 1;
    }
    out
}

/// Reads a zip archive held in memory and visits its entries in ascending index
/// order; fails as a whole only where the archive's directory cannot be read.
pub fn traverse_zip(bytes: Vec<u8>) -> (r: Result<Vec<ArchiveEntry>, ArchiveError>)
    ensures
        r is Err <==> !zip_opens(bytes@),
        r is Err ==> r->Err_0 == ArchiveError::Unreadable,
        r is Ok ==> r->Ok_0@.len() == zip_count_of(bytes@),
        r is Ok ==> forall|i: int|
            0 <= i < r->Ok_0@.len() ==> entry_of(#[trigger] r->Ok_0@[i], bytes@, i),
{
    match open_archive(bytes) {
        Err(_) => Err(ArchiveError::Unreadable),
        Ok(mut a) => {
            let ghost opened = a;
            let r = traverse_archive(&mut a);
            assert forall|i: int| 0 <= i < r@.len() implies entry_of(#[trigger] r@[i], bytes@, i) by {
                assert(archive_entry_of(r@[i], opened, i));
                assert(zip_entry_name_of(opened, i) == zip_name_of(bytes@, i));
            }
            Ok(r)
        },
    }
}

} // verus!
