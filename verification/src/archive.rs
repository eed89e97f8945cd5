use vstd::prelude::*;
use crate::bytes::SLASH;
use crate::bytes::copy_prefix;
use crate::bytes::join_under;
use crate::bytes::joined;
use crate::paths::safe_rel;
use crate::paths::sanitize_entry_name;
use crate::paths::sanitize_spec;

verus! {

/// Why extraction of an archive failed.
#[derive(Clone, Copy, PartialEq, Eq, Structural, Debug)]
pub enum ArchiveError {
    /// The archive's entry table could not be read.
    Malformed,
    /// One entry could not be read or decompressed.
    UnreadableEntry,
}

/// One record of an archive: its relative path inside the archive, whether
/// it is a directory, and its decompressed bytes.
pub struct ArchiveEntry {
    /// Path of the entry as stored in the archive.
    pub name: Vec<u8>,
    /// True for a directory entry.
    pub is_dir: bool,
    /// Decompressed contents; empty for a directory.
    pub data: Vec<u8>,
}

/// Mathematical model of one entry: name, directory flag, contents.
pub open spec fn entry_model(e: ArchiveEntry) -> (Seq<u8>, bool, Seq<u8>) {
    (e.name@, e.is_dir, e.data@)
}

/// Mathematical model of an entry list.
pub open spec fn entries_model(es: Seq<ArchiveEntry>) -> Seq<(Seq<u8>, bool, Seq<u8>)> {
    es.map_values(|e: ArchiveEntry| entry_model(e))
}

/// Directories one entry asks extraction to create under `root`: one for a
/// directory entry with a safe path, none otherwise.
pub open spec fn entry_dirs(e: (Seq<u8>, bool, Seq<u8>), root: Seq<u8>) -> Seq<Seq<u8>> {
    match sanitize_spec(e.0) {
        Some(rel) => if e.1 {
            seq![joined(root, SLASH, rel)]
        } else {
            Seq::empty()
        },
        None => Seq::empty(),
    }
}

/// Files one entry asks extraction to write under `root`: one path-contents
/// pair for a file entry with a safe path, none otherwise.
pub open spec fn entry_files(e: (Seq<u8>, bool, Seq<u8>), root: Seq<u8>) -> Seq<(Seq<u8>, Seq<u8>)> {
    match sanitize_spec(e.0) {
        Some(rel) => if e.1 {
            Seq::empty()
        } else {
            seq![(joined(root, SLASH, rel), e.2)]
        },
        None => Seq::empty(),
    }
}

/// One when the entry is skipped by the traversal check, zero otherwise.
pub open spec fn entry_skip(e: (Seq<u8>, bool, Seq<u8>)) -> int {
    if sanitize_spec(e.0) is None {
        1
    } else {
        0
    }
}

/// All directories extraction creates under `root`, in entry order.
pub open spec fn planned_dirs(es: Seq<(Seq<u8>, bool, Seq<u8>)>, root: Seq<u8>) -> Seq<Seq<u8>>
    decreases es.len(),
{
    if es.len() == 0 {
        Seq::empty()
    } else {
        entry_dirs(es[0], root) + planned_dirs(es.drop_first(), root)
    }
}

/// All files extraction writes under `root`, with their contents, in entry
/// order.
pub open spec fn planned_files(es: Seq<(Seq<u8>, bool, Seq<u8>)>, root: Seq<u8>) -> Seq<(
    Seq<u8>,
    Seq<u8>,
)>
    decreases es.len(),
{
    if es.len() == 0 {
        Seq::empty()
    } else {
        entry_files(es[0], root) + planned_files(es.drop_first(), root)
    }
}

/// How many entries extraction skips as unsafe.
pub open spec fn skipped_count(es: Seq<(Seq<u8>, bool, Seq<u8>)>) -> int
    decreases es.len(),
{
    if es.len() == 0 {
        0int
    } else {
        entry_skip(es[0]) + skipped_count(es.drop_first())
    }
}

/// What extraction did: the directories created, the files written with
/// their contents, and how many entries the traversal check skipped.
pub struct ExtractReport {
    /// Full paths of the directories created, in entry order.
    pub dirs: Vec<Vec<u8>>,
    /// Full path and contents of each file written, in entry order.
    pub files: Vec<(Vec<u8>, Vec<u8>)>,
    /// Number of entries skipped as unsafe.
    pub skipped: usize,
}

/// Mathematical model of the created directory list.
pub open spec fn dirs_model(ds: Seq<Vec<u8>>) -> Seq<Seq<u8>> {
    ds.map_values(|d: Vec<u8>| d@)
}

/// Mathematical model of the written file list.
pub open spec fn files_model(fs: Seq<(Vec<u8>, Vec<u8>)>) -> Seq<(Seq<u8>, Seq<u8>)> {
    fs.map_values(|f: (Vec<u8>, Vec<u8>)| (f.0@, f.1@))
}

/// The report is exactly what extracting `es` under `root` must do.
pub open spec fn report_matches(
    r: ExtractReport,
    es: Seq<(Seq<u8>, bool, Seq<u8>)>,
    root: Seq<u8>,
) -> bool {
    &&& dirs_model(r.dirs@) == planned_dirs(es, root)
    &&& files_model(r.files@) == planned_files(es, root)
    &&& r.skipped == skipped_count(es)
}

/// The number of skipped entries never exceeds the number of entries.
proof fn lemma_skipped_bound(es: Seq<(Seq<u8>, bool, Seq<u8>)>)
    ensures
        0 <= skipped_count(es) <= es.len(),
    decreases es.len(),
{
    if es.len() > 0 {
        lemma_skipped_bound(es.drop_first());
    }
}

/// `p` lies strictly below `root`: it is the root, a separator, and a safe
/// relative path.
pub open spec fn under_root(p: Seq<u8>, root: Seq<u8>) -> bool {
    exists|rel: Seq<u8>| #[trigger] safe_rel(rel) && p == joined(root, SLASH, rel)
}

/// Every path extraction plans lies strictly below the output root — so no
/// entry, however crafted, reaches outside the root's own tree.
pub proof fn lemma_extraction_stays_under_root(
    es: Seq<(Seq<u8>, bool, Seq<u8>)>,
    root: Seq<u8>,
)
    ensures
        forall|k: int| 0 <= k < planned_dirs(es, root).len()
            ==> under_root(#[trigger] planned_dirs(es, root)[k], root),
        forall|k: int| 0 <= k < planned_files(es, root).len()
            ==> under_root(#[trigger] planned_files(es, root)[k].0, root),
    decreases es.len(),
{
    if es.len() > 0 {
        lemma_extraction_stays_under_root(es.drop_first(), root);
        let ds = planned_dirs(es, root);
        let d0 = entry_dirs(es[0], root);
        let dr = planned_dirs(es.drop_first(), root);
        assert forall|k: int| 0 <= k < ds.len() implies under_root(ds[k], root) by {
            if k < d0.len() {
                let rel = sanitize_spec(es[0].0)->Some_0;
                assert(safe_rel(rel) && ds[k] == joined(root, SLASH, rel));
            } else {
                assert(ds[k] == dr[k - d0.len()]);
                assert(under_root(dr[k - d0.len()], root));
            }
        }
        let fs = planned_files(es, root);
        let f0 = entry_files(es[0], root);
        let fr = planned_files(es.drop_first(), root);
        assert forall|k: int| 0 <= k < fs.len() implies under_root(fs[k].0, root) by {
            if k < f0.len() {
                let rel = sanitize_spec(es[0].0)->Some_0;
                assert(safe_rel(rel) && fs[k].0 == joined(root, SLASH, rel));
            } else {
                assert(fs[k] == fr[k - f0.len()]);
                assert(under_root(fr[k - f0.len()].0, root));
            }
        }
    }
}

/// Applies one entry to the report being built: creates the directory,
/// writes the file, or counts the entry as skipped.
fn record_entry(
    dirs: &mut Vec<Vec<u8>>,
    files: &mut Vec<(Vec<u8>, Vec<u8>)>,
    skipped: &mut usize,
    e: &ArchiveEntry,
    root: &Vec<u8>,
)
    requires
        *old(skipped) < usize::MAX,
    ensures
        dirs_model(final(dirs)@) == dirs_model(old(dirs)@) + entry_dirs(entry_model(*e), root@),
        files_model(final(files)@) == files_model(old(files)@)
            + entry_files(entry_model(*e), root@),
        *final(skipped) == *old(skipped) + entry_skip(entry_model(*e)),
{
    match sanitize_entry_name(&e.name) {
        Some(rel) => {
            let full = join_under(root, SLASH, &rel);
            if e.is_dir {
                dirs.push(full);
                proof {
                    assert(dirs_model(dirs@) =~= dirs_model(old(dirs)@)
                        + entry_dirs(entry_model(*e), root@));
                    assert(files_model(files@) =~= files_model(old(files)@)
                        + entry_files(entry_model(*e), root@));
                }
            } else {
                let data = copy_prefix(&e.data, e.data.len());
                proof {
                    assert(data@ =~= e.data@);
                }
                files.push((full, data));
                proof {
                    assert(dirs_model(dirs@) =~= dirs_model(old(dirs)@)
                        + entry_dirs(entry_model(*e), root@));
                    assert(files_model(files@) =~= files_model(old(files)@)
                        + entry_files(entry_model(*e), root@));
                }
            }
        },
        None => {
            *skipped = *skipped + 1;
            proof {
                assert(dirs_model(dirs@) =~= dirs_model(old(dirs)@)
                    + entry_dirs(entry_model(*e), root@));
                assert(files_model(files@) =~= files_model(old(files)@)
                    + entry_files(entry_model(*e), root@));
            }
        },
    }
}

/// Extracts an in-memory entry list under `root`: recreates the directory
/// structure, writes each file entry's bytes, and skips — counts, but never
/// writes — every entry whose path would escape the root.
pub fn extract_entries(entries: &Vec<ArchiveEntry>, root: &Vec<u8>) -> (r: ExtractReport)
    ensures
        report_matches(r, entries_model(entries@), root@),
{
    let ghost whole = entries_model(entries@);
    let mut dirs: Vec<Vec<u8>> = Vec::new();
    let mut files: Vec<(Vec<u8>, Vec<u8>)> = Vec::new();
    let mut skipped: usize = 0;
    let mut i: usize = 0;
    proof {
        assert(whole.skip(0) =~= whole);
        lemma_skipped_bound(whole);
    }
    while i < entries.len()
        invariant
            whole == entries_model(entries@),
            whole.len() == entries@.len(),
            0 <= i <= entries@.len(),
            skipped <= i,
            dirs_model(dirs@) + planned_dirs(whole.skip(i as int), root@)
                =~= planned_dirs(whole, root@),
            files_model(files@) + planned_files(whole.skip(i as int), root@)
                =~= planned_files(whole, root@),
            skipped + skipped_count(whole.skip(i as int)) == skipped_count(whole),
        decreases entries.len() - i,
    {
        proof {
            let rest = whole.skip(i as int);
            assert(rest[0] == whole[i as int]);
            assert(rest.drop_first() =~= whole.skip(i + 1));
            lemma_skipped_bound(whole.skip(i + 1));
        }
        record_entry(&mut dirs, &mut files, &mut skipped, &entries[i], root);
        i = i + 1;
    }
    proof {
        assert(whole.skip(entries@.len() as int) =~= Seq::<(Seq<u8>, bool, Seq<u8>)>::empty());
        assert(dirs_model(dirs@) =~= planned_dirs(whole, root@));
        assert(files_model(files@) =~= planned_files(whole, root@));
    }
    ExtractReport { dirs, files, skipped }
}

#[verifier::external_type_specification]
#[verifier::external_body]
#[verifier::reject_recursive_types(T)]
pub struct ExCursor<T>(std::io::Cursor<T>);

#[verifier::external_type_specification]
#[verifier::external_body]
#[verifier::reject_recursive_types(R)]
pub struct ExZipArchive<R>(zip::read::ZipArchive<R>);

#[verifier::external_type_specification]
#[verifier::external_body]
pub struct ExZipError(zip::result::ZipError);

/// The entry table an archive value holds: for each entry, in archive
/// order, its stored name, its directory flag, and its decompressed bytes.
pub uninterp spec fn zip_contents(
    a: zip::read::ZipArchive<std::io::Cursor<Vec<u8>>>,
) -> Seq<(Seq<u8>, bool, Seq<u8>)>;

/// The entry table that parsing a byte string as a ZIP archive yields: a
/// function of the bytes alone.
pub uninterp spec fn parsed_entries(bytes: Seq<u8>) -> Seq<(Seq<u8>, bool, Seq<u8>)>;

/// Whether a byte string parses as a ZIP archive at all: a function of the
/// bytes alone.
pub uninterp spec fn zip_parses(bytes: Seq<u8>) -> bool;

/// Whether the entry at index `i` of an archive value can be read and
/// decompressed without error: a function of the archive value alone.
pub uninterp spec fn entry_ok(a: zip::read::ZipArchive<std::io::Cursor<Vec<u8>>>, i: int) -> bool;

/// Whether the entry at index `i` of the archive a byte string parses to
/// can be read and decompressed without error: a function of the bytes
/// alone.
pub uninterp spec fn parsed_entry_ok(bytes: Seq<u8>, i: int) -> bool;

/// Relies on zip::read::ZipArchive::new: reading the central directory of a
/// ZIP held in memory, and whether it succeeds, are functions of the bytes
/// alone, as is whether each entry of the archive it yields can later be
/// read back.
#[verifier::external_body]
fn open_archive_raw(bytes: Vec<u8>) -> (r: Result<
    zip::read::ZipArchive<std::io::Cursor<Vec<u8>>>,
    zip::result::ZipError,
>)
    ensures
        r is Ok <==> zip_parses(bytes@),
        r matches Ok(a) ==> zip_contents(a) == parsed_entries(bytes@),
        r matches Ok(a) ==> forall|i: int| #[trigger] entry_ok(a, i) <==> parsed_entry_ok(
            bytes@,
            i,
        ),
{
    zip::read::ZipArchive::new(std::io::Cursor::new(bytes))
}

/// Relies on zip::read::ZipArchive::len: the number of entries the
/// archive's entry table holds.
#[verifier::external_body]
fn archive_len(a: &zip::read::ZipArchive<std::io::Cursor<Vec<u8>>>) -> (n: usize)
    ensures
        n == zip_contents(*a).len(),
{
    a.len()
}

/// Relies on zip::read::ZipArchive::by_index for the entry at one index,
/// and on its ZipFile's name, is_dir and std::io::Read::read_to_end to
/// render that entry as plain values. Whether the read succeeds is a
/// function of the archive value alone; reading moves the underlying
/// cursor but leaves the archive's entry table, and the readability of
/// every entry, as they were.
#[verifier::external_body]
fn entry_at(a: &mut zip::read::ZipArchive<std::io::Cursor<Vec<u8>>>, i: usize) -> (r: Result<
    ArchiveEntry,
    zip::result::ZipError,
>)
    requires
        i < zip_contents(*old(a)).len(),
    ensures
        zip_contents(*final(a)) == zip_contents(*old(a)),
        forall|j: int| #[trigger] entry_ok(*final(a), j) <==> entry_ok(*old(a), j),
        r is Ok <==> entry_ok(*old(a), i as int),
        r matches Ok(e) ==> entry_model(e) == zip_contents(*old(a))[i as int],
{
    let mut f = a.by_index(i)?;
    let name: Vec<u8> = f.name().as_bytes().to_vec();
    let is_dir = f.is_dir();
    let mut data: Vec<u8> = Vec::new();
    std::io::Read::read_to_end(&mut f, &mut data)?;
    Ok(ArchiveEntry { name, is_dir, data })
}

/// Opens a ZIP archive held in memory for random-access reading of its
/// entry table. It succeeds exactly when the bytes parse as an archive; a
/// byte string that does not is malformed.
pub fn open_archive(bytes: Vec<u8>) -> (r: Result<
    zip::read::ZipArchive<std::io::Cursor<Vec<u8>>>,
    ArchiveError,
>)
    ensures
        r is Ok <==> zip_parses(bytes@),
        r matches Ok(a) ==> zip_contents(a) == parsed_entries(bytes@),
        r matches Ok(a) ==> forall|i: int| #[trigger] entry_ok(a, i) <==> parsed_entry_ok(
            bytes@,
            i,
        ),
        r matches Err(e) ==> e == ArchiveError::Malformed,
{
    match open_archive_raw(bytes) {
        Ok(a) => Ok(a),
        Err(_) => Err(ArchiveError::Malformed),
    }
}

/// Extracts every entry of an opened archive under `root`: directories are
/// created, file contents written, and entries that fail the traversal
/// check skipped. It succeeds exactly when every entry can be read; an
/// entry that cannot ends the run with `UnreadableEntry`. The archive's
/// entry table, and the readability of its entries, are never changed.
pub fn extract_archive(
    a: &mut zip::read::ZipArchive<std::io::Cursor<Vec<u8>>>,
    root: &Vec<u8>,
) -> (r: Result<ExtractReport, ArchiveError>)
    ensures
        zip_contents(*final(a)) == zip_contents(*old(a)),
        forall|j: int| #[trigger] entry_ok(*final(a), j) <==> entry_ok(*old(a), j),
        r is Ok <==> (forall|j: int| 0 <= j < zip_contents(*old(a)).len() ==> #[trigger]
            entry_ok(*old(a), j)),
        r matches Ok(rep) ==> report_matches(rep, zip_contents(*old(a)), root@),
        r matches Err(e) ==> e == ArchiveError::UnreadableEntry,
{
    let ghost whole = zip_contents(*a);
    let n = archive_len(a);
    let mut dirs: Vec<Vec<u8>> = Vec::new();
    let mut files: Vec<(Vec<u8>, Vec<u8>)> = Vec::new();
    let mut skipped: usize = 0;
    let mut i: usize = 0;
    proof {
        assert(whole.skip(0) =~= whole);
    }
    while i < n
        invariant
            whole == zip_contents(*old(a)),
            zip_contents(*a) == whole,
            forall|j: int| #[trigger] entry_ok(*a, j) <==> entry_ok(*old(a), j),
            forall|j: int| 0 <= j < i ==> #[trigger] entry_ok(*old(a), j),
            n == whole.len(),
            0 <= i <= n,
            skipped <= i,
            dirs_model(dirs@) + planned_dirs(whole.skip(i as int), root@)
                =~= planned_dirs(whole, root@),
            files_model(files@) + planned_files(whole.skip(i as int), root@)
                =~= planned_files(whole, root@),
            skipped + skipped_count(whole.skip(i as int)) == skipped_count(whole),
        decreases n - i,
    {
        proof {
            let rest = whole.skip(i as int);
            assert(rest[0] == whole[i as int]);
            assert(rest.drop_first() =~= whole.skip(i + 1));
        }
        let e = match entry_at(a, i) {
            Ok(e) => e,
            Err(_) => {
                assert(!entry_ok(*old(a), i as int));
                return Err(ArchiveError::UnreadableEntry);
            },
        };
        assert(entry_ok(*old(a), i as int));
        record_entry(&mut dirs, &mut files, &mut skipped, &e, root);
        i = i + 1;
    }
    proof {
        assert(whole.skip(n as int) =~= Seq::<(Seq<u8>, bool, Seq<u8>)>::empty());
        assert(dirs_model(dirs@) =~= planned_dirs(whole, root@));
        assert(files_model(files@) =~= planned_files(whole, root@));
    }
    Ok(ExtractReport { dirs, files, skipped })
}

/// Opens a byte string as a ZIP archive and extracts it under `root` in one
/// step. It succeeds exactly when the bytes parse as an archive and every
/// entry can be read, and what comes out is then exactly the extraction
/// plan of the entry table those bytes parse to; bytes that do not parse
/// are malformed, and a failing entry is unreadable.
pub fn extract_from_bytes(bytes: Vec<u8>, root: &Vec<u8>) -> (r: Result<
    ExtractReport,
    ArchiveError,
>)
    ensures
        r is Ok <==> (zip_parses(bytes@) && forall|j: int|
            0 <= j < parsed_entries(bytes@).len() ==> #[trigger] parsed_entry_ok(bytes@, j)),
        r matches Ok(rep) ==> report_matches(rep, parsed_entries(bytes@), root@),
        r == Err::<ExtractReport, ArchiveError>(ArchiveError::Malformed) <==> !zip_parses(
            bytes@,
        ),
        r matches Err(e) ==> (e == ArchiveError::Malformed || e == ArchiveError::UnreadableEntry),
{
    let mut a = match open_archive(bytes) {
        Ok(a) => a,
        Err(e) => {
            return Err(e);
        },
    };
    let ghost a0 = a;
    let r = extract_archive(&mut a, root);
    proof {
        let n = parsed_entries(bytes@).len() as int;
        if r is Ok {
            assert forall|j: int| 0 <= j < n implies #[trigger] parsed_entry_ok(bytes@, j) by {
                assert(entry_ok(a0, j));
            }
        } else {
            assert(!(forall|j: int| 0 <= j < n ==> #[trigger] entry_ok(a0, j)));
            let j = choose|j: int| 0 <= j < n && !(#[trigger] entry_ok(a0, j));
            assert(!parsed_entry_ok(bytes@, j));
        }
    }
    r
}

} // verus!
