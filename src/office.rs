//! Rewriting the two property parts of a zip-packaged office document while
//! every other entry is carried over as it was.
use std::io::Cursor;
use std::io::Write;
use vstd::prelude::*;
use vstd::string::*;
use vstd::utf8::valid_utf8;
use zip::result::ZipError;
use zip::write::SimpleFileOptions;
use zip::{CompressionMethod, ZipArchive, ZipWriter};

use crate::error::CleanerError;
use crate::text::{joined, same_text};
use crate::xml::{app_element_names, blank_all, clean_app_xml, clean_core_xml, core_element_names};

verus! {

/// `std::io::Cursor`, carried opaque: the in-memory reader under an archive.
#[verifier::external_type_specification]
#[verifier::external_body]
#[verifier::reject_recursive_types(T)]
pub struct ExCursor<T>(Cursor<T>);

/// `zip::ZipArchive`, carried opaque; its entries are `archive_entries`.
#[verifier::external_type_specification]
#[verifier::external_body]
#[verifier::reject_recursive_types(R)]
pub struct ExZipArchive<R>(ZipArchive<R>);


/// `zip::result::ZipError`, carried opaque and turned into a `CleanerError`.
#[verifier::external_type_specification]
#[verifier::external_body]
pub struct ExZipError(ZipError);

/// `zip::CompressionMethod`, carried opaque from an entry read to the same
/// entry written.
#[verifier::external_type_specification]
#[verifier::external_body]
pub struct ExCompressionMethod(CompressionMethod);

/// An archive held in memory.
pub type MemArchive = ZipArchive<Cursor<Vec<u8>>>;

/// A `zip::ZipWriter` writing an archive to memory; its entries so far are
/// `written_entries`. The writer's `Write + Seek` bounds cannot be written in
/// a type declaration, so the writer sits in a hidden field.
#[verifier::external_body]
pub struct MemWriter {
    inner: ZipWriter<Cursor<Vec<u8>>>,
}

/// An entry as a value: its name, its uncompressed bytes and how it is stored.
pub type EntryView = (Seq<char>, Seq<u8>, CompressionMethod);

/// One archive entry: its name, its uncompressed bytes and how it is stored.
pub struct ArchiveEntry {
    pub name: String,
    pub data: Vec<u8>,
    pub method: CompressionMethod,
}

impl ArchiveEntry {
    pub open spec fn view(&self) -> EntryView {
        (self.name@, self.data@, self.method)
    }
}

/// Whether `bytes` open as an archive (its central directory can be read).
pub uninterp spec fn zip_opens(bytes: Seq<u8>) -> bool;

/// The entries of the archive that `bytes` encode, in the order of its
/// central directory; `None` for an entry that cannot be read out.
pub uninterp spec fn zip_contents(bytes: Seq<u8>) -> Seq<Option<EntryView>>;

/// The entries of an opened archive; `None` for one that cannot be read out.
pub uninterp spec fn archive_entries(a: MemArchive) -> Seq<Option<EntryView>>;

/// The entries written so far to an archive under construction.
pub uninterp spec fn written_entries(w: MemWriter) -> Seq<EntryView>;

/// Whether a writer that holds `written` takes `e` as its next entry.
pub uninterp spec fn zip_accepts(written: Seq<EntryView>, e: EntryView) -> bool;

/// Whether a writer that holds `entries` can write its central directory.
pub uninterp spec fn zip_finishes(entries: Seq<EntryView>) -> bool;

/// The bytes of a finished archive holding `entries`.
pub uninterp spec fn zip_packed(entries: Seq<EntryView>) -> Seq<u8>;

/// The longest entry name, in characters, that is written: its UTF-8 form
/// must fit the 16-bit name length of a zip header.
pub const MAX_ENTRY_NAME_CHARS: usize = 16383;

/// Relies on `zip::ZipArchive::new`: reads the central directory of the
/// archive in `bytes`.
#[verifier::external_body]
fn open_archive(bytes: Vec<u8>) -> (r: Result<MemArchive, ZipError>)
    ensures
        r is Ok <==> zip_opens(bytes@),
        r matches Ok(a) ==> archive_entries(a) == zip_contents(bytes@),
{
    ZipArchive::new(Cursor::new(bytes))
}

/// Relies on `zip::ZipArchive::len`: the number of entries.
#[verifier::external_body]
fn archive_len(a: &MemArchive) -> (r: usize)
    ensures
        r == archive_entries(*a).len(),
{
    a.len()
}

/// Relies on `zip::ZipArchive::by_index`: entry `i`, read out whole, with its
/// name and compression method. Fails for an index past the end.
#[verifier::external_body]
fn read_entry(a: &mut MemArchive, i: usize) -> (r: Result<ArchiveEntry, ZipError>)
    ensures
        archive_entries(*final(a)) == archive_entries(*old(a)),
        r is Ok <==> (i < archive_entries(*old(a)).len() && archive_entries(
            *old(a),
        )[i as int] is Some),
        r matches Ok(e) ==> archive_entries(*old(a))[i as int] == Some(e.view()),
{
    let mut file = a.by_index(i)?;
    let mut data: Vec<u8> = Vec::new();
    std::io::Read::read_to_end(&mut file, &mut data)?;
    Ok(ArchiveEntry { name: file.name().to_string(), data, method: file.compression() })
}

/// Relies on `zip::ZipWriter::new`: an empty archive in memory.
#[verifier::external_body]
fn new_writer() -> (r: MemWriter)
    ensures
        written_entries(r) == Seq::<EntryView>::empty(),
{
    MemWriter { inner: ZipWriter::new(Cursor::new(Vec::new())) }
}

/// Relies on `zip::ZipWriter::start_file`: adds an entry with the given name,
/// bytes and compression method. A name's UTF-8 length must fit in 16 bits,
/// else the header write panics.
#[verifier::external_body]
fn write_entry(w: &mut MemWriter, e: &ArchiveEntry) -> (r: Result<(), ZipError>)
    requires
        e.name@.len() <= MAX_ENTRY_NAME_CHARS,
    ensures
        r is Ok <==> zip_accepts(written_entries(*old(w)), e.view()),
        r is Ok ==> written_entries(*final(w)) == written_entries(*old(w)).push(e.view()),
{
    let options = SimpleFileOptions::default().compression_method(e.method);
    w.inner.start_file(e.name.as_str(), options)?;
    w.inner.write_all(&e.data)?;
    Ok(())
}

/// Relies on `zip::ZipWriter::finish`: writes the central directory and hands
/// back the archive's bytes, which read back as the entries written.
#[verifier::external_body]
fn finish_writer(w: MemWriter) -> (r: Result<Vec<u8>, ZipError>)
    ensures
        r is Ok <==> zip_finishes(written_entries(w)),
        r matches Ok(b) ==> b@ == zip_packed(written_entries(w)),
        r matches Ok(b) ==> zip_opens(b@) && zip_contents(b@) == written_entries(w).map_values(
            |e: EntryView| Some(e),
        ),
{
    Ok(w.inner.finish()?.into_inner())
}

/// Relies on `zip::result::ZipError`'s `Display`: the error's text.
#[verifier::external_body]
fn zip_error_text(e: &ZipError) -> (r: String) {
    e.to_string()
}

/// Relies on `std::str::from_utf8`: whether `b` is valid UTF-8.
#[verifier::external_body]
fn is_utf8(b: &[u8]) -> (r: bool)
    ensures
        r == valid_utf8(b@),
{
    std::str::from_utf8(b).is_ok()
}

/// Name of the document-summary part.
pub open spec fn core_part() -> Seq<char> {
    "docProps/core.xml"@
}

/// Name of the application part.
pub open spec fn app_part() -> Seq<char> {
    "docProps/app.xml"@
}

/// An entry after scrubbing: the two property parts blanked, any other entry
/// as it was.
pub open spec fn scrub_entry(e: (Seq<char>, Seq<u8>, CompressionMethod)) -> (
    Seq<char>,
    Seq<u8>,
    CompressionMethod,
) {
    if e.0 == core_part() {
        (e.0, blank_all(e.1, core_element_names()), e.2)
    } else if e.0 == app_part() {
        (e.0, blank_all(e.1, app_element_names()), e.2)
    } else {
        e
    }
}

/// Whether an entry is a property part.
pub open spec fn is_property_part(name: Seq<char>) -> bool {
    name == core_part() || name == app_part()
}

/// `entries` with every entry scrubbed.
pub open spec fn scrub_entries(entries: Seq<(Seq<char>, Seq<u8>, CompressionMethod)>) -> Seq<
    (Seq<char>, Seq<u8>, CompressionMethod),
> {
    entries.map_values(|e: (Seq<char>, Seq<u8>, CompressionMethod)| scrub_entry(e))
}

/// The property parts among `entries` are text.
pub open spec fn property_parts_are_text(
    entries: Seq<(Seq<char>, Seq<u8>, CompressionMethod)>,
) -> bool {
    forall|k: int|
        0 <= k < entries.len() && is_property_part(#[trigger] entries[k].0) ==> valid_utf8(
            entries[k].1,
        )
}

/// The error for a failed step of the archive rewrite of `path`.
fn archive_failure(path: &str, what: &str, e: &ZipError) -> (r: CleanerError)
    ensures
        r matches CleanerError::CleaningFailed { path: p, .. } && p@ == path@,
{
    let text = zip_error_text(e);
    let reason = joined(what, text.as_str());
    CleanerError::cleaning_failed(String::from_str(path), reason)
}

/// The entry scrubbed, or `None` when it is a property part that is not text.
pub fn scrub_archive_entry(e: ArchiveEntry) -> (r: Option<ArchiveEntry>)
    ensures
        is_property_part(e.view().0) && !valid_utf8(e.view().1) ==> r is None,
        !(is_property_part(e.view().0) && !valid_utf8(e.view().1)) ==> (r matches Some(s)
            && s.view() == scrub_entry(e.view())),
{
    let is_core = same_text(e.name.as_str(), "docProps/core.xml");
    let is_app = same_text(e.name.as_str(), "docProps/app.xml");
    proof {
        reveal_strlit("docProps/core.xml");
        reveal_strlit("docProps/app.xml");
    }
    if is_core || is_app {
        if !is_utf8(e.data.as_slice()) {
            return None;
        }
        let data = if is_core {
            clean_core_xml(e.data)
        } else {
            clean_app_xml(e.data)
        };
        Some(ArchiveEntry { name: e.name, data, method: e.method })
    } else {
        Some(e)
    }
}

/// The entries of `contents`, each read out.
pub open spec fn read_out(contents: Seq<Option<EntryView>>) -> Seq<EntryView> {
    contents.map_values(|o: Option<EntryView>| o->0)
}

/// Every entry of `contents` can be read out.
pub open spec fn all_readable(contents: Seq<Option<EntryView>>) -> bool {
    forall|k: int| 0 <= k < contents.len() ==> (#[trigger] contents[k]) is Some
}

/// Every entry name is short enough to be written.
pub open spec fn names_fit(entries: Seq<EntryView>) -> bool {
    forall|k: int| 0 <= k < entries.len() ==> (#[trigger] entries[k]).0.len() <= MAX_ENTRY_NAME_CHARS
}

/// A fresh writer takes `entries` one after the other and then finishes.
pub open spec fn zip_packs(entries: Seq<EntryView>) -> bool {
    &&& forall|k: int|
        0 <= k < entries.len() ==> zip_accepts(entries.subrange(0, k), #[trigger] entries[k])
    &&& zip_finishes(entries)
}

/// The rewrite of the archive in `bytes` goes through: it opens, every entry
/// reads out, every name can be written, the property parts are text, and the
/// scrubbed entries can be written and finished.
pub open spec fn rewrite_succeeds(bytes: Seq<u8>) -> bool {
    let entries = read_out(zip_contents(bytes));
    &&& zip_opens(bytes)
    &&& all_readable(zip_contents(bytes))
    &&& names_fit(entries)
    &&& property_parts_are_text(entries)
    &&& zip_packs(scrub_entries(entries))
}

/// Rewrites the archive in `bytes` with its property parts blanked.
/// `Ok(None)` exactly when the bytes are not an archive. `Ok(Some(out))`
/// exactly when the rewrite goes through; `out` then holds the scrubbed
/// entries in their order, names and compression methods kept. Otherwise an
/// error that names `path`.
pub fn scrub_office_archive(path: &str, bytes: Vec<u8>) -> (r: Result<Option<Vec<u8>>, CleanerError>)
    ensures
        r matches Ok(None) <==> !zip_opens(bytes@),
        r matches Ok(Some(_)) <==> rewrite_succeeds(bytes@),
        r matches Ok(Some(out)) ==> out@ == zip_packed(
            scrub_entries(read_out(zip_contents(bytes@))),
        ),
        r matches Ok(Some(out)) ==> zip_opens(out@) && zip_contents(out@) == scrub_entries(
            read_out(zip_contents(bytes@)),
        ).map_values(|e: EntryView| Some(e)),
        r matches Err(e) ==> (e matches CleanerError::CleaningFailed { path: p, .. } && p@
            == path@),
{
    let ghost contents = zip_contents(bytes@);
    let ghost entries = read_out(contents);
    let ghost target = scrub_entries(entries);
    let mut archive = match open_archive(bytes) {
        Ok(a) => a,
        Err(_) => {
            return Ok(None);
        },
    };
    let n = archive_len(&archive);
    let mut writer = new_writer();
    let mut i: usize = 0;
    while i < n
        invariant
            i <= n,
            n == contents.len(),
            entries == read_out(contents),
            target == scrub_entries(entries),
            zip_opens(bytes@),
            contents == zip_contents(bytes@),
            archive_entries(archive) == contents,
            written_entries(writer) == target.subrange(0, i as int),
            forall|k: int| 0 <= k < i ==> (#[trigger] contents[k]) is Some,
            forall|k: int| 0 <= k < i ==> (#[trigger] entries[k]).0.len() <= MAX_ENTRY_NAME_CHARS,
            property_parts_are_text(entries.subrange(0, i as int)),
            forall|k: int|
                0 <= k < i ==> zip_accepts(target.subrange(0, k), #[trigger] target[k]),
        decreases n - i,
    {
        let entry = match read_entry(&mut archive, i) {
            Ok(e) => e,
            Err(e) => {
                assert(!all_readable(contents));
                return Err(archive_failure(path, "Failed to read archive entry: ", &e));
            },
        };
        assert(entries[i as int] == entry.view());
        if entry.name.unicode_len() > MAX_ENTRY_NAME_CHARS {
            assert(!names_fit(entries));
            return Err(
                CleanerError::cleaning_failed(
                    String::from_str(path),
                    String::from_str("Failed to read archive entry: name too long"),
                ),
            );
        }
        let scrubbed = match scrub_archive_entry(entry) {
            Some(s) => s,
            None => {
                assert(!property_parts_are_text(entries));
                return Err(
                    CleanerError::cleaning_failed(
                        String::from_str(path),
                        String::from_str("Failed to read property part: not valid UTF-8"),
                    ),
                );
            },
        };
        assert(target[i as int] == scrubbed.view());
        match write_entry(&mut writer, &scrubbed) {
            Ok(()) => {},
            Err(e) => {
                assert(!zip_packs(target));
                return Err(archive_failure(path, "Failed to write to archive: ", &e));
            },
        }
        assert(target.subrange(0, i + 1) =~= target.subrange(0, i as int).push(target[i as int]));
        assert forall|k: int|
            0 <= k < i + 1 && is_property_part(
                #[trigger] entries.subrange(0, i + 1)[k].0,
            ) implies valid_utf8(entries.subrange(0, i + 1)[k].1) by {
            if k < i {
                assert(entries.subrange(0, i + 1)[k] == entries.subrange(0, i as int)[k]);
            }
        }
        i = i + 1;
    }
    assert(entries.subrange(0, i as int) =~= entries);
    assert(target.subrange(0, i as int) =~= target);
    match finish_writer(writer) {
        Ok(out) => {
            assert(all_readable(contents));
            assert(names_fit(entries));
            assert(zip_packs(target));
            Ok(Some(out))
        },
        Err(e) => Err(archive_failure(path, "Failed to finalize archive: ", &e)),
    }
}

/// The extension of the last component of a path, when it has one.
pub uninterp spec fn extension_of(path: Seq<char>) -> Option<Seq<char>>;

/// The lower-case form of a text.
pub uninterp spec fn lower_of(s: Seq<char>) -> Seq<char>;

/// Relies on `std::path::Path::extension`: the extension of the file name,
/// when it has one and it is valid Unicode.
#[verifier::external_body]
fn path_extension(path: &str) -> (r: Option<String>)
    ensures
        r matches Some(e) ==> extension_of(path@) == Some(e@),
        r is None ==> extension_of(path@) is None,
{
    std::path::Path::new(path).extension().and_then(|e| e.to_str()).map(|e| e.to_string())
}

/// Relies on `str::to_lowercase`: the lower-case form depends on the text alone.
#[verifier::external_body]
fn lowercase(s: &str) -> (r: String)
    ensures
        r@ == lower_of(s@),
{
    s.to_lowercase()
}

/// Extensions of zip-packaged office documents.
pub open spec fn office_extensions() -> Seq<Seq<char>> {
    seq!["docx"@, "xlsx"@, "pptx"@, "docm"@, "xlsm"@, "pptm"@, "dotx"@, "xltx"@, "potx"@]
}

/// A path names an office document when its extension, in lower case, is one
/// of the office extensions.
pub open spec fn is_office_path(path: Seq<char>) -> bool {
    extension_of(path) matches Some(e) && office_extensions().contains(lower_of(e))
}

/// Whether `ext` (already in lower case) is an office document's extension.
pub fn is_office_extension(ext: &str) -> (r: bool)
    ensures
        r == office_extensions().contains(ext@),
{
    let known: Vec<&str> = vec!["docx", "xlsx", "pptx", "docm", "xlsm", "pptm", "dotx", "xltx", "potx"];
    assert(known@.map_values(|s: &str| s@) =~= office_extensions());
    let mut i: usize = 0;
    while i < known.len()
        invariant
            i <= known@.len(),
            known@.map_values(|s: &str| s@) == office_extensions(),
            forall|k: int| 0 <= k < i ==> office_extensions()[k] != ext@,
        decreases known@.len() - i,
    {
        if same_text(known[i], ext) {
            assert(office_extensions()[i as int] == ext@);
            return true;
        }
        i = i + 1;
    }
    assert(!office_extensions().contains(ext@));
    false
}

/// Whether `path` names an office document, by its extension.
pub fn is_office_document(path: &str) -> (r: bool)
    ensures
        r == is_office_path(path@),
{
    match path_extension(path) {
        Some(ext) => {
            let lower = lowercase(ext.as_str());
            is_office_extension(lower.as_str())
        },
        None => false,
    }
}

/// Blanks the document properties of the office document at `path`, whose
/// bytes are `bytes`. `Ok(None)`: not an office document by extension, or not
/// an archive; nothing is to be written. `Ok(Some(out))`: `out` is the
/// document to put in place of the one on disk.
pub fn clear_office_xml_properties(path: &str, bytes: Vec<u8>) -> (r: Result<
    Option<Vec<u8>>,
    CleanerError,
>)
    ensures
        r matches Ok(None) <==> (!is_office_path(path@) || !zip_opens(bytes@)),
        r matches Ok(Some(_)) <==> (is_office_path(path@) && rewrite_succeeds(bytes@)),
        r matches Ok(Some(out)) ==> out@ == zip_packed(
            scrub_entries(read_out(zip_contents(bytes@))),
        ),
        r matches Ok(Some(out)) ==> zip_opens(out@) && zip_contents(out@) == scrub_entries(
            read_out(zip_contents(bytes@)),
        ).map_values(|e: EntryView| Some(e)),
        r matches Err(e) ==> (e matches CleanerError::CleaningFailed { path: p, .. } && p@
            == path@),
{
    if !is_office_document(path) {
        return Ok(None);
    }
    scrub_office_archive(path, bytes)
}

} // verus!
