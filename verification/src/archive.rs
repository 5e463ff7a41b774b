//! The package assembler: an in-memory archive writer and reader behind
//! narrow trusted wrappers over the zip crate, the archive-slip defense on
//! entry paths, and the package builder itself.
use vstd::prelude::*;
use std::io::{Read, Write};
use crate::model::starts_with;
use crate::text::{append_str, chars_to_string, contains_seq, matches_at, occurs_at, string_to_chars};

verus! {

broadcast use vstd::utf8::encode_utf8_valid_utf8;

/// One in-memory archive entry: a file to be placed at `path`.
#[derive(Debug, Clone)]
pub struct Resource {
    pub path: String,
    pub content: Vec<u8>,
}

/// A file to be streamed from disk into the archive at `zip_path`.
#[derive(Debug, Clone)]
pub struct StreamableResource {
    pub zip_path: String,
    pub file_path: String,
}

/// The fixed parts of a package plus its resources.
#[derive(Debug)]
pub struct PackageContent {
    pub manifest: String,
    pub html_content: String,
    pub resources: Vec<Resource>,
}

/// The named entries an archive writer has accepted so far, in order.
pub uninterp spec fn writer_entries(w: PackageWriter) -> Seq<(Seq<char>, Seq<u8>)>;

/// Whether a byte string parses as a well-formed archive.
pub uninterp spec fn zip_wf(bytes: Seq<u8>) -> bool;

/// The named entries a well-formed archive's bytes hold, in order.
pub uninterp spec fn zip_entries(bytes: Seq<u8>) -> Seq<(Seq<char>, Seq<u8>)>;

/// Whether reading entry `i` of a well-formed archive's bytes succeeds:
/// parsing its local header, decompressing its data and checking its
/// checksum; a deterministic function of the bytes.
pub uninterp spec fn zip_entry_ok(bytes: Seq<u8>, i: int) -> bool;

/// An entry the archive format accommodates without the large-file
/// options this writer does not set: its name's encoding fits the
/// format's name-length field and its data stays comfortably below the
/// plain format's size threshold, compression overhead included.
pub open spec fn entry_fits(name: Seq<char>, data: Seq<u8>) -> bool {
    &&& vstd::utf8::encode_utf8(name).len() <= 65535
    &&& data.len() < 0xF0000000
}

/// Every entry of the list fits the format.
pub open spec fn entries_fit(es: Seq<(Seq<char>, Seq<u8>)>) -> bool {
    forall|i: int| 0 <= i < es.len() ==> entry_fits(#[trigger] es[i].0, es[i].1)
}

/// No two entries of the list share a name.
pub open spec fn names_distinct(es: Seq<(Seq<char>, Seq<u8>)>) -> bool {
    forall|i: int, j: int| 0 <= i < j < es.len() ==> #[trigger] es[i].0 != #[trigger] es[j].0
}

/// An entry list the writer is sure to accept: every entry fits and the
/// names are pairwise distinct.
pub open spec fn entries_writable(es: Seq<(Seq<char>, Seq<u8>)>) -> bool {
    entries_fit(es) && names_distinct(es)
}

/// An in-memory archive being written.
#[verifier::external_body]
pub struct PackageWriter {
    inner: zip::ZipWriter<std::io::Cursor<Vec<u8>>>,
}

impl PackageWriter {
    /// Relies on zip::ZipWriter::new over an in-memory cursor: a fresh
    /// archive holds no entries.
    #[verifier::external_body]
    pub fn new() -> (r: PackageWriter)
        ensures
            writer_entries(r) == Seq::<(Seq<char>, Seq<u8>)>::empty(),
    {
        PackageWriter { inner: zip::ZipWriter::new(std::io::Cursor::new(Vec::new())) }
    }

    /// Relies on zip::ZipWriter::start_file and Write::write_all, with
    /// deflate compression, fixed permission bits and the writer's fixed
    /// default timestamp: on success, one entry named `name` holding `data`
    /// is appended. Writing to an in-memory cursor, the call succeeds
    /// whenever the new name is fresh and every entry involved fits the
    /// format: the crate fails such writes only on a duplicate name, a name
    /// over the name-length field, or data past the plain format's size
    /// threshold, surfaced here or at the next entry's deferred header
    /// update.
    #[verifier::external_body]
    pub fn add_entry(&mut self, name: &str, data: &[u8]) -> (r: Result<(), String>)
        ensures
            r is Ok ==> writer_entries(*final(self)) == writer_entries(*old(self)).push(
                (name@, data@),
            ),
            (entries_fit(writer_entries(*old(self))) && entry_fits(name@, data@) && (forall|i: int|
                0 <= i < writer_entries(*old(self)).len() ==> writer_entries(*old(self))[i].0
                    != name@)) ==> r is Ok,
    {
        let options = zip::write::SimpleFileOptions::DEFAULT.compression_method(
            zip::CompressionMethod::Deflated,
        ).unix_permissions(0o755);
        self.inner.start_file(name, options).map_err(|e| format!("Failed to add entry: {e}"))?;
        self.inner.write_all(data).map_err(|e| format!("Failed to write entry: {e}"))?;
        Ok(())
    }

    /// Relies on zip::ZipWriter::finish: the finished bytes form a
    /// well-formed archive holding exactly the entries written, in order,
    /// and every entry of it reads back. On an in-memory cursor the call
    /// succeeds whenever the written entries fit the format (the central
    /// directory and, when needed, the large-format footer are written
    /// unconditionally).
    #[verifier::external_body]
    pub fn finish(self) -> (r: Result<Vec<u8>, String>)
        ensures
            match r {
                Ok(b) => zip_wf(b@) && zip_entries(b@) == writer_entries(self) && (forall|i: int|
                    0 <= i < zip_entries(b@).len() ==> zip_entry_ok(b@, i)),
                Err(_) => true,
            },
            entries_fit(writer_entries(self)) ==> r is Ok,
    {
        match self.inner.finish() {
            Ok(cursor) => Ok(cursor.into_inner()),
            Err(e) => Err(format!("Failed to finish ZIP file: {e}")),
        }
    }
}

/// An archive opened for reading.
#[verifier::external_body]
pub struct PackageReader {
    inner: zip::ZipArchive<std::io::Cursor<Vec<u8>>>,
}

/// The named entries an open archive holds, in order.
pub uninterp spec fn reader_entries(r: PackageReader) -> Seq<(Seq<char>, Seq<u8>)>;

/// Whether reading entry `i` of an open archive succeeds.
pub uninterp spec fn reader_entry_ok(r: PackageReader, i: int) -> bool;

impl PackageReader {
    /// Relies on zip::ZipArchive::new: opening succeeds exactly on
    /// well-formed archive bytes and hands back their entries, each
    /// readable exactly when the bytes say so.
    #[verifier::external_body]
    pub fn open(bytes: &[u8]) -> (r: Result<PackageReader, String>)
        ensures
            match r {
                Ok(a) => zip_wf(bytes@) && reader_entries(a) == zip_entries(bytes@) && (forall|
                    i: int,
                | reader_entry_ok(a, i) == zip_entry_ok(bytes@, i)),
                Err(_) => !zip_wf(bytes@),
            },
    {
        match zip::ZipArchive::new(std::io::Cursor::new(bytes.to_vec())) {
            Ok(inner) => Ok(PackageReader { inner }),
            Err(e) => Err(format!("Failed to open ZIP archive: {e}")),
        }
    }

    /// Relies on zip::ZipArchive::len: the number of entries.
    #[verifier::external_body]
    pub fn len(&self) -> (n: usize)
        ensures
            n == reader_entries(*self).len(),
    {
        self.inner.len()
    }

    /// Relies on zip::ZipArchive::file_names (the decoded names, in entry
    /// order), by_index and Read::read_to_end: the name of the entry at
    /// `i`, and its bytes exactly when that entry reads back; the
    /// archive's entries are unchanged either way.
    #[verifier::external_body]
    pub fn entry_at(&mut self, i: usize) -> (r: (String, Option<Vec<u8>>))
        requires
            i < reader_entries(*old(self)).len(),
        ensures
            reader_entries(*final(self)) == reader_entries(*old(self)),
            forall|j: int| reader_entry_ok(*final(self), j) == reader_entry_ok(*old(self), j),
            r.0@ == reader_entries(*old(self))[i as int].0,
            match r.1 {
                Some(d) => reader_entry_ok(*old(self), i as int) && d@ == reader_entries(
                    *old(self),
                )[i as int].1,
                None => !reader_entry_ok(*old(self), i as int),
            },
    {
        let name = match self.inner.file_names().nth(i) {
            Some(n) => n.to_string(),
            None => String::new(),
        };
        let content = match self.inner.by_index(i) {
            Ok(mut file) => {
                let mut buf: Vec<u8> = Vec::new();
                match file.read_to_end(&mut buf) {
                    Ok(_) => Some(buf),
                    Err(_) => None,
                }
            },
            Err(_) => None,
        };
        (name, content)
    }
}

/// True iff `s` ends with `suffix`.
pub open spec fn ends_with(s: Seq<char>, suffix: Seq<char>) -> bool {
    occurs_at(s, suffix, s.len() - suffix.len())
}

/// Decides whether `s` ends with `suffix`.
pub fn ends_with_exec(s: &Vec<char>, suffix: &Vec<char>) -> (r: bool)
    ensures
        r == ends_with(s@, suffix@),
{
    if suffix.len() > s.len() {
        return false;
    }
    matches_at(s, suffix, s.len() - suffix.len())
}

/// An archive entry path is safe iff it is relative and climbs to no
/// parent directory: it does not start with `/`, is not `..`, and holds no
/// `..` path component.
pub open spec fn path_is_safe(p: Seq<char>) -> bool {
    &&& !starts_with(p, "/"@)
    &&& p != ".."@
    &&& !starts_with(p, "../"@)
    &&& !ends_with(p, "/.."@)
    &&& !contains_seq(p, "/../"@)
}

/// Decides whether an archive entry path is safe to write.
pub fn validate_entry_path(p: &str) -> (r: bool)
    ensures
        r == path_is_safe(p@),
{
    let cs = string_to_chars(p);
    let root = string_to_chars("/");
    let dotdot = string_to_chars("..");
    let updir = string_to_chars("../");
    let enddot = string_to_chars("/..");
    let middot = string_to_chars("/../");
    !crate::model::starts_with_exec(&cs, &root) && !crate::text::chars_eq(&cs, &dotdot)
        && !crate::model::starts_with_exec(&cs, &updir) && !ends_with_exec(&cs, &enddot)
        && !crate::text::contains_chars(&cs, &middot)
}

/// A package output path is acceptable iff its file name carries a `zip`
/// extension: it ends in `.zip` with a non-empty stem before it, so a
/// bare or hidden `.zip` name is refused.
pub open spec fn output_path_ok(p: Seq<char>) -> bool {
    &&& ends_with(p, ".zip"@)
    &&& p != ".zip"@
    &&& !ends_with(p, "/.zip"@)
}

/// Decides whether a package output path names a zip archive.
pub fn validate_package_output_path(p: &str) -> (r: bool)
    ensures
        r == output_path_ok(p@),
{
    let cs = string_to_chars(p);
    let suffix = string_to_chars(".zip");
    let bare = string_to_chars(".zip");
    let hidden = string_to_chars("/.zip");
    ends_with_exec(&cs, &suffix) && !crate::text::chars_eq(&cs, &bare) && !ends_with_exec(
        &cs,
        &hidden,
    )
}

/// The entries a package's content assembles to, in order: the manifest,
/// the index page, then every resource.
pub open spec fn package_entries(c: PackageContent) -> Seq<(Seq<char>, Seq<u8>)> {
    seq![
        ("imsmanifest.xml"@, vstd::utf8::encode_utf8(c.manifest@)),
        ("index.html"@, vstd::utf8::encode_utf8(c.html_content@)),
    ] + c.resources@.map_values(|r: Resource| (r.path@, r.content@))
}

/// The message given back for an unsafe resource path.
pub open spec fn invalid_path_message(p: Seq<char>) -> Seq<char> {
    "Invalid resource path: "@ + p
}

/// Assembles a package archive in memory. Every resource path is checked
/// against the archive-slip rule first: when some path is unsafe, the
/// first unsafe one is reported and nothing is assembled. On success the
/// archive holds exactly the manifest, the index page and the resources.
pub fn create_scorm_package(content: &PackageContent) -> (r: Result<Vec<u8>, String>)
    ensures
        match r {
            Ok(b) => {
                &&& forall|i: int|
                    0 <= i < content.resources@.len() ==> path_is_safe(
                        content.resources@[i].path@,
                    )
                &&& zip_wf(b@)
                &&& zip_entries(b@) == package_entries(*content)
            },
            Err(m) => true,
        },
        (exists|i: int|
            0 <= i < content.resources@.len() && !path_is_safe(content.resources@[i].path@))
            ==> (r matches Err(m) && {
            let bad = first_unsafe_index(content.resources@);
            m@ == invalid_path_message(content.resources@[bad].path@)
        }),
        ((forall|i: int|
            0 <= i < content.resources@.len() ==> path_is_safe(content.resources@[i].path@))
            && entries_writable(package_entries(*content))) ==> r is Ok,
{
    let mut i: usize = 0;
    while i < content.resources.len()
        invariant
            i <= content.resources@.len(),
            forall|j: int| 0 <= j < i ==> path_is_safe(content.resources@[j].path@),
        decreases content.resources@.len() - i,
    {
        if !validate_entry_path(content.resources[i].path.as_str()) {
            proof {
                lemma_first_unsafe_index(content.resources@, i as int);
            }
            let mut msg: Vec<char> = Vec::new();
            append_str(&mut msg, "Invalid resource path: ");
            append_str(&mut msg, content.resources[i].path.as_str());
            return Err(chars_to_string(&msg));
        }
        i = i + 1;
    }
    let mut writer = PackageWriter::new();
    let ghost pe = package_entries(*content);
    if let Err(e) = writer.add_entry("imsmanifest.xml", content.manifest.as_str().as_bytes()) {
        proof {
            if entries_writable(pe) {
                assert(pe[0] == ("imsmanifest.xml"@, vstd::utf8::encode_utf8(content.manifest@)));
                assert(entry_fits(pe[0].0, pe[0].1));
                assert(false);
            }
        }
        return Err(e);
    }
    if let Err(e) = writer.add_entry("index.html", content.html_content.as_str().as_bytes()) {
        proof {
            if entries_writable(pe) {
                assert(pe[1] == (
                    "index.html"@,
                    vstd::utf8::encode_utf8(content.html_content@),
                ));
                assert(entry_fits(pe[1].0, pe[1].1));
                assert(pe[0].0 != pe[1].0);
                assert(false);
            }
        }
        return Err(e);
    }
    proof {
        assert(writer_entries(writer) =~= pe.subrange(0, 2));
    }
    let mut k: usize = 0;
    while k < content.resources.len()
        invariant
            k <= content.resources@.len(),
            pe == package_entries(*content),
            forall|j: int|
                0 <= j < content.resources@.len() ==> path_is_safe(content.resources@[j].path@),
            writer_entries(writer) == pe.subrange(0, 2 + k as int),
        decreases content.resources@.len() - k,
    {
        if let Err(e) = writer.add_entry(
            content.resources[k].path.as_str(),
            content.resources[k].content.as_slice(),
        ) {
            proof {
                if entries_writable(pe) {
                    let at = 2 + k as int;
                    assert(pe[at] == (
                        content.resources@[k as int].path@,
                        content.resources@[k as int].content@,
                    ));
                    assert(entry_fits(pe[at].0, pe[at].1));
                    assert forall|j: int|
                        0 <= j < writer_entries(writer).len() implies writer_entries(writer)[j].0
                        != content.resources@[k as int].path@ by {
                        assert(writer_entries(writer)[j] == pe[j]);
                        assert(pe[j].0 != pe[at].0);
                    }
                    assert(false);
                }
            }
            return Err(e);
        }
        proof {
            assert(writer_entries(writer) =~= pe.subrange(0, 2 + (k + 1) as int));
        }
        k = k + 1;
    }
    proof {
        assert(pe.subrange(0, 2 + content.resources@.len() as int) =~= pe);
    }
    let ghost final_entries = writer_entries(writer);
    let result = writer.finish();
    proof {
        if entries_writable(pe) {
            assert(entries_fit(final_entries));
        }
    }
    result
}

/// The least index of a resource whose path is unsafe.
pub open spec fn first_unsafe_index(rs: Seq<Resource>) -> int {
    choose|i: int|
        0 <= i < rs.len() && !path_is_safe(rs[i].path@) && (forall|j: int|
            0 <= j < i ==> path_is_safe(rs[j].path@))
}

/// A witness that the scan's first failing index is `first_unsafe_index`.
proof fn lemma_first_unsafe_index(rs: Seq<Resource>, i: int)
    requires
        0 <= i < rs.len(),
        !path_is_safe(rs[i].path@),
        forall|j: int| 0 <= j < i ==> path_is_safe(rs[j].path@),
    ensures
        first_unsafe_index(rs) == i,
{
    assert(0 <= i < rs.len() && !path_is_safe(rs[i].path@) && (forall|j: int|
        0 <= j < i ==> path_is_safe(rs[j].path@)));
    let c = first_unsafe_index(rs);
    if c < i {
        assert(path_is_safe(rs[c].path@));
    } else if i < c {
        assert(path_is_safe(rs[i].path@));
    }
}

} // verus!
