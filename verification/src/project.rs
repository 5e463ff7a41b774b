//! Project bookkeeping helpers and the plain data shapes shared with the
//! surrounding application: project-id extraction from file names, media
//! path layout, and the records the storage layer reads and writes.
use vstd::prelude::*;
use crate::text::{append_chars, append_str, chars_to_string, contains_chars, contains_seq, string_to_chars};

verus! {

/// Stored API keys for the external search services.
#[derive(Debug, Clone)]
pub struct ApiKeys {
    pub google_image_api_key: String,
    pub google_cse_id: String,
    pub youtube_api_key: String,
}

/// Whether a backup exists for a project, and where.
#[derive(Debug, Clone)]
pub struct RecoveryInfo {
    pub has_recovery: bool,
    pub backup_timestamp: Option<String>,
    pub backup_path: Option<String>,
}

/// The outcome of clearing old backups.
#[derive(Debug, Clone)]
pub struct CleanupResult {
    pub deleted_count: usize,
    pub kept_count: usize,
}

/// A named file carried over the application boundary.
#[derive(Debug, Clone)]
pub struct MediaFile {
    pub filename: String,
    pub content: Vec<u8>,
}

/// A manifest-generation request from the application shell.
#[derive(Debug, Clone)]
pub struct GenerateManifestRequest {
    pub course_title: String,
    pub course_identifier: String,
    pub course_description: Option<String>,
    pub course_version: String,
    pub scorm_version: String,
}

/// A package-creation request from the application shell.
#[derive(Debug)]
pub struct CreatePackageRequest {
    pub manifest_xml: String,
    pub html_content: String,
    pub resources: Vec<crate::archive::Resource>,
    pub output_path: String,
}

/// A downloaded image handed back to the application shell.
#[derive(Debug, Clone)]
pub struct DownloadImageResponse {
    pub base64_data: String,
    pub content_type: String,
}

/// The outcome of migrating browser-stored data to files.
#[derive(Debug, Clone)]
pub struct MigrationResult {
    pub migrated_items: usize,
    pub success: bool,
    pub errors: Vec<String>,
}

/// Descriptive fields stored beside a media blob.
#[derive(Debug, Clone)]
pub struct MediaMetadata {
    pub page_id: String,
    pub media_type: String,
    pub original_name: String,
    pub mime_type: Option<String>,
    pub source: Option<String>,
    pub embed_url: Option<String>,
    pub title: Option<String>,
    pub clip_start: Option<u32>,
    pub clip_end: Option<u32>,
}

/// A media item's metadata together with its stored size.
#[derive(Debug, Clone)]
pub struct MediaMetadataInfo {
    pub id: String,
    pub metadata: MediaMetadata,
    pub size: u64,
}

/// The outcome of exporting a project as an archive.
#[derive(Debug, Clone)]
pub struct ZipExportResult {
    pub zip_data: Vec<u8>,
    pub file_count: usize,
    pub total_size: usize,
}

/// The course-seed fields of a stored project.
#[derive(Debug, Clone)]
pub struct CourseData {
    pub title: String,
    pub difficulty: u8,
    pub template: String,
    pub topics: Vec<String>,
    pub custom_topics: Option<String>,
}

/// The stored packaging settings of a project.
#[derive(Debug, Clone)]
pub struct ScormConfig {
    pub version: String,
    pub completion_criteria: String,
    pub passing_score: u8,
}

/// Application-wide settings.
#[derive(Debug, Clone)]
pub struct AppSettings {
    pub projects_directory: Option<String>,
    pub recent_projects_count: Option<usize>,
}

impl Default for AppSettings {
    /// No custom directory, and the customary ten recent projects.
    fn default() -> (r: Self)
        ensures
            r.projects_directory is None,
            r.recent_projects_count == Some(10usize),
    {
        AppSettings { projects_directory: None, recent_projects_count: Some(10) }
    }
}

/// The index of the last occurrence of `c` in `s`, if any.
pub open spec fn rfind_char(s: Seq<char>, c: char) -> Option<int>
    decreases s.len(),
{
    if s.len() == 0 {
        None
    } else if s.last() == c {
        Some(s.len() - 1)
    } else {
        rfind_char(s.drop_last(), c)
    }
}

/// The index of the first occurrence of `c` in `s` at or after `at`.
pub open spec fn ffind_char(s: Seq<char>, c: char, at: int) -> Option<int>
    decreases s.len() - at when 0 <= at
{
    if at >= s.len() {
        None
    } else if s[at] == c {
        Some(at)
    } else {
        ffind_char(s, c, at + 1)
    }
}

/// Finds the last occurrence of `c`.
pub fn rfind_char_exec(s: &Vec<char>, c: char) -> (r: Option<usize>)
    ensures
        match r {
            Some(i) => i < s@.len() && rfind_char(s@, c) == Some(i as int),
            None => rfind_char(s@, c) is None,
        },
{
    let mut i: usize = s.len();
    proof {
        assert(s@.subrange(0, s@.len() as int) =~= s@);
    }
    while i > 0
        invariant
            i <= s@.len(),
            rfind_char(s@, c) == rfind_char(s@.subrange(0, i as int), c),
        decreases i,
    {
        i = i - 1;
        if s[i] == c {
            proof {
                assert(s@.subrange(0, i + 1 as int).last() == s@[i as int]);
                assert(rfind_char(s@.subrange(0, i + 1 as int), c) == Some(i as int));
            }
            return Some(i);
        }
        proof {
            assert(s@.subrange(0, i + 1 as int).last() == s@[i as int]);
            assert(s@.subrange(0, i + 1 as int).drop_last() =~= s@.subrange(0, i as int));
        }
    }
    proof {
        assert(s@.subrange(0, 0) =~= Seq::<char>::empty());
    }
    None
}

/// Finds the first occurrence of `c` at or after `at`.
pub fn ffind_char_exec(s: &Vec<char>, c: char, at: usize) -> (r: Option<usize>)
    ensures
        match r {
            Some(i) => at <= i < s@.len() && ffind_char(s@, c, at as int) == Some(i as int),
            None => ffind_char(s@, c, at as int) is None,
        },
{
    let mut i: usize = at;
    while i < s.len()
        invariant
            at <= i,
            ffind_char(s@, c, at as int) == ffind_char(s@, c, i as int),
        decreases s@.len() - i,
    {
        if s[i] == c {
            return Some(i);
        }
        i = i + 1;
    }
    None
}

/// True iff every character is a decimal digit.
pub open spec fn all_digits(s: Seq<char>) -> bool {
    forall|i: int| 0 <= i < s.len() ==> '0' <= #[trigger] s[i] <= '9'
}

/// Decides whether every character is a decimal digit.
pub fn all_digits_exec(s: &Vec<char>) -> (r: bool)
    ensures
        r == all_digits(s@),
{
    let mut i: usize = 0;
    while i < s.len()
        invariant
            i <= s@.len(),
            forall|j: int| 0 <= j < i ==> '0' <= #[trigger] s@[j] <= '9',
        decreases s@.len() - i,
    {
        if !('0' <= s[i] && s[i] <= '9') {
            return false;
        }
        i = i + 1;
    }
    true
}

/// The file-name part of a path: everything after the last separator.
pub open spec fn file_name_of(s: Seq<char>) -> Seq<char> {
    match rfind_char(s, '/') {
        Some(i) => s.subrange(i + 1, s.len() as int),
        None => s,
    }
}

/// The project id named by a path or bare id: for a project file name of
/// the shape `Name_digits.scormproj` the digits between the last
/// underscore and the last dot; else, for a name whose stem before the
/// first dot is all digits, that stem; anything else passes through.
pub open spec fn extracted_project_id(s: Seq<char>) -> Seq<char> {
    if contains_seq(s, ".scormproj"@) {
        let f = file_name_of(s);
        let by_underscore: Option<Seq<char>> = match (rfind_char(f, '_'), rfind_char(f, '.')) {
            (Some(u), Some(d)) => if u < d && all_digits(f.subrange(u + 1, d)) {
                Some(f.subrange(u + 1, d))
            } else {
                None
            },
            _ => None,
        };
        match by_underscore {
            Some(id) => id,
            None => match ffind_char(f, '.', 0) {
                Some(d) => if all_digits(f.subrange(0, d)) {
                    f.subrange(0, d)
                } else {
                    s
                },
                None => s,
            },
        }
    } else {
        s
    }
}

/// Extracts the project id from a path or bare id.
pub fn extract_project_id(project_id_or_path: &str) -> (r: String)
    ensures
        r@ == extracted_project_id(project_id_or_path@),
{
    let s = string_to_chars(project_id_or_path);
    let total = s.len();
    let marker = string_to_chars(".scormproj");
    if !contains_chars(&s, &marker) {
        return chars_to_string(&s);
    }
    let f: Vec<char> = match rfind_char_exec(&s, '/') {
        Some(i) => {
            let mut tail: Vec<char> = Vec::new();
            let mut k: usize = i + 1;
            while k < s.len()
                invariant
                    i + 1 <= k <= s@.len(),
                    tail@ == s@.subrange(i + 1 as int, k as int),
                decreases s@.len() - k,
            {
                tail.push(s[k]);
                proof {
                    assert(tail@ =~= s@.subrange(i + 1 as int, k + 1 as int));
                }
                k = k + 1;
            }
            tail
        },
        None => {
            let mut whole: Vec<char> = Vec::new();
            crate::text::append_chars(&mut whole, &s);
            proof {
                assert(whole@ =~= s@);
            }
            whole
        },
    };
    proof {
        assert(f@ == file_name_of(project_id_or_path@));
    }
    let under = rfind_char_exec(&f, '_');
    let dot = rfind_char_exec(&f, '.');
    match (under, dot) {
        (Some(u), Some(d)) => {
            if u < d {
                let mut mid: Vec<char> = Vec::new();
                let mut k: usize = u + 1;
                while k < d
                    invariant
                        u + 1 <= k <= d,
                        d < f@.len(),
                        mid@ == f@.subrange(u + 1 as int, k as int),
                    decreases d - k,
                {
                    mid.push(f[k]);
                    proof {
                        assert(mid@ =~= f@.subrange(u + 1 as int, k + 1 as int));
                    }
                    k = k + 1;
                }
                if all_digits_exec(&mid) {
                    return chars_to_string(&mid);
                }
            }
            extract_fallback(&s, &f)
        },
        _ => extract_fallback(&s, &f),
    }
}

/// The fallback extraction: the all-digit stem before the first dot, or
/// the whole input.
fn extract_fallback(s: &Vec<char>, f: &Vec<char>) -> (r: String)
    requires
        f@ == file_name_of(s@),
        contains_seq(s@, ".scormproj"@),
    ensures
        r@ == (match ffind_char(f@, '.', 0) {
            Some(d) => if all_digits(f@.subrange(0, d)) {
                f@.subrange(0, d)
            } else {
                s@
            },
            None => s@,
        }),
{
    match ffind_char_exec(f, '.', 0) {
        Some(d) => {
            let mut stem: Vec<char> = Vec::new();
            let mut k: usize = 0;
            while k < d
                invariant
                    k <= d,
                    d < f@.len(),
                    stem@ == f@.subrange(0, k as int),
                decreases d - k,
            {
                stem.push(f[k]);
                proof {
                    assert(stem@ =~= f@.subrange(0, k + 1 as int));
                }
                k = k + 1;
            }
            if all_digits_exec(&stem) {
                chars_to_string(&stem)
            } else {
                chars_to_string(s)
            }
        },
        None => chars_to_string(s),
    }
}

/// The relative path a media blob is stored at.
pub open spec fn media_path_spec(project_id: Seq<char>, media_id: Seq<char>) -> Seq<char> {
    project_id + "/media/"@ + media_id + ".bin"@
}

/// The relative path a media item's metadata is stored at.
pub open spec fn metadata_path_spec(project_id: Seq<char>, media_id: Seq<char>) -> Seq<char> {
    project_id + "/media/"@ + media_id + ".json"@
}

/// The relative path of a media blob under the projects directory.
pub fn get_media_path(project_id: &str, media_id: &str) -> (r: String)
    ensures
        r@ == media_path_spec(project_id@, media_id@),
{
    let mut out = string_to_chars(project_id);
    append_str(&mut out, "/media/");
    let id = string_to_chars(media_id);
    append_chars(&mut out, &id);
    append_str(&mut out, ".bin");
    chars_to_string(&out)
}

/// The relative path of a media item's metadata under the projects
/// directory.
pub fn get_metadata_path(project_id: &str, media_id: &str) -> (r: String)
    ensures
        r@ == metadata_path_spec(project_id@, media_id@),
{
    let mut out = string_to_chars(project_id);
    append_str(&mut out, "/media/");
    let id = string_to_chars(media_id);
    append_chars(&mut out, &id);
    append_str(&mut out, ".json");
    chars_to_string(&out)
}

/// The file name without its extension.
pub open spec fn stem_of(name: Seq<char>) -> Seq<char> {
    match rfind_char(name, '.') {
        Some(d) => name.subrange(0, d),
        None => name,
    }
}

/// True iff a media file name carries a duplicate suffix: a stem of at
/// least three dash-separated parts whose last part is numeric.
pub open spec fn is_duplicate_name(name: Seq<char>) -> bool {
    match rfind_char(stem_of(name), '-') {
        Some(last_dash) => {
            &&& stem_of(name).subrange(last_dash + 1, stem_of(name).len() as int).len() > 0
            &&& all_digits(stem_of(name).subrange(last_dash + 1, stem_of(name).len() as int))
            &&& (exists|j: int| 0 <= j < last_dash && stem_of(name)[j] == '-')
        },
        None => false,
    }
}

/// Decides whether a media file name is a duplicate copy, such as a
/// `-1`-suffixed variant of an existing file.
pub fn is_duplicate_media_file(file_name: &str) -> (r: bool)
    ensures
        r == is_duplicate_name(file_name@),
{
    let cs = string_to_chars(file_name);
    let cs_len = cs.len();
    let stem: Vec<char> = match rfind_char_exec(&cs, '.') {
        Some(d) => {
            let mut v: Vec<char> = Vec::new();
            let mut k: usize = 0;
            while k < d
                invariant
                    k <= d,
                    d < cs@.len(),
                    v@ == cs@.subrange(0, k as int),
                decreases d - k,
            {
                v.push(cs[k]);
                proof {
                    assert(v@ =~= cs@.subrange(0, k + 1 as int));
                }
                k = k + 1;
            }
            v
        },
        None => {
            let mut v: Vec<char> = Vec::new();
            append_chars(&mut v, &cs);
            proof {
                assert(v@ =~= cs@);
            }
            v
        },
    };
    let stem_len = stem.len();
    proof {
        assert(stem@ == stem_of(file_name@));
    }
    match rfind_char_exec(&stem, '-') {
        Some(last_dash) => {
            let mut suffix: Vec<char> = Vec::new();
            let mut k: usize = last_dash + 1;
            while k < stem.len()
                invariant
                    last_dash + 1 <= k <= stem@.len(),
                    suffix@ == stem@.subrange(last_dash + 1 as int, k as int),
                decreases stem@.len() - k,
            {
                suffix.push(stem[k]);
                proof {
                    assert(suffix@ =~= stem@.subrange(last_dash + 1 as int, k + 1 as int));
                }
                k = k + 1;
            }
            if suffix.len() == 0 || !all_digits_exec(&suffix) {
                return false;
            }
            let mut j: usize = 0;
            let mut earlier = false;
            while j < last_dash
                invariant
                    j <= last_dash,
                    last_dash < stem@.len(),
                    earlier == (exists|m: int| 0 <= m < j && stem@[m] == '-'),
                decreases last_dash - j,
            {
                if stem[j] == '-' {
                    earlier = true;
                }
                j = j + 1;
            }
            proof {
                if earlier {
                    let m = choose|m: int| 0 <= m < last_dash && stem@[m] == '-';
                    assert(stem_of(file_name@)[m] == '-');
                }
            }
            earlier
        },
        None => false,
    }
}

} // verus!
