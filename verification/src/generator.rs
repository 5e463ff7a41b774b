//! The full build pipeline: renders every artifact of a course, assembles
//! them with the media into one archive, and accepts the package only when
//! the output validator finds nothing wrong. Externally supplied artifacts
//! take precedence over internal generation for the paths they cover.
use vstd::prelude::*;
use vstd::slice::slice_to_vec;
use vstd::utf8::{decode_utf8, encode_utf8};
use crate::archive::{
    entries_fit, entries_writable, entry_fits, path_is_safe, validate_entry_path, zip_entries,
    zip_entry_ok, zip_wf, PackageWriter,
};
use crate::html::{
    assessment_text, index_text, objectives_text, topic_text, welcome_text, HtmlGenerator,
};
use crate::model::{starts_with, GenerateScormRequest, Topic};
use crate::navigation::{nav_js_text, NavigationGenerator};
use crate::style::{css_for_request, StyleGenerator};
use crate::text::{
    append_chars, append_str, chars_to_string, chars_eq, lacks_char, lemma_occurs_index,
    string_to_chars, u32_dec_chars, dec_digits,
};
use crate::validator::{
    entry_views, opt_pairs_view, page_cross_ok, pairs_view, report_errors, report_errors_for,
    report_successes_for, OutputValidator,
};
use crate::xml::{xml_escape_chars, xml_escape_seq};

verus! {

/// A pre-rendered artifact supplied by an external generator; it bypasses
/// internal generation for its path.
#[derive(Debug, Clone)]
pub struct GeneratedFile {
    pub path: String,
    pub content: Vec<u8>,
    pub is_binary: bool,
}

/// Relies on uuid::Uuid::new_v4 and its hyphenated text form: a fresh
/// 36-character identifier; nothing more is promised of a random value.
#[verifier::external_body]
fn new_package_id() -> (r: String)
    ensures
        r@.len() == 36,
{
    uuid::Uuid::new_v4().to_string()
}

/// The manifest `<file>` declarations of the first `n` topic pages.
pub open spec fn manifest_file_entries(ts: Seq<Topic>, n: int) -> Seq<char>
    decreases n,
{
    if n <= 0 {
        Seq::<char>::empty()
    } else {
        manifest_file_entries(ts, n - 1) + ("<file href=\"pages/"@ + xml_escape_seq(ts[n - 1].id@)
            + ".html\"/>\n"@)
    }
}

/// The self-contained manifest of an assembled package: legacy namespaces,
/// the course title, the mastery score, and one file declaration per
/// artifact.
pub open spec fn simple_manifest_text(r: GenerateScormRequest, pid: Seq<char>) -> Seq<char> {
    "<?xml version=\"1.0\" encoding=\"UTF-8\"?>\n<manifest identifier=\"course-"@ + xml_escape_seq(
        pid,
    )
        + "\" version=\"1.0\" xmlns=\"http://www.imsproject.org/xsd/imscp_rootv1p1p2\" xmlns:adlcp=\"http://www.adlnet.org/xsd/adlcp_rootv1p2\">\n<metadata>\n<schema>ADL SCORM</schema>\n<schemaversion>1.2</schemaversion>\n</metadata>\n<organizations default=\"default_org\">\n<organization identifier=\"default_org\">\n<title>"@
        + xml_escape_seq(r.course_title@)
        + "</title>\n<item identifier=\"item_1\" identifierref=\"main\">\n<title>"@
        + xml_escape_seq(r.course_title@) + "</title>\n<adlcp:masteryscore>"@ + dec_digits(
        r.pass_mark as nat,
    )
        + "</adlcp:masteryscore>\n</item>\n</organization>\n</organizations>\n<resources>\n<resource identifier=\"main\" type=\"webcontent\" adlcp:scormtype=\"sco\" href=\"index.html\">\n<file href=\"index.html\"/>\n<file href=\"styles/main.css\"/>\n<file href=\"scripts/navigation.js\"/>\n"@
        + (if r.welcome_page is Some {
        "<file href=\"pages/welcome.html\"/>\n"@
    } else {
        Seq::<char>::empty()
    }) + (if r.learning_objectives_page is Some {
        "<file href=\"pages/objectives.html\"/>\n"@
    } else {
        Seq::<char>::empty()
    }) + manifest_file_entries(r.topics@, r.topics@.len() as int) + (if r.assessment is Some {
        "<file href=\"pages/assessment.html\"/>\n"@
    } else {
        Seq::<char>::empty()
    }) + "</resource>\n</resources>\n</manifest>"@
}

/// The archive entries of the topic pages, one per topic, in order.
pub open spec fn topic_page_entries(ts: Seq<Topic>, n: int) -> Seq<(Seq<char>, Seq<u8>)>
    decreases n,
{
    if n <= 0 {
        Seq::<(Seq<char>, Seq<u8>)>::empty()
    } else {
        topic_page_entries(ts, n - 1) + seq![
            ("pages/"@ + ts[n - 1].id@ + ".html"@, encode_utf8(topic_text(ts[n - 1]))),
        ]
    }
}

/// The archive entries internal generation produces for a course, in
/// order: scripts, styles, index, the optional and topic pages, and the
/// manifest carrying the package identifier.
pub open spec fn internal_entries(r: GenerateScormRequest, pid: Seq<char>) -> Seq<
    (Seq<char>, Seq<u8>),
> {
    seq![
        ("scripts/navigation.js"@, encode_utf8(nav_js_text(r))),
        ("styles/main.css"@, encode_utf8(css_for_request(r))),
        ("index.html"@, encode_utf8(index_text(r))),
    ] + (match r.welcome_page {
        Some(w) => seq![
            ("pages/welcome.html"@, encode_utf8(welcome_text(w, r.learning_objectives_page is Some))),
        ],
        None => Seq::<(Seq<char>, Seq<u8>)>::empty(),
    }) + (match r.learning_objectives_page {
        Some(o) => seq![("pages/objectives.html"@, encode_utf8(objectives_text(o)))],
        None => Seq::<(Seq<char>, Seq<u8>)>::empty(),
    }) + topic_page_entries(r.topics@, r.topics@.len() as int) + (match r.assessment {
        Some(a) => seq![("pages/assessment.html"@, encode_utf8(assessment_text(a)))],
        None => Seq::<(Seq<char>, Seq<u8>)>::empty(),
    }) + seq![("imsmanifest.xml"@, encode_utf8(simple_manifest_text(r, pid)))]
}

/// Building the same course twice yields byte-identical artifacts, the
/// package identifier aside: for any two identifiers, every entry but the
/// last (the manifest) is identical, the manifest keeps its path, and each
/// manifest is exactly the manifest text of its own identifier.
pub proof fn lemma_package_deterministic(r: GenerateScormRequest, pid1: Seq<char>, pid2: Seq<char>)
    ensures
        internal_entries(r, pid1).len() == internal_entries(r, pid2).len(),
        internal_entries(r, pid1).len() >= 4,
        forall|i: int|
            0 <= i < internal_entries(r, pid1).len() - 1 ==> internal_entries(r, pid1)[i]
                == internal_entries(r, pid2)[i],
        internal_entries(r, pid1).last().0 == "imsmanifest.xml"@,
        internal_entries(r, pid2).last().0 == "imsmanifest.xml"@,
        internal_entries(r, pid1).last().1 == encode_utf8(simple_manifest_text(r, pid1)),
        internal_entries(r, pid2).last().1 == encode_utf8(simple_manifest_text(r, pid2)),
{
    let front = seq![
        ("scripts/navigation.js"@, encode_utf8(nav_js_text(r))),
        ("styles/main.css"@, encode_utf8(css_for_request(r))),
        ("index.html"@, encode_utf8(index_text(r))),
    ] + (match r.welcome_page {
        Some(w) => seq![
            ("pages/welcome.html"@, encode_utf8(welcome_text(w, r.learning_objectives_page is Some))),
        ],
        None => Seq::<(Seq<char>, Seq<u8>)>::empty(),
    }) + (match r.learning_objectives_page {
        Some(o) => seq![("pages/objectives.html"@, encode_utf8(objectives_text(o)))],
        None => Seq::<(Seq<char>, Seq<u8>)>::empty(),
    }) + topic_page_entries(r.topics@, r.topics@.len() as int) + (match r.assessment {
        Some(a) => seq![("pages/assessment.html"@, encode_utf8(assessment_text(a)))],
        None => Seq::<(Seq<char>, Seq<u8>)>::empty(),
    });
    assert(internal_entries(r, pid1) == front + seq![
        ("imsmanifest.xml"@, encode_utf8(simple_manifest_text(r, pid1))),
    ]);
    assert(internal_entries(r, pid2) == front + seq![
        ("imsmanifest.xml"@, encode_utf8(simple_manifest_text(r, pid2))),
    ]);
    assert forall|i: int|
        0 <= i < internal_entries(r, pid1).len() - 1 implies internal_entries(r, pid1)[i]
        == internal_entries(r, pid2)[i] by {
        assert(internal_entries(r, pid1)[i] == front[i]);
        assert(internal_entries(r, pid2)[i] == front[i]);
    }
}

/// Media entries the assembler accepts without question: every path is
/// safe under the archive-slip rule and stands under the `media/` prefix,
/// as supplied media paths always do.
pub open spec fn media_paths_ok(media: Seq<(String, Vec<u8>)>) -> bool {
    forall|i: int|
        0 <= i < media.len() ==> path_is_safe(#[trigger] media[i].0@) && starts_with(
            media[i].0@,
            "media/"@,
        )
}

/// A build request on which the pipeline owes success: whatever package
/// identifier is drawn, the entries fit the archive format under distinct
/// names; topic ids and the navigation mode hold no parenthesis (so the
/// structural navigation rule is provably met); every topic page passes
/// the knowledge-check cross-checks; and the media paths are in order.
pub open spec fn package_buildable(
    r: GenerateScormRequest,
    media: Seq<(String, Vec<u8>)>,
) -> bool {
    &&& forall|pid: Seq<char>|
        pid.len() == 36 ==> entries_writable(
            #[trigger] internal_entries(r, pid) + pairs_view(media),
        )
    &&& forall|i: int| 0 <= i < r.topics@.len() ==> lacks_char(#[trigger] r.topics@[i].id@, '(')
    &&& lacks_char(r.navigation_mode@, '(')
    &&& forall|i: int|
        0 <= i < r.topics@.len() ==> page_cross_ok(topic_text(#[trigger] r.topics@[i]))
    &&& media_paths_ok(media)
}

/// An assembly request on which the call owes success: something to
/// assemble, every supplied path safe, and, whatever package identifier
/// is drawn, the assembled entries fit the format under distinct names.
pub open spec fn assembly_buildable(
    r: GenerateScormRequest,
    gs: Seq<GeneratedFile>,
    media: Seq<(String, Vec<u8>)>,
    use_internal: bool,
) -> bool {
    &&& !(gs.len() == 0 && !use_internal)
    &&& forall|i: int| 0 <= i < gs.len() ==> path_is_safe(#[trigger] gs[i].path@)
    &&& forall|i: int| 0 <= i < media.len() ==> path_is_safe(#[trigger] media[i].0@)
    &&& forall|pid: Seq<char>|
        pid.len() == 36 ==> entries_writable(
            #[trigger] assembled_entries(r, gs, media, use_internal, pid),
        )
}

/// The least index of a media entry whose path is unsafe.
pub open spec fn first_unsafe_media_index(ms: Seq<(String, Vec<u8>)>) -> int {
    choose|i: int|
        0 <= i < ms.len() && !path_is_safe(ms[i].0@) && (forall|j: int|
            0 <= j < i ==> path_is_safe(ms[j].0@))
}

/// A witness that the scan's first failing index is `first_unsafe_media_index`.
proof fn lemma_first_unsafe_media_index(ms: Seq<(String, Vec<u8>)>, i: int)
    requires
        0 <= i < ms.len(),
        !path_is_safe(ms[i].0@),
        forall|j: int| 0 <= j < i ==> path_is_safe(ms[j].0@),
    ensures
        first_unsafe_media_index(ms) == i,
{
    assert(0 <= i < ms.len() && !path_is_safe(ms[i].0@) && (forall|j: int|
        0 <= j < i ==> path_is_safe(ms[j].0@)));
    let c = first_unsafe_media_index(ms);
    if c < i {
        assert(path_is_safe(ms[c].0@));
    } else if i < c {
        assert(path_is_safe(ms[i].0@));
    }
}

/// The topic-page entry list is one entry per topic.
proof fn lemma_topic_page_entries_len(ts: Seq<Topic>, n: int)
    requires
        n >= 0,
    ensures
        topic_page_entries(ts, n).len() == n,
    decreases n,
{
    if n > 0 {
        lemma_topic_page_entries_len(ts, n - 1);
    }
}

/// Each topic-page entry is its topic's page under its topic's path.
proof fn lemma_topic_page_entry_index(ts: Seq<Topic>, n: int, k: int)
    requires
        0 <= k < n,
    ensures
        topic_page_entries(ts, n).len() == n,
        topic_page_entries(ts, n)[k] == (
            "pages/"@ + ts[k].id@ + ".html"@,
            encode_utf8(topic_text(ts[k])),
        ),
    decreases n,
{
    lemma_topic_page_entries_len(ts, n);
    if k < n - 1 {
        lemma_topic_page_entry_index(ts, n - 1, k);
    } else {
        lemma_topic_page_entries_len(ts, n - 1);
    }
}

/// A package whose bytes hold exactly the generated entries and the
/// media, every entry readable, draws no diagnostic from the validator on
/// a buildable request.
#[verifier::rlimit(100)]
proof fn lemma_generated_report_clean(
    r: GenerateScormRequest,
    media: Seq<(String, Vec<u8>)>,
    pid: Seq<char>,
    bytes: Seq<u8>,
)
    requires
        forall|i: int| 0 <= i < r.topics@.len() ==> lacks_char(#[trigger] r.topics@[i].id@, '('),
        lacks_char(r.navigation_mode@, '('),
        forall|i: int|
            0 <= i < r.topics@.len() ==> page_cross_ok(topic_text(#[trigger] r.topics@[i])),
        media_paths_ok(media),
        zip_wf(bytes),
        zip_entries(bytes) == internal_entries(r, pid) + pairs_view(media),
        forall|i: int| 0 <= i < zip_entries(bytes).len() ==> zip_entry_ok(bytes, i),
    ensures
        report_errors_for(bytes).len() == 0,
{
    broadcast use vstd::utf8::encode_utf8_valid_utf8;
    broadcast use vstd::utf8::encode_utf8_decode_utf8;

    let ie = internal_entries(r, pid);
    let m = pairs_view(media);
    let e = zip_entries(bytes);
    let v = entry_views(bytes);
    let piece_a = seq![
        ("scripts/navigation.js"@, encode_utf8(nav_js_text(r))),
        ("styles/main.css"@, encode_utf8(css_for_request(r))),
        ("index.html"@, encode_utf8(index_text(r))),
    ];
    let piece_w: Seq<(Seq<char>, Seq<u8>)> = match r.welcome_page {
        Some(w) => seq![
            ("pages/welcome.html"@, encode_utf8(welcome_text(w, r.learning_objectives_page is Some))),
        ],
        None => Seq::<(Seq<char>, Seq<u8>)>::empty(),
    };
    let piece_o: Seq<(Seq<char>, Seq<u8>)> = match r.learning_objectives_page {
        Some(o) => seq![("pages/objectives.html"@, encode_utf8(objectives_text(o)))],
        None => Seq::<(Seq<char>, Seq<u8>)>::empty(),
    };
    let piece_t = topic_page_entries(r.topics@, r.topics@.len() as int);
    let piece_s: Seq<(Seq<char>, Seq<u8>)> = match r.assessment {
        Some(a) => seq![("pages/assessment.html"@, encode_utf8(assessment_text(a)))],
        None => Seq::<(Seq<char>, Seq<u8>)>::empty(),
    };
    let piece_m = seq![("imsmanifest.xml"@, encode_utf8(simple_manifest_text(r, pid)))];
    assert(ie == piece_a + piece_w + piece_o + piece_t + piece_s + piece_m);
    lemma_topic_page_entries_len(r.topics@, r.topics@.len() as int);
    assert(v.len() == e.len());
    assert forall|i: int| 0 <= i < v.len() implies v[i] == (e[i].0, Some(e[i].1)) by {}

    reveal_strlit("scripts/navigation.js");
    reveal_strlit("styles/main.css");
    reveal_strlit("index.html");
    reveal_strlit("pages/welcome.html");
    reveal_strlit("pages/objectives.html");
    reveal_strlit("pages/assessment.html");
    reveal_strlit("imsmanifest.xml");
    reveal_strlit("pages/topic-");
    reveal_strlit("media/");

    // The three fixed files are the first three entries and pass their rules.
    assert(e[0] == piece_a[0]);
    assert(e[1] == piece_a[1]);
    assert(e[2] == piece_a[2]);
    assert(v[0] == ("scripts/navigation.js"@, Some(encode_utf8(nav_js_text(r)))));
    assert(v[1] == ("styles/main.css"@, Some(encode_utf8(css_for_request(r)))));
    assert(v[2] == ("index.html"@, Some(encode_utf8(index_text(r)))));
    crate::validator::lemma_lookup_at(v, "scripts/navigation.js"@, 0);
    assert("scripts/navigation.js"@.len() != "styles/main.css"@.len());
    assert(v[0].0 != "styles/main.css"@);
    crate::validator::lemma_lookup_at(v, "styles/main.css"@, 1);
    assert(v[0].0 != "index.html"@);
    assert(v[1].0 != "index.html"@);
    crate::validator::lemma_lookup_at(v, "index.html"@, 2);
    assert(decode_utf8(encode_utf8(nav_js_text(r))) == nav_js_text(r));
    crate::validator::lemma_generated_nav_rule_clean(r);
    crate::validator::lemma_generated_css_rule_clean(r);
    crate::validator::lemma_generated_index_rule_clean(r);
    assert(crate::validator::nav_file_outcome(v) == crate::validator::FileOutcome::Passed);
    assert(crate::validator::css_file_outcome(v) == crate::validator::FileOutcome::Passed);
    assert(crate::validator::html_file_outcome(v) == crate::validator::FileOutcome::Passed);

    // No entry draws a knowledge-check cross-check diagnostic.
    assert forall|i: int| 0 <= i < v.len() implies crate::validator::topic_entry_errors(
        #[trigger] v[i],
    ) == Seq::<(Seq<char>, Seq<char>)>::empty() by {
        let needle = "pages/topic-"@;
        let name = e[i].0;
        if i < 3 {
            if crate::model::starts_with(name, needle) {
                lemma_occurs_index(name, needle, 0, 0);
                assert(false);
            }
        } else if i < 3 + piece_w.len() {
            assert(e[i] == piece_w[i - 3]);
            assert(name == "pages/welcome.html"@);
            if crate::model::starts_with(name, needle) {
                lemma_occurs_index(name, needle, 0, 6);
                assert(false);
            }
        } else if i < 3 + piece_w.len() + piece_o.len() {
            assert(e[i] == piece_o[i - 3 - piece_w.len()]);
            assert(name == "pages/objectives.html"@);
            if crate::model::starts_with(name, needle) {
                lemma_occurs_index(name, needle, 0, 6);
                assert(false);
            }
        } else if i < 3 + piece_w.len() + piece_o.len() + piece_t.len() {
            let k = i - 3 - piece_w.len() - piece_o.len();
            assert(e[i] == piece_t[k]);
            lemma_topic_page_entry_index(r.topics@, r.topics@.len() as int, k);
            let t = r.topics@[k];
            assert(e[i].1 == encode_utf8(topic_text(t)));
            assert(crate::validator::page_text(encode_utf8(topic_text(t))) == topic_text(t));
            assert(page_cross_ok(topic_text(t)));
            assert(crate::validator::topic_entry_errors(v[i]) =~= Seq::<
                (Seq<char>, Seq<char>),
            >::empty());
        } else if i < 3 + piece_w.len() + piece_o.len() + piece_t.len() + piece_s.len() {
            assert(e[i] == piece_s[i - 3 - piece_w.len() - piece_o.len() - piece_t.len()]);
            assert(name == "pages/assessment.html"@);
            if crate::model::starts_with(name, needle) {
                lemma_occurs_index(name, needle, 0, 6);
                assert(false);
            }
        } else if i < ie.len() {
            assert(e[i] == piece_m[0]);
            assert(name == "imsmanifest.xml"@);
            if crate::model::starts_with(name, needle) {
                lemma_occurs_index(name, needle, 0, 0);
                assert(false);
            }
        } else {
            assert(e[i] == m[i - ie.len()]);
            assert(m[i - ie.len()] == (media[i - ie.len()].0@, media[i - ie.len()].1@));
            assert(crate::model::starts_with(name, "media/"@));
            if crate::model::starts_with(name, needle) {
                lemma_occurs_index(name, needle, 0, 0);
                lemma_occurs_index(name, "media/"@, 0, 0);
                assert(false);
            }
        }
    }
    crate::validator::lemma_topic_errors_all_empty(v);
    assert(report_errors(v) =~= Seq::<(Seq<char>, Seq<char>)>::empty());
}

/// The whole generation pipeline, with its validator.
pub struct EnhancedScormGenerator {
    pub navigation_generator: NavigationGenerator,
    pub style_generator: StyleGenerator,
    pub html_generator: HtmlGenerator,
    pub output_validator: OutputValidator,
}

impl EnhancedScormGenerator {
    /// Prepares every generator of the pipeline.
    pub fn new() -> (r: Result<EnhancedScormGenerator, String>)
        ensures
            r is Ok,
    {
        let navigation_generator = match NavigationGenerator::new() {
            Ok(g) => g,
            Err(e) => {
                return Err(e);
            },
        };
        let style_generator = match StyleGenerator::new() {
            Ok(g) => g,
            Err(e) => {
                return Err(e);
            },
        };
        let html_generator = match HtmlGenerator::new() {
            Ok(g) => g,
            Err(e) => {
                return Err(e);
            },
        };
        Ok(
            EnhancedScormGenerator {
                navigation_generator,
                style_generator,
                html_generator,
                output_validator: OutputValidator::new(),
            },
        )
    }

    /// Renders the self-contained manifest for a package identifier; the
    /// text is exactly `simple_manifest_text`.
    pub fn generate_simple_manifest(&self, request: &GenerateScormRequest, package_id: &str) -> (r:
        Result<String, String>)
        ensures
            match r {
                Ok(text) => text@ == simple_manifest_text(*request, package_id@),
                Err(_) => false,
            },
    {
        let mut out: Vec<char> = Vec::new();
        append_str(&mut out, "<?xml version=\"1.0\" encoding=\"UTF-8\"?>\n<manifest identifier=\"course-");
        let pid = xml_escape_chars(package_id);
        append_chars(&mut out, &pid);
        append_str(
            &mut out,
            "\" version=\"1.0\" xmlns=\"http://www.imsproject.org/xsd/imscp_rootv1p1p2\" xmlns:adlcp=\"http://www.adlnet.org/xsd/adlcp_rootv1p2\">\n<metadata>\n<schema>ADL SCORM</schema>\n<schemaversion>1.2</schemaversion>\n</metadata>\n<organizations default=\"default_org\">\n<organization identifier=\"default_org\">\n<title>",
        );
        let title = xml_escape_chars(request.course_title.as_str());
        append_chars(&mut out, &title);
        append_str(&mut out, "</title>\n<item identifier=\"item_1\" identifierref=\"main\">\n<title>");
        append_chars(&mut out, &title);
        append_str(&mut out, "</title>\n<adlcp:masteryscore>");
        let score = u32_dec_chars(request.pass_mark);
        append_chars(&mut out, &score);
        append_str(
            &mut out,
            "</adlcp:masteryscore>\n</item>\n</organization>\n</organizations>\n<resources>\n<resource identifier=\"main\" type=\"webcontent\" adlcp:scormtype=\"sco\" href=\"index.html\">\n<file href=\"index.html\"/>\n<file href=\"styles/main.css\"/>\n<file href=\"scripts/navigation.js\"/>\n",
        );
        match &request.welcome_page {
            Some(_) => append_str(&mut out, "<file href=\"pages/welcome.html\"/>\n"),
            None => {},
        }
        match &request.learning_objectives_page {
            Some(_) => append_str(&mut out, "<file href=\"pages/objectives.html\"/>\n"),
            None => {},
        }
        let ghost mid = out@;
        let mut i: usize = 0;
        while i < request.topics.len()
            invariant
                i <= request.topics@.len(),
                out@ == mid + manifest_file_entries(request.topics@, i as int),
            decreases request.topics@.len() - i,
        {
            append_str(&mut out, "<file href=\"pages/");
            let id = xml_escape_chars(request.topics[i].id.as_str());
            append_chars(&mut out, &id);
            append_str(&mut out, ".html\"/>\n");
            i = i + 1;
        }
        match &request.assessment {
            Some(_) => append_str(&mut out, "<file href=\"pages/assessment.html\"/>\n"),
            None => {},
        }
        append_str(&mut out, "</resource>\n</resources>\n</manifest>");
        proof {
            assert(out@ =~= simple_manifest_text(*request, package_id@));
        }
        Ok(chars_to_string(&out))
    }

    /// Renders every internally generated artifact of a course, in order;
    /// the entries are exactly `internal_entries`.
    pub fn entries_for_request(&self, request: &GenerateScormRequest, package_id: &str) -> (r:
        Result<Vec<(String, Vec<u8>)>, String>)
        ensures
            match r {
                Ok(entries) => pairs_view(entries@) == internal_entries(*request, package_id@),
                Err(_) => false,
            },
    {
        let ghost req = *request;
        let ghost front3: Seq<(Seq<char>, Seq<u8>)> = seq![
            ("scripts/navigation.js"@, encode_utf8(nav_js_text(req))),
            ("styles/main.css"@, encode_utf8(css_for_request(req))),
            ("index.html"@, encode_utf8(index_text(req))),
        ];
        let ghost welcome_piece: Seq<(Seq<char>, Seq<u8>)> = match req.welcome_page {
            Some(w) => seq![
                (
                    "pages/welcome.html"@,
                    encode_utf8(welcome_text(w, req.learning_objectives_page is Some)),
                ),
            ],
            None => Seq::<(Seq<char>, Seq<u8>)>::empty(),
        };
        let ghost objectives_piece: Seq<(Seq<char>, Seq<u8>)> = match req.learning_objectives_page {
            Some(o) => seq![("pages/objectives.html"@, encode_utf8(objectives_text(o)))],
            None => Seq::<(Seq<char>, Seq<u8>)>::empty(),
        };
        let mut entries: Vec<(String, Vec<u8>)> = Vec::new();
        let nav_js = match self.navigation_generator.generate_navigation_js(request) {
            Ok(t) => t,
            Err(e) => {
                return Err(e);
            },
        };
        let ghost v0 = entries@;
        entries.push((path_string("scripts/navigation.js"), text_bytes(&nav_js)));
        proof {
            crate::validator::lemma_pairs_view_push(v0, entries@.last());
        }
        let css = match self.style_generator.generate_main_css(request) {
            Ok(t) => t,
            Err(e) => {
                return Err(e);
            },
        };
        let ghost v1 = entries@;
        entries.push((path_string("styles/main.css"), text_bytes(&css)));
        proof {
            crate::validator::lemma_pairs_view_push(v1, entries@.last());
        }
        let index_html = match self.html_generator.generate_index_html(request) {
            Ok(t) => t,
            Err(e) => {
                return Err(e);
            },
        };
        let ghost v2 = entries@;
        entries.push((path_string("index.html"), text_bytes(&index_html)));
        proof {
            crate::validator::lemma_pairs_view_push(v2, entries@.last());
            assert(pairs_view(entries@) =~= front3);
        }
        let has_objectives = match &request.learning_objectives_page {
            Some(_) => true,
            None => false,
        };
        match &request.welcome_page {
            Some(w) => {
                let welcome_renderer = HtmlGenerator { has_objectives };
                let html = match welcome_renderer.generate_welcome_page(w) {
                    Ok(t) => t,
                    Err(e) => {
                        return Err(e);
                    },
                };
                let ghost v3 = entries@;
                entries.push((path_string("pages/welcome.html"), text_bytes(&html)));
                proof {
                    crate::validator::lemma_pairs_view_push(v3, entries@.last());
                }
            },
            None => {},
        }
        proof {
            assert(pairs_view(entries@) =~= front3 + welcome_piece);
        }
        match &request.learning_objectives_page {
            Some(o) => {
                let html = match self.html_generator.generate_objectives_page(o) {
                    Ok(t) => t,
                    Err(e) => {
                        return Err(e);
                    },
                };
                let ghost v4 = entries@;
                entries.push((path_string("pages/objectives.html"), text_bytes(&html)));
                proof {
                    crate::validator::lemma_pairs_view_push(v4, entries@.last());
                }
            },
            None => {},
        }
        proof {
            assert(pairs_view(entries@) =~= front3 + welcome_piece + objectives_piece);
        }
        let ghost head = pairs_view(entries@);
        let mut i: usize = 0;
        while i < request.topics.len()
            invariant
                i <= request.topics@.len(),
                pairs_view(entries@) == head + topic_page_entries(request.topics@, i as int),
            decreases request.topics@.len() - i,
        {
            let t = &request.topics[i];
            let html = match self.html_generator.generate_topic_page(t) {
                Ok(h) => h,
                Err(e) => {
                    return Err(e);
                },
            };
            let mut page_path: Vec<char> = Vec::new();
            append_str(&mut page_path, "pages/");
            append_str(&mut page_path, t.id.as_str());
            append_str(&mut page_path, ".html");
            let ghost before = entries@;
            entries.push((chars_to_string(&page_path), text_bytes(&html)));
            proof {
                crate::validator::lemma_pairs_view_push(before, entries@.last());
                assert(pairs_view(entries@) =~= head + topic_page_entries(
                    request.topics@,
                    i + 1 as int,
                ));
            }
            i = i + 1;
        }
        proof {
            assert(pairs_view(entries@) =~= front3 + welcome_piece + objectives_piece
                + topic_page_entries(req.topics@, req.topics@.len() as int));
        }
        match &request.assessment {
            Some(a) => {
                let html = match self.html_generator.generate_assessment_page(a) {
                    Ok(t) => t,
                    Err(e) => {
                        return Err(e);
                    },
                };
                let ghost v5 = entries@;
                entries.push((path_string("pages/assessment.html"), text_bytes(&html)));
                proof {
                    crate::validator::lemma_pairs_view_push(v5, entries@.last());
                }
            },
            None => {},
        }
        let ghost assessment_piece: Seq<(Seq<char>, Seq<u8>)> = match req.assessment {
            Some(a) => seq![("pages/assessment.html"@, encode_utf8(assessment_text(a)))],
            None => Seq::<(Seq<char>, Seq<u8>)>::empty(),
        };
        proof {
            assert(pairs_view(entries@) =~= front3 + welcome_piece + objectives_piece
                + topic_page_entries(req.topics@, req.topics@.len() as int) + assessment_piece);
        }
        let manifest = match self.generate_simple_manifest(request, package_id) {
            Ok(t) => t,
            Err(e) => {
                return Err(e);
            },
        };
        let ghost v6 = entries@;
        entries.push((path_string("imsmanifest.xml"), text_bytes(&manifest)));
        proof {
            crate::validator::lemma_pairs_view_push(v6, entries@.last());
            assert(pairs_view(entries@) =~= internal_entries(*request, package_id@));
        }
        Ok(entries)
    }
}

/// The message for a request with nothing to assemble.
pub open spec fn no_content_message() -> Seq<char> {
    "No content: No generated files provided in generated_files and internal generation was declined"@
}

/// The entries of `internal` whose paths none of `covered` names.
pub open spec fn uncovered(
    internal: Seq<(Seq<char>, Seq<u8>)>,
    covered: Seq<Seq<char>>,
) -> Seq<(Seq<char>, Seq<u8>)>
    decreases internal.len(),
{
    if internal.len() == 0 {
        Seq::<(Seq<char>, Seq<u8>)>::empty()
    } else {
        uncovered(internal.drop_last(), covered) + (if covered.contains(internal.last().0) {
            Seq::<(Seq<char>, Seq<u8>)>::empty()
        } else {
            seq![internal.last()]
        })
    }
}

/// The paths of the supplied artifacts.
pub open spec fn artifact_paths(gs: Seq<GeneratedFile>) -> Seq<Seq<char>> {
    gs.map_values(|g: GeneratedFile| g.path@)
}

/// The view of the supplied artifacts as archive entries.
pub open spec fn artifact_entries(gs: Seq<GeneratedFile>) -> Seq<(Seq<char>, Seq<u8>)> {
    gs.map_values(|g: GeneratedFile| (g.path@, g.content@))
}

/// The entries an assembly call produces: the supplied artifacts verbatim,
/// then, when internal generation is allowed, the internally generated
/// entries for the paths the artifacts did not cover, then the media.
pub open spec fn assembled_entries(
    r: GenerateScormRequest,
    gs: Seq<GeneratedFile>,
    media: Seq<(String, Vec<u8>)>,
    use_internal: bool,
    pid: Seq<char>,
) -> Seq<(Seq<char>, Seq<u8>)> {
    artifact_entries(gs) + (if use_internal {
        uncovered(internal_entries(r, pid), artifact_paths(gs))
    } else {
        Seq::<(Seq<char>, Seq<u8>)>::empty()
    }) + pairs_view(media)
}

impl EnhancedScormGenerator {
    /// Builds the whole package for a course: every artifact is generated,
    /// linted, archived together with the media, and the finished bytes
    /// are handed back only when the output validator reports no error.
    /// The archive holds exactly the internally generated entries, under a
    /// fresh package identifier, followed by the media entries.
    pub fn generate_scorm_package(
        &self,
        request: GenerateScormRequest,
        media_files: Vec<(String, Vec<u8>)>,
    ) -> (r: Result<Vec<u8>, String>)
        ensures
            match r {
                Ok(b) => {
                    &&& zip_wf(b@)
                    &&& exists|pid: Seq<char>|
                        pid.len() == 36 && zip_entries(b@) == internal_entries(request, pid)
                            + pairs_view(media_files@)
                    &&& report_errors_for(b@).len() == 0
                    &&& forall|i: int|
                        0 <= i < media_files@.len() ==> path_is_safe(
                            #[trigger] media_files@[i].0@,
                        )
                },
                Err(_) => true,
            },
            (exists|i: int|
                0 <= i < media_files@.len() && !path_is_safe(media_files@[i].0@)) ==> (r matches
                Err(m) && {
                let bad = first_unsafe_media_index(media_files@);
                m@ == crate::archive::invalid_path_message(media_files@[bad].0@)
            }),
            package_buildable(request, media_files@) ==> r is Ok,
    {
        let mut v: usize = 0;
        while v < media_files.len()
            invariant
                v <= media_files@.len(),
                forall|j: int| 0 <= j < v ==> path_is_safe(media_files@[j].0@),
            decreases media_files@.len() - v,
        {
            if !validate_entry_path(media_files[v].0.as_str()) {
                proof {
                    lemma_first_unsafe_media_index(media_files@, v as int);
                }
                let mut msg: Vec<char> = Vec::new();
                append_str(&mut msg, "Invalid resource path: ");
                append_str(&mut msg, media_files[v].0.as_str());
                return Err(chars_to_string(&msg));
            }
            v = v + 1;
        }
        let nav_js = match self.navigation_generator.generate_navigation_js(&request) {
            Ok(t) => t,
            Err(e) => {
                return Err(e);
            },
        };
        if let Err(errors) = self.navigation_generator.validate_navigation_js(nav_js.as_str()) {
            proof {
                crate::navigation::lemma_generated_nav_lint_clean(request);
            }
            return Err(join_lines(&errors));
        }
        let css = match self.style_generator.generate_main_css(&request) {
            Ok(t) => t,
            Err(e) => {
                return Err(e);
            },
        };
        if let Err(errors) = self.style_generator.validate_css(css.as_str()) {
            proof {
                crate::style::lemma_generated_css_valid(request);
            }
            return Err(join_lines(&errors));
        }
        let package_id = new_package_id();
        let mut entries = match self.entries_for_request(&request, package_id.as_str()) {
            Ok(es) => es,
            Err(e) => {
                return Err(e);
            },
        };
        let ghost internal = pairs_view(entries@);
        let mut i: usize = 0;
        while i < media_files.len()
            invariant
                i <= media_files@.len(),
                pairs_view(entries@) == internal + pairs_view(media_files@.subrange(0, i as int)),
            decreases media_files@.len() - i,
        {
            let name = path_string(media_files[i].0.as_str());
            let data = slice_to_vec(media_files[i].1.as_slice());
            let ghost before = entries@;
            entries.push((name, data));
            proof {
                crate::validator::lemma_pairs_view_push(before, entries@.last());
                assert(pairs_view(media_files@.subrange(0, i + 1 as int)) =~= pairs_view(
                    media_files@.subrange(0, i as int),
                ).push((media_files@[i as int].0@, media_files@[i as int].1@)));
                assert(pairs_view(entries@) =~= internal + pairs_view(
                    media_files@.subrange(0, i + 1 as int),
                ));
            }
            i = i + 1;
        }
        proof {
            assert(media_files@.subrange(0, media_files@.len() as int) =~= media_files@);
        }
        let bytes = match write_entries(&entries) {
            Ok(b) => b,
            Err(e) => {
                proof {
                    if package_buildable(request, media_files@) {
                        assert(entries_writable(
                            internal_entries(request, package_id@) + pairs_view(media_files@),
                        ));
                        assert(false);
                    }
                }
                return Err(e);
            },
        };
        let report = self.output_validator.validate_scorm_package(bytes.as_slice());
        if report.has_errors() {
            proof {
                if package_buildable(request, media_files@) {
                    lemma_generated_report_clean(request, media_files@, package_id@, bytes@);
                    assert(false);
                }
            }
            let mut msg: Vec<char> = Vec::new();
            append_str(&mut msg, "SCORM package validation failed:\n");
            let summary = report.summary();
            append_str(&mut msg, summary.as_str());
            return Err(chars_to_string(&msg));
        }
        proof {
            assert(zip_entries(bytes@) == internal_entries(request, package_id@) + pairs_view(
                media_files@,
            ));
            assert(package_id@.len() == 36);
            assert(report_errors_for(bytes@).len() == 0) by {
                assert(crate::validator::messages_view(report.errors@) == report_errors_for(
                    bytes@,
                ));
            }
        }
        Ok(bytes)
    }

    /// Assembles a package from externally supplied artifacts: they stand
    /// verbatim for the paths they cover; internal generation, when
    /// allowed, fills in only the paths they do not; media entries follow.
    /// Supplying nothing while declining internal generation is refused,
    /// as is any artifact or media path that fails the archive-slip rule;
    /// on an assemblable request the call succeeds.
    pub fn assemble(
        &self,
        request: &GenerateScormRequest,
        generated: &Vec<GeneratedFile>,
        media_files: &Vec<(String, Vec<u8>)>,
        use_internal_fallback: bool,
    ) -> (r: Result<Vec<u8>, String>)
        ensures
            (generated@.len() == 0 && !use_internal_fallback) ==> (r matches Err(m) && m@
                == no_content_message()),
            (exists|i: int|
                0 <= i < generated@.len() && !path_is_safe(generated@[i].path@)) ==> r is Err,
            (exists|i: int|
                0 <= i < media_files@.len() && !path_is_safe(media_files@[i].0@)) ==> r is Err,
            match r {
                Ok(b) => {
                    &&& zip_wf(b@)
                    &&& forall|i: int|
                        0 <= i < generated@.len() ==> path_is_safe(generated@[i].path@)
                    &&& forall|i: int|
                        0 <= i < media_files@.len() ==> path_is_safe(
                            #[trigger] media_files@[i].0@,
                        )
                    &&& exists|pid: Seq<char>|
                        pid.len() == 36 && zip_entries(b@) == assembled_entries(
                            *request,
                            generated@,
                            media_files@,
                            use_internal_fallback,
                            pid,
                        )
                },
                Err(_) => true,
            },
            assembly_buildable(*request, generated@, media_files@, use_internal_fallback)
                ==> r is Ok,
    {
        if generated.len() == 0 && !use_internal_fallback {
            return Err(path_string(
                "No content: No generated files provided in generated_files and internal generation was declined",
            ));
        }
        let mut g: usize = 0;
        while g < generated.len()
            invariant
                g <= generated@.len(),
                forall|j: int| 0 <= j < g ==> path_is_safe(generated@[j].path@),
            decreases generated@.len() - g,
        {
            if !validate_entry_path(generated[g].path.as_str()) {
                let mut msg: Vec<char> = Vec::new();
                append_str(&mut msg, "Invalid resource path: ");
                append_str(&mut msg, generated[g].path.as_str());
                return Err(chars_to_string(&msg));
            }
            g = g + 1;
        }
        let mut mv: usize = 0;
        while mv < media_files.len()
            invariant
                mv <= media_files@.len(),
                !(generated@.len() == 0 && !use_internal_fallback),
                forall|j: int| 0 <= j < mv ==> path_is_safe(media_files@[j].0@),
            decreases media_files@.len() - mv,
        {
            if !validate_entry_path(media_files[mv].0.as_str()) {
                let mut msg: Vec<char> = Vec::new();
                append_str(&mut msg, "Invalid resource path: ");
                append_str(&mut msg, media_files[mv].0.as_str());
                return Err(chars_to_string(&msg));
            }
            mv = mv + 1;
        }
        let mut entries: Vec<(String, Vec<u8>)> = Vec::new();
        let mut i: usize = 0;
        while i < generated.len()
            invariant
                i <= generated@.len(),
                pairs_view(entries@) == artifact_entries(generated@.subrange(0, i as int)),
            decreases generated@.len() - i,
        {
            let name = path_string(generated[i].path.as_str());
            let data = slice_to_vec(generated[i].content.as_slice());
            let ghost before = entries@;
            entries.push((name, data));
            proof {
                crate::validator::lemma_pairs_view_push(before, entries@.last());
                assert(artifact_entries(generated@.subrange(0, i + 1 as int)) =~= artifact_entries(
                    generated@.subrange(0, i as int),
                ).push((generated@[i as int].path@, generated@[i as int].content@)));
                assert(pairs_view(entries@) =~= artifact_entries(
                    generated@.subrange(0, i + 1 as int),
                ));
            }
            i = i + 1;
        }
        proof {
            assert(generated@.subrange(0, generated@.len() as int) =~= generated@);
        }
        let package_id = new_package_id();
        let ghost front = pairs_view(entries@);
        if use_internal_fallback {
            let internal = match self.entries_for_request(request, package_id.as_str()) {
                Ok(es) => es,
                Err(e) => {
                    return Err(e);
                },
            };
            let mut k: usize = 0;
            while k < internal.len()
                invariant
                    k <= internal@.len(),
                    pairs_view(internal@) == internal_entries(*request, package_id@),
                    pairs_view(entries@) == front + uncovered(
                        pairs_view(internal@).subrange(0, k as int),
                        artifact_paths(generated@),
                    ),
                decreases internal@.len() - k,
            {
                let covered = path_among(&internal[k].0, generated);
                let ghost sub_next = pairs_view(internal@).subrange(0, k + 1 as int);
                proof {
                    assert(sub_next.drop_last() =~= pairs_view(internal@).subrange(0, k as int));
                    assert(sub_next.last() == pairs_view(internal@)[k as int]);
                    assert(pairs_view(internal@)[k as int] == (
                        internal@[k as int].0@,
                        internal@[k as int].1@,
                    ));
                }
                if !covered {
                    let name = path_string(internal[k].0.as_str());
                    let data = slice_to_vec(internal[k].1.as_slice());
                    let ghost before = entries@;
                    entries.push((name, data));
                    proof {
                        crate::validator::lemma_pairs_view_push(before, entries@.last());
                        assert(pairs_view(entries@) =~= front + uncovered(
                            sub_next,
                            artifact_paths(generated@),
                        ));
                    }
                } else {
                    proof {
                        assert(pairs_view(entries@) =~= front + uncovered(
                            sub_next,
                            artifact_paths(generated@),
                        ));
                    }
                }
                k = k + 1;
            }
            proof {
                assert(pairs_view(internal@).subrange(0, pairs_view(internal@).len() as int)
                    =~= pairs_view(internal@));
            }
        }
        let ghost with_internal = pairs_view(entries@);
        let mut m: usize = 0;
        while m < media_files.len()
            invariant
                m <= media_files@.len(),
                pairs_view(entries@) == with_internal + pairs_view(
                    media_files@.subrange(0, m as int),
                ),
            decreases media_files@.len() - m,
        {
            let name = path_string(media_files[m].0.as_str());
            let data = slice_to_vec(media_files[m].1.as_slice());
            let ghost before = entries@;
            entries.push((name, data));
            proof {
                crate::validator::lemma_pairs_view_push(before, entries@.last());
                assert(pairs_view(media_files@.subrange(0, m + 1 as int)) =~= pairs_view(
                    media_files@.subrange(0, m as int),
                ).push((media_files@[m as int].0@, media_files@[m as int].1@)));
                assert(pairs_view(entries@) =~= with_internal + pairs_view(
                    media_files@.subrange(0, m + 1 as int),
                ));
            }
            m = m + 1;
        }
        proof {
            assert(media_files@.subrange(0, media_files@.len() as int) =~= media_files@);
            assert(pairs_view(entries@) =~= assembled_entries(
                *request,
                generated@,
                media_files@,
                use_internal_fallback,
                package_id@,
            ));
            if assembly_buildable(*request, generated@, media_files@, use_internal_fallback) {
                assert(entries_writable(pairs_view(entries@)));
            }
        }
        write_entries(&entries)
    }
}

/// Decides whether some supplied artifact names this path.
fn path_among(path: &String, generated: &Vec<GeneratedFile>) -> (r: bool)
    ensures
        r == artifact_paths(generated@).contains(path@),
{
    let target = string_to_chars(path.as_str());
    let mut i: usize = 0;
    while i < generated.len()
        invariant
            i <= generated@.len(),
            target@ == path@,
            forall|j: int| 0 <= j < i ==> artifact_paths(generated@)[j] != path@,
        decreases generated@.len() - i,
    {
        let candidate = string_to_chars(generated[i].path.as_str());
        if chars_eq(&candidate, &target) {
            proof {
                assert(artifact_paths(generated@)[i as int] == path@);
            }
            return true;
        }
        proof {
            assert(artifact_paths(generated@)[i as int] == generated@[i as int].path@);
        }
        i = i + 1;
    }
    proof {
        assert(artifact_paths(generated@).len() == generated@.len());
        if artifact_paths(generated@).contains(path@) {
            let j = choose|j: int|
                0 <= j < artifact_paths(generated@).len() && artifact_paths(generated@)[j]
                    == path@;
            assert(artifact_paths(generated@)[j] != path@);
        }
    }
    false
}

/// Archives an entry list in memory; on success the archive holds exactly
/// those entries, in order.
pub fn write_entries(entries: &Vec<(String, Vec<u8>)>) -> (r: Result<Vec<u8>, String>)
    ensures
        match r {
            Ok(b) => zip_wf(b@) && zip_entries(b@) == pairs_view(entries@) && (forall|i: int|
                0 <= i < zip_entries(b@).len() ==> zip_entry_ok(b@, i)),
            Err(_) => true,
        },
        entries_writable(pairs_view(entries@)) ==> r is Ok,
{
    let ghost pv = pairs_view(entries@);
    let mut writer = PackageWriter::new();
    let mut i: usize = 0;
    while i < entries.len()
        invariant
            i <= entries@.len(),
            pv == pairs_view(entries@),
            crate::archive::writer_entries(writer) == pv.subrange(0, i as int),
        decreases entries@.len() - i,
    {
        if let Err(e) = writer.add_entry(entries[i].0.as_str(), entries[i].1.as_slice()) {
            proof {
                if entries_writable(pv) {
                    assert(pv[i as int] == (entries@[i as int].0@, entries@[i as int].1@));
                    assert(entry_fits(pv[i as int].0, pv[i as int].1));
                    assert forall|j: int|
                        0 <= j < crate::archive::writer_entries(writer).len() implies
                        crate::archive::writer_entries(writer)[j].0 != entries@[i as int].0@ by {
                        assert(crate::archive::writer_entries(writer)[j] == pv[j]);
                        assert(entry_fits(pv[j].0, pv[j].1));
                        assert(pv[j].0 != pv[i as int].0);
                    }
                    assert(entries_fit(crate::archive::writer_entries(writer)));
                    assert(false);
                }
            }
            return Err(e);
        }
        proof {
            assert(pv[i as int] == (entries@[i as int].0@, entries@[i as int].1@));
            assert(crate::archive::writer_entries(writer) =~= pv.subrange(0, i + 1 as int));
        }
        i = i + 1;
    }
    proof {
        assert(pv.subrange(0, pv.len() as int) =~= pv);
    }
    let ghost final_entries = crate::archive::writer_entries(writer);
    let result = writer.finish();
    proof {
        if entries_writable(pv) {
            assert forall|j: int|
                0 <= j < final_entries.len() implies entry_fits(
                #[trigger] final_entries[j].0,
                final_entries[j].1,
            ) by {
                assert(final_entries[j] == pv[j]);
                assert(entry_fits(pv[j].0, pv[j].1));
            }
            assert(entries_fit(final_entries));
        }
    }
    result
}

/// Joins diagnostics, one per line.
fn join_lines(lines: &Vec<String>) -> (r: String) {
    let mut out: Vec<char> = Vec::new();
    let mut i: usize = 0;
    while i < lines.len()
        decreases lines@.len() - i,
    {
        if i > 0 {
            append_str(&mut out, "\n");
        }
        append_str(&mut out, lines[i].as_str());
        i = i + 1;
    }
    chars_to_string(&out)
}

/// A path literal as an owned string.
fn path_string(p: &str) -> (r: String)
    ensures
        r@ == p@,
{
    let v = string_to_chars(p);
    chars_to_string(&v)
}

/// The UTF-8 bytes of a text artifact.
fn text_bytes(s: &String) -> (r: Vec<u8>)
    ensures
        r@ == encode_utf8(s@),
{
    slice_to_vec(s.as_str().as_bytes())
}

} // verus!
