//! The package manifest generator: renders the `imsmanifest.xml` document
//! for a course, with the namespace set of the requested SCORM version and
//! every piece of user text escaped.
use vstd::prelude::*;
use crate::text::{
    append_chars, append_str, chars_eq, chars_to_string, contains_seq, lemma_contains_concat,
    lemma_occurs_index, lemma_occurs_self, lemma_sub_occurrence, occurs_at, string_to_chars,
};
use crate::xml::{xml_escape_chars, xml_escape_seq};

verus! {

/// The SCORM versions this generator understands.
#[derive(Clone, Copy, Debug, PartialEq, Eq, Structural)]
pub enum ScormVersion {
    V1_2,
    V2004,
    V2004_3,
    V2004_4,
}

/// Course description fields carried into the manifest.
#[derive(Debug, Clone)]
pub struct CourseMetadata {
    pub title: String,
    pub identifier: String,
    pub description: Option<String>,
    pub version: String,
}

/// A manifest request: course metadata plus the SCORM version string.
#[derive(Debug, Clone)]
pub struct ManifestOptions {
    pub course: CourseMetadata,
    pub scorm_version: String,
}

/// Which version a version string denotes, if any.
pub open spec fn parse_version_spec(s: Seq<char>) -> Option<ScormVersion> {
    if s == "1.2"@ {
        Some(ScormVersion::V1_2)
    } else if s == "2004"@ {
        Some(ScormVersion::V2004)
    } else if s == "2004.3"@ {
        Some(ScormVersion::V2004_3)
    } else if s == "2004.4"@ {
        Some(ScormVersion::V2004_4)
    } else {
        None
    }
}

/// Parses a SCORM version string.
pub fn parse_scorm_version(s: &str) -> (r: Option<ScormVersion>)
    ensures
        r == parse_version_spec(s@),
{
    let cs = string_to_chars(s);
    let v12 = string_to_chars("1.2");
    let v2004 = string_to_chars("2004");
    let v20043 = string_to_chars("2004.3");
    let v20044 = string_to_chars("2004.4");
    if chars_eq(&cs, &v12) {
        Some(ScormVersion::V1_2)
    } else if chars_eq(&cs, &v2004) {
        Some(ScormVersion::V2004)
    } else if chars_eq(&cs, &v20043) {
        Some(ScormVersion::V2004_3)
    } else if chars_eq(&cs, &v20044) {
        Some(ScormVersion::V2004_4)
    } else {
        None
    }
}

/// The `xmlns` attribute block of the `<manifest>` root for a version.
pub open spec fn ns_block(v: ScormVersion) -> Seq<char> {
    if v == ScormVersion::V1_2 {
        ns_block_legacy()
    } else {
        ns_block_2004()
    }
}

/// The legacy namespace declarations.
pub open spec fn ns_block_legacy() -> Seq<char> {
    " xmlns=\"http://www.imsproject.org/xsd/imscp_rootv1p1p2\" xmlns:adlcp=\"http://www.adlnet.org/xsd/adlcp_rootv1p2\""@
}

/// The namespace declarations shared by every 2004 edition.
pub open spec fn ns_block_2004() -> Seq<char> {
    " xmlns=\"http://www.imsglobal.org/xsd/imscp_v1p1\" xmlns:adlcp=\"http://www.adlnet.org/xsd/adlcp_v1p3\" xmlns:adlseq=\"http://www.adlnet.org/xsd/adlseq_v1p3\" xmlns:adlnav=\"http://www.adlnet.org/xsd/adlnav_v1p3\" xmlns:imsss=\"http://www.imsglobal.org/xsd/imsss\""@
}

/// The `<schemaversion>` text for a version.
pub open spec fn schema_version_text(v: ScormVersion) -> Seq<char> {
    if v == ScormVersion::V1_2 {
        "1.2"@
    } else if v == ScormVersion::V2004_4 {
        "2004 4th Edition"@
    } else {
        "2004 3rd Edition"@
    }
}

/// The `adlcp` scorm-type attribute, whose capitalization differs by version.
pub open spec fn scorm_type_attr(v: ScormVersion) -> Seq<char> {
    if v == ScormVersion::V1_2 {
        " adlcp:scormtype=\"sco\""@
    } else {
        " adlcp:scormType=\"sco\""@
    }
}

/// The document up to, and not including, the namespace declarations.
pub open spec fn seg_head(ident: Seq<char>, version: Seq<char>) -> Seq<char> {
    "<?xml version=\"1.0\" encoding=\"UTF-8\"?><manifest identifier=\""@ + xml_escape_seq(ident)
        + "\" version=\""@ + xml_escape_seq(version) + "\""@
}

/// The metadata block, between the namespace declarations and the organizations.
pub open spec fn seg_meta(v: ScormVersion) -> Seq<char> {
    "><metadata><schema>ADL SCORM</schema><schemaversion>"@ + schema_version_text(v)
        + "</schemaversion></metadata><organizations default=\""@
}

/// The organizations block and the opening of the resource declaration.
pub open spec fn seg_orgs(title: Seq<char>, ident: Seq<char>) -> Seq<char> {
    let et = xml_escape_seq(title);
    let ei = xml_escape_seq(ident);
    ei + "_org\"><organization identifier=\""@ + ei + "_org\"><title>"@ + et
        + "</title><item identifier=\"item_1\" identifierref=\"resource_1\"><title>"@ + et
        + "</title></item></organization></organizations><resources><resource identifier=\"resource_1\" type=\"webcontent\" href=\"index.html\""@
}

/// The closing of the document, from the scorm-type attribute on.
pub open spec fn seg_tail(v: ScormVersion) -> Seq<char> {
    scorm_type_attr(v) + "><file href=\"index.html\"/></resource></resources></manifest>"@
}

/// The complete manifest document for the given inputs, each piece of user
/// text escaped on insertion.
pub open spec fn manifest_text(
    title: Seq<char>,
    ident: Seq<char>,
    version: Seq<char>,
    v: ScormVersion,
) -> Seq<char> {
    seg_head(ident, version) + ns_block(v) + seg_meta(v) + seg_orgs(title, ident) + seg_tail(v)
}

/// The message given back for an unsupported version string.
pub open spec fn invalid_version_message(version: Seq<char>) -> Seq<char> {
    "Invalid SCORM version: "@ + version
}

/// Renders the manifest document for a parsed version.
pub fn render_manifest(course: &CourseMetadata, v: ScormVersion) -> (r: String)
    ensures
        r@ == manifest_text(course.title@, course.identifier@, course.version@, v),
{
    let et = xml_escape_chars(course.title.as_str());
    let ei = xml_escape_chars(course.identifier.as_str());
    let ev = xml_escape_chars(course.version.as_str());
    let mut out: Vec<char> = Vec::new();
    append_str(&mut out, "<?xml version=\"1.0\" encoding=\"UTF-8\"?><manifest identifier=\"");
    append_chars(&mut out, &ei);
    append_str(&mut out, "\" version=\"");
    append_chars(&mut out, &ev);
    append_str(&mut out, "\"");
    match v {
        ScormVersion::V1_2 => {
            append_str(
                &mut out,
                " xmlns=\"http://www.imsproject.org/xsd/imscp_rootv1p1p2\" xmlns:adlcp=\"http://www.adlnet.org/xsd/adlcp_rootv1p2\"",
            );
        },
        _ => {
            append_str(
                &mut out,
                " xmlns=\"http://www.imsglobal.org/xsd/imscp_v1p1\" xmlns:adlcp=\"http://www.adlnet.org/xsd/adlcp_v1p3\" xmlns:adlseq=\"http://www.adlnet.org/xsd/adlseq_v1p3\" xmlns:adlnav=\"http://www.adlnet.org/xsd/adlnav_v1p3\" xmlns:imsss=\"http://www.imsglobal.org/xsd/imsss\"",
            );
        },
    }
    append_str(&mut out, "><metadata><schema>ADL SCORM</schema><schemaversion>");
    match v {
        ScormVersion::V1_2 => append_str(&mut out, "1.2"),
        ScormVersion::V2004_4 => append_str(&mut out, "2004 4th Edition"),
        _ => append_str(&mut out, "2004 3rd Edition"),
    }
    append_str(&mut out, "</schemaversion></metadata><organizations default=\"");
    append_chars(&mut out, &ei);
    append_str(&mut out, "_org\"><organization identifier=\"");
    append_chars(&mut out, &ei);
    append_str(&mut out, "_org\"><title>");
    append_chars(&mut out, &et);
    append_str(&mut out, "</title><item identifier=\"item_1\" identifierref=\"resource_1\"><title>");
    append_chars(&mut out, &et);
    append_str(
        &mut out,
        "</title></item></organization></organizations><resources><resource identifier=\"resource_1\" type=\"webcontent\" href=\"index.html\"",
    );
    match v {
        ScormVersion::V1_2 => append_str(&mut out, " adlcp:scormtype=\"sco\""),
        _ => append_str(&mut out, " adlcp:scormType=\"sco\""),
    }
    append_str(&mut out, "><file href=\"index.html\"/></resource></resources></manifest>");
    proof {
        assert(out@ =~= manifest_text(course.title@, course.identifier@, course.version@, v));
    }
    chars_to_string(&out)
}

/// Generates the manifest for a request, refusing unsupported SCORM
/// version strings; on success the document is exactly `manifest_text`.
pub fn generate_manifest(options: &ManifestOptions) -> (r: Result<String, String>)
    ensures
        match r {
            Ok(doc) => {
                &&& parse_version_spec(options.scorm_version@) is Some
                &&& doc@ == manifest_text(
                    options.course.title@,
                    options.course.identifier@,
                    options.course.version@,
                    parse_version_spec(options.scorm_version@)->0,
                )
            },
            Err(msg) => {
                &&& parse_version_spec(options.scorm_version@) is None
                &&& msg@ == invalid_version_message(options.scorm_version@)
            },
        },
{
    match parse_scorm_version(options.scorm_version.as_str()) {
        Some(v) => Ok(render_manifest(&options.course, v)),
        None => {
            let mut msg: Vec<char> = Vec::new();
            append_str(&mut msg, "Invalid SCORM version: ");
            append_str(&mut msg, options.scorm_version.as_str());
            Err(chars_to_string(&msg))
        },
    }
}

/// The manifest of every supported version carries that version's complete
/// namespace declaration block.
pub proof fn lemma_manifest_contains_version_namespaces(
    title: Seq<char>,
    ident: Seq<char>,
    version: Seq<char>,
    v: ScormVersion,
)
    ensures
        contains_seq(manifest_text(title, ident, version, v), ns_block(v)),
{
    let ns = ns_block(v);
    lemma_occurs_self(ns);
    lemma_contains_concat(seg_head(ident, version), ns, ns);
    lemma_contains_concat(seg_head(ident, version) + ns, seg_meta(v), ns);
    lemma_contains_concat(
        seg_head(ident, version) + ns + seg_meta(v),
        seg_orgs(title, ident),
        ns,
    );
    lemma_contains_concat(
        seg_head(ident, version) + ns + seg_meta(v) + seg_orgs(title, ident),
        seg_tail(v),
        ns,
    );
}

/// The legacy namespace block holds no `q`, no `p_v`, no `v_v` and no `sss`,
/// so none of the 2004 namespace names can occur in it.
proof fn lemma_legacy_block_exclusions()
    ensures
        !contains_seq(ns_block_legacy(), "imscp_v1p1"@),
        !contains_seq(ns_block_legacy(), "adlcp_v1p3"@),
        !contains_seq(ns_block_legacy(), "adlseq_v1p3"@),
        !contains_seq(ns_block_legacy(), "adlnav_v1p3"@),
        !contains_seq(ns_block_legacy(), "imsss"@),
{
    let a = ns_block_legacy();
    reveal_strlit(
        " xmlns=\"http://www.imsproject.org/xsd/imscp_rootv1p1p2\" xmlns:adlcp=\"http://www.adlnet.org/xsd/adlcp_rootv1p2\"",
    );
    reveal_strlit("imscp_v1p1");
    reveal_strlit("adlcp_v1p3");
    reveal_strlit("adlseq_v1p3");
    reveal_strlit("adlnav_v1p3");
    reveal_strlit("imsss");
    reveal_strlit("p_v");
    reveal_strlit("q");
    reveal_strlit("v_v");
    reveal_strlit("sss");
    assert forall|at: int| !occurs_at(a, "p_v"@, at) by {
        if occurs_at(a, "p_v"@, at) {
            lemma_occurs_index(a, "p_v"@, at, 0);
            lemma_occurs_index(a, "p_v"@, at, 1);
            lemma_occurs_index(a, "p_v"@, at, 2);
            assert(a[at] == 'p' && a[at + 1] == '_' && a[at + 2] == 'v');
            assert(false);
        }
    }
    assert forall|at: int| !occurs_at(a, "q"@, at) by {
        if occurs_at(a, "q"@, at) {
            lemma_occurs_index(a, "q"@, at, 0);
            assert(a[at] == 'q');
            assert(false);
        }
    }
    assert forall|at: int| !occurs_at(a, "v_v"@, at) by {
        if occurs_at(a, "v_v"@, at) {
            lemma_occurs_index(a, "v_v"@, at, 0);
            lemma_occurs_index(a, "v_v"@, at, 1);
            lemma_occurs_index(a, "v_v"@, at, 2);
            assert(a[at] == 'v' && a[at + 1] == '_' && a[at + 2] == 'v');
            assert(false);
        }
    }
    assert forall|at: int| !occurs_at(a, "sss"@, at) by {
        if occurs_at(a, "sss"@, at) {
            lemma_occurs_index(a, "sss"@, at, 0);
            lemma_occurs_index(a, "sss"@, at, 1);
            lemma_occurs_index(a, "sss"@, at, 2);
            assert(a[at] == 's' && a[at + 1] == 's' && a[at + 2] == 's');
            assert(false);
        }
    }
    assert(occurs_at("imscp_v1p1"@, "p_v"@, 4)) by {
        assert("imscp_v1p1"@.subrange(4, 7) =~= "p_v"@);
    }
    assert(occurs_at("adlcp_v1p3"@, "p_v"@, 4)) by {
        assert("adlcp_v1p3"@.subrange(4, 7) =~= "p_v"@);
    }
    assert(occurs_at("adlseq_v1p3"@, "q"@, 5)) by {
        assert("adlseq_v1p3"@.subrange(5, 6) =~= "q"@);
    }
    assert(occurs_at("adlnav_v1p3"@, "v_v"@, 5)) by {
        assert("adlnav_v1p3"@.subrange(5, 8) =~= "v_v"@);
    }
    assert(occurs_at("imsss"@, "sss"@, 2)) by {
        assert("imsss"@.subrange(2, 5) =~= "sss"@);
    }
    if contains_seq(a, "imscp_v1p1"@) {
        lemma_sub_occurrence(a, "imscp_v1p1"@, "p_v"@, 4);
    }
    if contains_seq(a, "adlcp_v1p3"@) {
        lemma_sub_occurrence(a, "adlcp_v1p3"@, "p_v"@, 4);
    }
    if contains_seq(a, "adlseq_v1p3"@) {
        lemma_sub_occurrence(a, "adlseq_v1p3"@, "q"@, 5);
    }
    if contains_seq(a, "adlnav_v1p3"@) {
        lemma_sub_occurrence(a, "adlnav_v1p3"@, "v_v"@, 5);
    }
    if contains_seq(a, "imsss"@) {
        lemma_sub_occurrence(a, "imsss"@, "sss"@, 2);
    }
}

/// The 2004 namespace block holds no `p_r`, so neither legacy namespace
/// name can occur in it.
proof fn lemma_2004_block_exclusions()
    ensures
        !contains_seq(ns_block_2004(), "imscp_rootv1p1p2"@),
        !contains_seq(ns_block_2004(), "adlcp_rootv1p2"@),
{
    let b = ns_block_2004();
    reveal_strlit(
        " xmlns=\"http://www.imsglobal.org/xsd/imscp_v1p1\" xmlns:adlcp=\"http://www.adlnet.org/xsd/adlcp_v1p3\" xmlns:adlseq=\"http://www.adlnet.org/xsd/adlseq_v1p3\" xmlns:adlnav=\"http://www.adlnet.org/xsd/adlnav_v1p3\" xmlns:imsss=\"http://www.imsglobal.org/xsd/imsss\"",
    );
    reveal_strlit("imscp_rootv1p1p2");
    reveal_strlit("adlcp_rootv1p2");
    reveal_strlit("p_r");
    assert forall|at: int| !occurs_at(b, "p_r"@, at) by {
        if occurs_at(b, "p_r"@, at) {
            lemma_occurs_index(b, "p_r"@, at, 0);
            lemma_occurs_index(b, "p_r"@, at, 1);
            lemma_occurs_index(b, "p_r"@, at, 2);
            assert(b[at] == 'p' && b[at + 1] == '_' && b[at + 2] == 'r');
            assert(false);
        }
    }
    assert(occurs_at("imscp_rootv1p1p2"@, "p_r"@, 4)) by {
        assert("imscp_rootv1p1p2"@.subrange(4, 7) =~= "p_r"@);
    }
    assert(occurs_at("adlcp_rootv1p2"@, "p_r"@, 4)) by {
        assert("adlcp_rootv1p2"@.subrange(4, 7) =~= "p_r"@);
    }
    if contains_seq(b, "imscp_rootv1p1p2"@) {
        lemma_sub_occurrence(b, "imscp_rootv1p1p2"@, "p_r"@, 4);
    }
    if contains_seq(b, "adlcp_rootv1p2"@) {
        lemma_sub_occurrence(b, "adlcp_rootv1p2"@, "p_r"@, 4);
    }
}

/// The namespace declaration block chosen for a version never holds the
/// other family's namespace names: the legacy block holds none of the 2004
/// names, and the 2004 block holds neither legacy name. Together with
/// `lemma_manifest_contains_version_namespaces` and the exact document
/// structure of `manifest_text`, the namespace declarations of a manifest
/// are exactly those of its version. (Over the whole document the exclusion
/// cannot hold unconditionally: a course title may itself quote a foreign
/// namespace name.)
pub proof fn lemma_namespace_blocks_exclusive()
    ensures
        !contains_seq(ns_block_legacy(), "imscp_v1p1"@),
        !contains_seq(ns_block_legacy(), "adlcp_v1p3"@),
        !contains_seq(ns_block_legacy(), "adlseq_v1p3"@),
        !contains_seq(ns_block_legacy(), "adlnav_v1p3"@),
        !contains_seq(ns_block_legacy(), "imsss"@),
        !contains_seq(ns_block_2004(), "imscp_rootv1p1p2"@),
        !contains_seq(ns_block_2004(), "adlcp_rootv1p2"@),
{
    lemma_legacy_block_exclusions();
    lemma_2004_block_exclusions();
}

/// Whatever the course title holds, the manifest carries only its escaped
/// form, and that form is free of raw markup characters: the document stays
/// well-formed for every title.
pub proof fn lemma_manifest_escapes_title(
    title: Seq<char>,
    ident: Seq<char>,
    version: Seq<char>,
    v: ScormVersion,
)
    ensures
        contains_seq(manifest_text(title, ident, version, v), xml_escape_seq(title)),
        crate::xml::no_raw_markup(xml_escape_seq(title)),
{
    let et = xml_escape_seq(title);
    let ei = xml_escape_seq(ident);
    crate::xml::lemma_escape_no_raw_markup(title);
    let orgs_prefix = ei + "_org\"><organization identifier=\""@ + ei + "_org\"><title>"@;
    lemma_occurs_self(et);
    lemma_contains_concat(orgs_prefix, et, et);
    lemma_contains_concat(
        orgs_prefix + et,
        "</title><item identifier=\"item_1\" identifierref=\"resource_1\"><title>"@,
        et,
    );
    lemma_contains_concat(
        orgs_prefix + et
            + "</title><item identifier=\"item_1\" identifierref=\"resource_1\"><title>"@,
        et,
        et,
    );
    lemma_contains_concat(
        orgs_prefix + et
            + "</title><item identifier=\"item_1\" identifierref=\"resource_1\"><title>"@ + et,
        "</title></item></organization></organizations><resources><resource identifier=\"resource_1\" type=\"webcontent\" href=\"index.html\""@,
        et,
    );
    assert(contains_seq(seg_orgs(title, ident), et));
    let head3 = seg_head(ident, version) + ns_block(v) + seg_meta(v);
    lemma_contains_concat(head3, seg_orgs(title, ident), et);
    lemma_contains_concat(head3 + seg_orgs(title, ident), seg_tail(v), et);
}

/// Whatever the course identifier holds, the manifest carries only its
/// escaped form, which is free of raw markup characters.
pub proof fn lemma_manifest_escapes_identifier(
    title: Seq<char>,
    ident: Seq<char>,
    version: Seq<char>,
    v: ScormVersion,
)
    ensures
        contains_seq(manifest_text(title, ident, version, v), xml_escape_seq(ident)),
        crate::xml::no_raw_markup(xml_escape_seq(ident)),
{
    let ei = xml_escape_seq(ident);
    let ev = xml_escape_seq(version);
    crate::xml::lemma_escape_no_raw_markup(ident);
    lemma_occurs_self(ei);
    lemma_contains_concat(
        "<?xml version=\"1.0\" encoding=\"UTF-8\"?><manifest identifier=\""@,
        ei,
        ei,
    );
    lemma_contains_concat(
        "<?xml version=\"1.0\" encoding=\"UTF-8\"?><manifest identifier=\""@ + ei,
        "\" version=\""@,
        ei,
    );
    lemma_contains_concat(
        "<?xml version=\"1.0\" encoding=\"UTF-8\"?><manifest identifier=\""@ + ei
            + "\" version=\""@,
        ev,
        ei,
    );
    lemma_contains_concat(
        "<?xml version=\"1.0\" encoding=\"UTF-8\"?><manifest identifier=\""@ + ei
            + "\" version=\""@ + ev,
        "\""@,
        ei,
    );
    lemma_contains_concat(seg_head(ident, version), ns_block(v), ei);
    lemma_contains_concat(seg_head(ident, version) + ns_block(v), seg_meta(v), ei);
    lemma_contains_concat(
        seg_head(ident, version) + ns_block(v) + seg_meta(v),
        seg_orgs(title, ident),
        ei,
    );
    lemma_contains_concat(
        seg_head(ident, version) + ns_block(v) + seg_meta(v) + seg_orgs(title, ident),
        seg_tail(v),
        ei,
    );
}

} // verus!
