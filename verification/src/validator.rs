//! The output validator: re-opens an assembled package and checks each
//! generated artifact against a fixed rule set, producing a pass/fail
//! report with per-file diagnostics. It never throws: malformed bytes,
//! unreadable entries and non-text rule files all become report entries.
use vstd::prelude::*;
use vstd::string::StringExecFns;
use vstd::utf8::{decode_utf8, valid_utf8};
use crate::archive::{ends_with, ends_with_exec, PackageReader};
use crate::model::{find_first_from, lemma_find_first_same, starts_with, starts_with_exec};
use crate::text::{
    append_chars, append_str, chars_eq, chars_to_string, contains_chars, contains_seq, dec_digits,
    find_from, string_to_chars, usize_dec_chars,
};

verus! {

/// Relies on str::from_utf8: decoding succeeds exactly on valid UTF-8 and
/// yields the decoded characters.
#[verifier::external_body]
pub fn bytes_to_string(b: &[u8]) -> (r: Option<String>)
    ensures
        match r {
            Some(s) => valid_utf8(b@) && s@ == decode_utf8(b@),
            None => !valid_utf8(b@),
        },
{
    match std::str::from_utf8(b) {
        Ok(s) => Some(s.to_owned()),
        Err(_) => None,
    }
}

/// The first entry carrying `path`, if any; its content is absent when
/// that entry could not be read.
pub open spec fn lookup_spec(es: Seq<(Seq<char>, Option<Seq<u8>>)>, path: Seq<char>) -> Option<
    Option<Seq<u8>>,
>
    decreases es.len(),
{
    if es.len() == 0 {
        None
    } else if es[0].0 == path {
        Some(es[0].1)
    } else {
        lookup_spec(es.drop_first(), path)
    }
}

/// The view of a name/content pair list.
pub open spec fn pairs_view(v: Seq<(String, Vec<u8>)>) -> Seq<(Seq<char>, Seq<u8>)> {
    v.map_values(|p: (String, Vec<u8>)| (p.0@, p.1@))
}

/// The view of a name/optional-content pair list.
pub open spec fn opt_pairs_view(v: Seq<(String, Option<Vec<u8>>)>) -> Seq<
    (Seq<char>, Option<Seq<u8>>),
> {
    v.map_values(
        |p: (String, Option<Vec<u8>>)|
            (
                p.0@,
                match p.1 {
                    Some(d) => Some(d@),
                    None => None,
                },
            ),
    )
}

/// The entries a well-formed archive's bytes hold, each content present
/// exactly when that entry reads back.
pub open spec fn entry_views(bytes: Seq<u8>) -> Seq<(Seq<char>, Option<Seq<u8>>)> {
    Seq::new(
        crate::archive::zip_entries(bytes).len(),
        |i: int|
            (
                crate::archive::zip_entries(bytes)[i].0,
                if crate::archive::zip_entry_ok(bytes, i) {
                    Some(crate::archive::zip_entries(bytes)[i].1)
                } else {
                    None
                },
            ),
    )
}

/// The view of a file/message pair list.
pub open spec fn messages_view(v: Seq<(String, String)>) -> Seq<(Seq<char>, Seq<char>)> {
    v.map_values(|p: (String, String)| (p.0@, p.1@))
}

/// True iff the state-recompute call follows the content-load completion
/// point: after the first page-injection block, the first audio
/// initialization is followed by a state recompute within the allowed
/// distance.
pub open spec fn recompute_after_content_load(s: Seq<char>) -> bool {
    match find_first_from(s, ".then(html => {"@, 0) {
        Some(tb) => match find_first_from(s, "initializePageAudio(pageId)"@, tb) {
            Some(ap) => match find_first_from(s, "updateNavigationState()"@, ap) {
                Some(np) => np - ap <= 500,
                None => false,
            },
            None => false,
        },
        None => false,
    }
}

/// The navigation-script rule: the first failing check's message, if any.
pub open spec fn nav_rule_error(s: Seq<char>) -> Option<Seq<char>> {
    if !contains_seq(s, "shouldBlockNavigation()"@) {
        Some("Navigation blocking function not found"@)
    } else if !contains_seq(s, "updateNavigationState()"@) {
        Some("Navigation state update not found"@)
    } else {
        match find_first_from(s, ".then(html => {"@, 0) {
            None => Some("navigateToPage then block not found"@),
            Some(tb) => match find_first_from(s, "initializePageAudio(pageId)"@, tb) {
                None => Some("initializePageAudio not found in then block"@),
                Some(ap) => match find_first_from(s, "updateNavigationState()"@, ap) {
                    None => Some(
                        "updateNavigationState() not found after initializePageAudio in then block"@,
                    ),
                    Some(np) => if np - ap > 500 {
                        Some("updateNavigationState() too far from content load"@)
                    } else if !contains_seq(s, "[SCORM Navigation] Sidebar click:"@) {
                        Some("Sidebar navigation logging not found"@)
                    } else if !contains_seq(s, "window.checkFillInBlank"@) {
                        Some("Fill-in-blank check function not found"@)
                    } else if !contains_seq(s, "window.checkMultipleChoice"@) {
                        Some("Multiple choice check function not found"@)
                    } else {
                        None
                    },
                },
            },
        }
    }
}

/// A navigation script that passes the rule has its state recompute after
/// the content-load point; one where the recompute does not follow within
/// the allowed distance always fails.
pub proof fn lemma_nav_rule_ordering(s: Seq<char>)
    ensures
        nav_rule_error(s) is None ==> recompute_after_content_load(s),
        !recompute_after_content_load(s) ==> nav_rule_error(s) is Some,
{
}

/// The stylesheet rule of the output validator.
pub open spec fn css_rule_error(s: Seq<char>) -> Option<Seq<char>> {
    if contains_seq(s, "min-height: 800px !important"@) {
        Some("Found problematic min-height that pushes footer off screen"@)
    } else if !contains_seq(s, "body"@) || !contains_seq(s, "height: 100vh"@) {
        Some("Body missing proper height: 100vh"@)
    } else if !contains_seq(s, ".footer"@) {
        Some("Footer styles missing"@)
    } else if !contains_seq(s, ".nav-button:disabled"@) {
        Some("Disabled navigation button styles missing"@)
    } else {
        None
    }
}

/// A stylesheet holding the banned oversized rule always fails this check,
/// with the message naming it.
pub proof fn lemma_css_rule_sound(s: Seq<char>)
    ensures
        contains_seq(s, "min-height: 800px !important"@) ==> css_rule_error(s) == Some(
            "Found problematic min-height that pushes footer off screen"@,
        ),
{
}

/// The index-page rule of the output validator.
pub open spec fn html_rule_error(s: Seq<char>) -> Option<Seq<char>> {
    if !contains_seq(s, "id=\"prev-button\""@) {
        Some("Previous button not found"@)
    } else if !contains_seq(s, "id=\"next-button\""@) {
        Some("Next button not found"@)
    } else if !contains_seq(s, "id=\"content-container\""@) {
        Some("Content container not found"@)
    } else if !contains_seq(s, "id=\"scorm-alert-container\""@) {
        Some("Alert container not found"@)
    } else {
        None
    }
}

/// The outcome one fixed file's rule gives: absent, unreadable, not
/// text, failed with a message, or passed.
pub enum FileOutcome {
    Absent,
    Unreadable,
    Undecodable,
    Failed(Seq<char>),
    Passed,
}

/// The outcome a rule result gives for one looked-up file.
pub open spec fn content_outcome(
    found: Option<Option<Seq<u8>>>,
    rule_error: Option<Seq<char>>,
) -> FileOutcome {
    match found {
        None => FileOutcome::Absent,
        Some(None) => FileOutcome::Unreadable,
        Some(Some(b)) => if !valid_utf8(b) {
            FileOutcome::Undecodable
        } else {
            match rule_error {
                Some(e) => FileOutcome::Failed(e),
                None => FileOutcome::Passed,
            }
        },
    }
}

/// The outcome of the navigation-script file.
pub open spec fn nav_file_outcome(es: Seq<(Seq<char>, Option<Seq<u8>>)>) -> FileOutcome {
    content_outcome(
        lookup_spec(es, "scripts/navigation.js"@),
        match lookup_spec(es, "scripts/navigation.js"@) {
            Some(Some(b)) => nav_rule_error(decode_utf8(b)),
            _ => None,
        },
    )
}

/// The outcome of the stylesheet file.
pub open spec fn css_file_outcome(es: Seq<(Seq<char>, Option<Seq<u8>>)>) -> FileOutcome {
    content_outcome(
        lookup_spec(es, "styles/main.css"@),
        match lookup_spec(es, "styles/main.css"@) {
            Some(Some(b)) => css_rule_error(decode_utf8(b)),
            _ => None,
        },
    )
}

/// The outcome of the index page.
pub open spec fn html_file_outcome(es: Seq<(Seq<char>, Option<Seq<u8>>)>) -> FileOutcome {
    content_outcome(
        lookup_spec(es, "index.html"@),
        match lookup_spec(es, "index.html"@) {
            Some(Some(b)) => html_rule_error(decode_utf8(b)),
            _ => None,
        },
    )
}

/// The diagnostics an outcome contributes for its path.
pub open spec fn outcome_errors(path: Seq<char>, o: FileOutcome) -> Seq<(Seq<char>, Seq<char>)> {
    match o {
        FileOutcome::Absent => seq![(path, "File not found in package"@)],
        FileOutcome::Unreadable => seq![(path, "File could not be read"@)],
        FileOutcome::Undecodable => seq![(path, "File is not valid UTF-8"@)],
        FileOutcome::Failed(e) => seq![(path, e)],
        FileOutcome::Passed => Seq::<(Seq<char>, Seq<char>)>::empty(),
    }
}

/// The pass entries an outcome contributes for its path.
pub open spec fn outcome_successes(path: Seq<char>, o: FileOutcome) -> Seq<(Seq<char>, Seq<char>)> {
    match o {
        FileOutcome::Passed => seq![(path, "Validation passed"@)],
        _ => Seq::<(Seq<char>, Seq<char>)>::empty(),
    }
}

/// The text a topic page is checked against: its decoding, or nothing when
/// the bytes are not valid text.
pub open spec fn page_text(b: Seq<u8>) -> Seq<char> {
    if valid_utf8(b) {
        decode_utf8(b)
    } else {
        Seq::<char>::empty()
    }
}

/// The knowledge-check cross-checks of one entry. Only topic pages holding
/// a knowledge-check container are checked: a fill-in-blank input must
/// carry the expected class, and must wire its submission to the unified
/// submit handler.
pub open spec fn topic_entry_errors(e: (Seq<char>, Option<Seq<u8>>)) -> Seq<
    (Seq<char>, Seq<char>),
> {
    match e.1 {
        None => Seq::<(Seq<char>, Seq<char>)>::empty(),
        Some(b) => if starts_with(e.0, "pages/topic-"@) && ends_with(e.0, ".html"@)
            && contains_seq(page_text(b), "knowledge-check-container"@) {
            (if contains_seq(page_text(b), "fill-blank-"@) && !contains_seq(
                page_text(b),
                "kc-fill-blank"@,
            ) {
                seq![(e.0, "Fill-in-blank input missing proper class"@)]
            } else {
                Seq::<(Seq<char>, Seq<char>)>::empty()
            }) + (if contains_seq(page_text(b), "fill-blank-"@) && !contains_seq(
                page_text(b),
                "onclick=\"window.submitAllKnowledgeChecks"@,
            ) {
                seq![(e.0, "Fill-in-blank submit button missing proper onclick handler"@)]
            } else {
                Seq::<(Seq<char>, Seq<char>)>::empty()
            })
        } else {
            Seq::<(Seq<char>, Seq<char>)>::empty()
        },
    }
}

/// The knowledge-check cross-checks of every entry, in order.
pub open spec fn topic_errors(es: Seq<(Seq<char>, Option<Seq<u8>>)>) -> Seq<(Seq<char>, Seq<char>)>
    decreases es.len(),
{
    if es.len() == 0 {
        Seq::<(Seq<char>, Seq<char>)>::empty()
    } else {
        topic_entry_errors(es[0]) + topic_errors(es.drop_first())
    }
}

/// Every diagnostic the validator reports for these entries, in order.
pub open spec fn report_errors(es: Seq<(Seq<char>, Option<Seq<u8>>)>) -> Seq<(Seq<char>, Seq<char>)> {
    outcome_errors("scripts/navigation.js"@, nav_file_outcome(es)) + outcome_errors(
        "styles/main.css"@,
        css_file_outcome(es),
    ) + outcome_errors("index.html"@, html_file_outcome(es)) + topic_errors(es)
}

/// Every pass entry the validator reports for these entries, in order.
pub open spec fn report_successes(es: Seq<(Seq<char>, Option<Seq<u8>>)>) -> Seq<(Seq<char>, Seq<char>)> {
    outcome_successes("scripts/navigation.js"@, nav_file_outcome(es)) + outcome_successes(
        "styles/main.css"@,
        css_file_outcome(es),
    ) + outcome_successes("index.html"@, html_file_outcome(es))
}

/// The per-path validation outcomes of one package.
#[derive(Debug)]
pub struct ValidationReport {
    pub success: Vec<(String, String)>,
    pub errors: Vec<(String, String)>,
}

impl ValidationReport {
    /// An empty report.
    pub fn new() -> (r: ValidationReport)
        ensures
            r.success@.len() == 0,
            r.errors@.len() == 0,
    {
        ValidationReport { success: Vec::new(), errors: Vec::new() }
    }

    /// Records a passed check.
    pub fn add_success(&mut self, file: String, message: String)
        ensures
            final(self).success@ == old(self).success@.push((file, message)),
            final(self).errors@ == old(self).errors@,
    {
        self.success.push((file, message));
    }

    /// Records a failed check.
    pub fn add_error(&mut self, file: String, message: String)
        ensures
            final(self).errors@ == old(self).errors@.push((file, message)),
            final(self).success@ == old(self).success@,
    {
        self.errors.push((file, message));
    }

    /// True iff any check failed.
    pub fn has_errors(&self) -> (r: bool)
        ensures
            r == (self.errors@.len() > 0),
    {
        self.errors.len() > 0
    }

    /// Renders the report: the counts, then one line per failure.
    pub fn summary(&self) -> (r: String)
        ensures
            r@ == summary_text(self.success@.len(), messages_view(self.errors@)),
    {
        let mut out: Vec<char> = Vec::new();
        append_str(&mut out, "Validation Report: ");
        let sc = usize_dec_chars(self.success.len());
        append_chars(&mut out, &sc);
        append_str(&mut out, " success, ");
        let ec = usize_dec_chars(self.errors.len());
        append_chars(&mut out, &ec);
        append_str(&mut out, " errors\n");
        if self.errors.len() > 0 {
            append_str(&mut out, "\nErrors:\n");
            let mut i: usize = 0;
            while i < self.errors.len()
                invariant
                    i <= self.errors@.len(),
                    out@ == summary_head(self.success@.len() as nat, self.errors@.len() as nat)
                        + "\nErrors:\n"@ + error_lines(
                        messages_view(self.errors@).subrange(0, i as int),
                    ),
                decreases self.errors@.len() - i,
            {
                append_str(&mut out, "  - ");
                append_str(&mut out, self.errors[i].0.as_str());
                append_str(&mut out, ": ");
                append_str(&mut out, self.errors[i].1.as_str());
                append_str(&mut out, "\n");
                proof {
                    lemma_error_lines_snoc(
                        messages_view(self.errors@).subrange(0, i as int),
                        messages_view(self.errors@)[i as int],
                    );
                    assert(messages_view(self.errors@).subrange(0, i + 1 as int) =~= messages_view(
                        self.errors@,
                    ).subrange(0, i as int).push(messages_view(self.errors@)[i as int]));
                    assert(out@ =~= summary_head(
                        self.success@.len() as nat,
                        self.errors@.len() as nat,
                    ) + "\nErrors:\n"@ + error_lines(
                        messages_view(self.errors@).subrange(0, i + 1 as int),
                    ));
                }
                i = i + 1;
            }
            proof {
                assert(messages_view(self.errors@).subrange(
                    0,
                    messages_view(self.errors@).len() as int,
                ) =~= messages_view(self.errors@));
                assert(out@ =~= summary_text(self.success@.len(), messages_view(self.errors@)));
            }
        } else {
            proof {
                assert(out@ =~= summary_text(self.success@.len(), messages_view(self.errors@)));
            }
        }
        chars_to_string(&out)
    }
}

/// The opening line of a report.
pub open spec fn summary_head(successes: nat, errors: nat) -> Seq<char> {
    "Validation Report: "@ + dec_digits(successes) + " success, "@ + dec_digits(errors)
        + " errors\n"@
}

/// One rendered failure line per diagnostic.
pub open spec fn error_lines(errors: Seq<(Seq<char>, Seq<char>)>) -> Seq<char>
    decreases errors.len(),
{
    if errors.len() == 0 {
        Seq::<char>::empty()
    } else {
        ("  - "@ + errors[0].0 + ": "@ + errors[0].1 + "\n"@) + error_lines(errors.drop_first())
    }
}

/// Appending one diagnostic appends one line.
proof fn lemma_error_lines_snoc(errors: Seq<(Seq<char>, Seq<char>)>, e: (Seq<char>, Seq<char>))
    ensures
        error_lines(errors.push(e)) == error_lines(errors) + ("  - "@ + e.0 + ": "@ + e.1 + "\n"@),
    decreases errors.len(),
{
    if errors.len() == 0 {
        assert(errors.push(e)[0] == e);
        assert(errors.push(e).drop_first() =~= Seq::<(Seq<char>, Seq<char>)>::empty());
        assert(error_lines(errors.push(e).drop_first()) == Seq::<char>::empty());
        assert(error_lines(errors) == Seq::<char>::empty());
        assert(error_lines(errors.push(e)) =~= error_lines(errors) + ("  - "@ + e.0 + ": "@ + e.1
            + "\n"@));
    } else {
        assert(errors.push(e).drop_first() =~= errors.drop_first().push(e));
        lemma_error_lines_snoc(errors.drop_first(), e);
        assert(error_lines(errors.push(e)) =~= error_lines(errors) + ("  - "@ + e.0 + ": "@ + e.1
            + "\n"@));
    }
}

/// The whole rendered report.
pub open spec fn summary_text(successes: nat, errors: Seq<(Seq<char>, Seq<char>)>) -> Seq<char> {
    summary_head(successes, errors.len()) + (if errors.len() > 0 {
        "\nErrors:\n"@ + error_lines(errors)
    } else {
        Seq::<char>::empty()
    })
}

/// Appending a pair appends its view.
pub proof fn lemma_pairs_view_push(v: Seq<(String, Vec<u8>)>, e: (String, Vec<u8>))
    ensures
        pairs_view(v.push(e)) == pairs_view(v).push((e.0@, e.1@)),
{
    assert(pairs_view(v.push(e)).len() == v.len() + 1);
    assert forall|j: int| 0 <= j < v.len() + 1 implies pairs_view(v.push(e))[j] == pairs_view(
        v,
    ).push((e.0@, e.1@))[j] by {
        assert(pairs_view(v.push(e))[j] == (v.push(e)[j].0@, v.push(e)[j].1@));
        if j < v.len() {
            assert(pairs_view(v)[j] == (v[j].0@, v[j].1@));
        }
    }
    assert(pairs_view(v.push(e)) =~= pairs_view(v).push((e.0@, e.1@)));
}

/// A first match at index `i` is what `lookup_spec` names.
pub proof fn lemma_lookup_at(es: Seq<(Seq<char>, Option<Seq<u8>>)>, path: Seq<char>, i: int)
    requires
        0 <= i < es.len(),
        es[i].0 == path,
        forall|j: int| 0 <= j < i ==> es[j].0 != path,
    ensures
        lookup_spec(es, path) == Some(es[i].1),
    decreases i,
{
    if i == 0 {
    } else {
        assert(es[0].0 != path);
        assert forall|j: int| 0 <= j < i - 1 implies es.drop_first()[j].0 != path by {
            assert(es.drop_first()[j] == es[j + 1]);
        }
        assert(es.drop_first()[i - 1] == es[i]);
        lemma_lookup_at(es.drop_first(), path, i - 1);
    }
}

/// When no entry carries the path, `lookup_spec` finds nothing.
proof fn lemma_lookup_none(es: Seq<(Seq<char>, Option<Seq<u8>>)>, path: Seq<char>)
    requires
        forall|j: int| 0 <= j < es.len() ==> es[j].0 != path,
    ensures
        lookup_spec(es, path) is None,
    decreases es.len(),
{
    if es.len() > 0 {
        assert forall|j: int| 0 <= j < es.drop_first().len() implies es.drop_first()[j].0
            != path by {
            assert(es.drop_first()[j] == es[j + 1]);
        }
        lemma_lookup_none(es.drop_first(), path);
    }
}

/// Finds the first entry named `path`.
fn lookup_entry<'a>(entries: &'a Vec<(String, Option<Vec<u8>>)>, path: &str) -> (r: Option<
    &'a Option<Vec<u8>>,
>)
    ensures
        match r {
            Some(b) => lookup_spec(opt_pairs_view(entries@), path@) == Some(
                match b {
                    Some(d) => Some(d@),
                    None => None,
                },
            ),
            None => lookup_spec(opt_pairs_view(entries@), path@) is None,
        },
{
    let target = string_to_chars(path);
    let mut i: usize = 0;
    while i < entries.len()
        invariant
            i <= entries@.len(),
            target@ == path@,
            forall|j: int| 0 <= j < i ==> opt_pairs_view(entries@)[j].0 != path@,
        decreases entries@.len() - i,
    {
        let name = string_to_chars(entries[i].0.as_str());
        if chars_eq(&name, &target) {
            proof {
                assert(opt_pairs_view(entries@)[i as int].0 == path@);
                lemma_lookup_at(opt_pairs_view(entries@), path@, i as int);
            }
            return Some(&entries[i].1);
        }
        proof {
            assert(opt_pairs_view(entries@)[i as int].0 == entries@[i as int].0@);
        }
        i = i + 1;
    }
    proof {
        lemma_lookup_none(opt_pairs_view(entries@), path@);
    }
    None
}

/// Appending one entry appends its knowledge-check diagnostics.
proof fn lemma_topic_errors_snoc(
    es: Seq<(Seq<char>, Option<Seq<u8>>)>,
    e: (Seq<char>, Option<Seq<u8>>),
)
    ensures
        topic_errors(es.push(e)) == topic_errors(es) + topic_entry_errors(e),
    decreases es.len(),
{
    if es.len() == 0 {
        assert(es.push(e)[0] == e);
        assert(es.push(e).drop_first() =~= Seq::<(Seq<char>, Option<Seq<u8>>)>::empty());
        assert(topic_errors(es.push(e).drop_first()) == Seq::<(Seq<char>, Seq<char>)>::empty());
        assert(topic_errors(es) == Seq::<(Seq<char>, Seq<char>)>::empty());
        assert(topic_errors(es.push(e)) =~= topic_errors(es) + topic_entry_errors(e));
    } else {
        assert(es.push(e).drop_first() =~= es.drop_first().push(e));
        lemma_topic_errors_snoc(es.drop_first(), e);
        assert(topic_errors(es.push(e)) =~= topic_errors(es) + topic_entry_errors(e));
    }
}

/// The package checker: a fixed rule per well-known artifact path, plus
/// the knowledge-check cross-checks on topic pages.
#[derive(Debug)]
pub struct OutputValidator {
    pub ready: bool,
}

impl OutputValidator {
    /// Prepares a validator with its fixed rule set.
    pub fn new() -> (r: OutputValidator)
        ensures
            r.ready,
    {
        OutputValidator { ready: true }
    }

    /// The rule for `scripts/navigation.js`: gating and state-update
    /// functions present, state recomputed close after content load,
    /// sidebar logging wired, and both answer checkers exposed.
    pub fn navigation_rule(&self, content: &str) -> (r: Result<(), String>)
        ensures
            match r {
                Ok(()) => nav_rule_error(content@) is None,
                Err(m) => nav_rule_error(content@) == Some(m@),
            },
    {
        let s = string_to_chars(content);
        let block = string_to_chars("shouldBlockNavigation()");
        if !contains_chars(&s, &block) {
            return Err(String::from_str("Navigation blocking function not found"));
        }
        let update = string_to_chars("updateNavigationState()");
        if !contains_chars(&s, &update) {
            return Err(String::from_str("Navigation state update not found"));
        }
        let then_block = string_to_chars(".then(html => {");
        proof {
            lemma_find_first_same(content@, ".then(html => {"@, 0);
        }
        let tb = match find_from(&s, &then_block, 0) {
            Some(tb) => tb,
            None => {
                return Err(String::from_str("navigateToPage then block not found"));
            },
        };
        let audio = string_to_chars("initializePageAudio(pageId)");
        proof {
            lemma_find_first_same(content@, "initializePageAudio(pageId)"@, tb as int);
        }
        let ap = match find_from(&s, &audio, tb) {
            Some(ap) => ap,
            None => {
                return Err(String::from_str("initializePageAudio not found in then block"));
            },
        };
        proof {
            lemma_find_first_same(content@, "updateNavigationState()"@, ap as int);
        }
        let np = match find_from(&s, &update, ap) {
            Some(np) => np,
            None => {
                return Err(String::from_str(
                    "updateNavigationState() not found after initializePageAudio in then block",
                ));
            },
        };
        if np - ap > 500 {
            return Err(String::from_str("updateNavigationState() too far from content load"));
        }
        let sidebar = string_to_chars("[SCORM Navigation] Sidebar click:");
        if !contains_chars(&s, &sidebar) {
            return Err(String::from_str("Sidebar navigation logging not found"));
        }
        let fill = string_to_chars("window.checkFillInBlank");
        if !contains_chars(&s, &fill) {
            return Err(String::from_str("Fill-in-blank check function not found"));
        }
        let multi = string_to_chars("window.checkMultipleChoice");
        if !contains_chars(&s, &multi) {
            return Err(String::from_str("Multiple choice check function not found"));
        }
        Ok(())
    }

    /// The rule for `styles/main.css`: no banned oversized rule, proper
    /// body height, footer styles and disabled navigation buttons.
    pub fn css_rule(&self, content: &str) -> (r: Result<(), String>)
        ensures
            match r {
                Ok(()) => css_rule_error(content@) is None,
                Err(m) => css_rule_error(content@) == Some(m@),
            },
    {
        let s = string_to_chars(content);
        let banned = string_to_chars("min-height: 800px !important");
        if contains_chars(&s, &banned) {
            return Err(String::from_str(
                "Found problematic min-height that pushes footer off screen",
            ));
        }
        let body = string_to_chars("body");
        let vh = string_to_chars("height: 100vh");
        if !contains_chars(&s, &body) || !contains_chars(&s, &vh) {
            return Err(String::from_str("Body missing proper height: 100vh"));
        }
        let footer = string_to_chars(".footer");
        if !contains_chars(&s, &footer) {
            return Err(String::from_str("Footer styles missing"));
        }
        let disabled = string_to_chars(".nav-button:disabled");
        if !contains_chars(&s, &disabled) {
            return Err(String::from_str("Disabled navigation button styles missing"));
        }
        Ok(())
    }

    /// The rule for `index.html`: both navigation buttons, the content
    /// container and the alert container present.
    pub fn html_rule(&self, content: &str) -> (r: Result<(), String>)
        ensures
            match r {
                Ok(()) => html_rule_error(content@) is None,
                Err(m) => html_rule_error(content@) == Some(m@),
            },
    {
        let s = string_to_chars(content);
        let prev = string_to_chars("id=\"prev-button\"");
        if !contains_chars(&s, &prev) {
            return Err(String::from_str("Previous button not found"));
        }
        let next = string_to_chars("id=\"next-button\"");
        if !contains_chars(&s, &next) {
            return Err(String::from_str("Next button not found"));
        }
        let container = string_to_chars("id=\"content-container\"");
        if !contains_chars(&s, &container) {
            return Err(String::from_str("Content container not found"));
        }
        let alert = string_to_chars("id=\"scorm-alert-container\"");
        if !contains_chars(&s, &alert) {
            return Err(String::from_str("Alert container not found"));
        }
        Ok(())
    }

    /// Checks one fixed file of the entry list and records the outcome.
    fn check_fixed_file(
        &self,
        report: &mut ValidationReport,
        entries: &Vec<(String, Option<Vec<u8>>)>,
        which: u8,
    )
        requires
            which == 0 || which == 1 || which == 2,
        ensures
            ({
                let path = fixed_path_spec(which);
                let o = fixed_outcome_spec(which, opt_pairs_view(entries@));
                &&& messages_view(final(report).errors@) == messages_view(old(report).errors@)
                    + outcome_errors(path, o)
                &&& messages_view(final(report).success@) == messages_view(old(report).success@)
                    + outcome_successes(path, o)
            }),
    {
        let path: &str = if which == 0 {
            "scripts/navigation.js"
        } else if which == 1 {
            "styles/main.css"
        } else {
            "index.html"
        };
        match lookup_entry(entries, path) {
            None => {
                report.add_error(
                    String::from_str(path),
                    String::from_str("File not found in package"),
                );
            },
            Some(None) => {
                report.add_error(
                    String::from_str(path),
                    String::from_str("File could not be read"),
                );
            },
            Some(Some(bytes)) => {
                match bytes_to_string(bytes.as_slice()) {
                    None => {
                        report.add_error(
                            String::from_str(path),
                            String::from_str("File is not valid UTF-8"),
                        );
                    },
                    Some(text) => {
                        let outcome = if which == 0 {
                            self.navigation_rule(text.as_str())
                        } else if which == 1 {
                            self.css_rule(text.as_str())
                        } else {
                            self.html_rule(text.as_str())
                        };
                        match outcome {
                            Ok(()) => {
                                report.add_success(
                                    String::from_str(path),
                                    String::from_str("Validation passed"),
                                );
                            },
                            Err(e) => {
                                report.add_error(String::from_str(path), e);
                            },
                        }
                    },
                }
            },
        }
        proof {
            assert(messages_view(report.errors@) =~= messages_view(old(report).errors@)
                + outcome_errors(
                fixed_path_spec(which),
                fixed_outcome_spec(which, opt_pairs_view(entries@)),
            ));
            assert(messages_view(report.success@) =~= messages_view(old(report).success@)
                + outcome_successes(
                fixed_path_spec(which),
                fixed_outcome_spec(which, opt_pairs_view(entries@)),
            ));
        }
    }

    /// Checks an entry list: the three fixed artifacts, then the
    /// knowledge-check cross-checks of every topic page.
    pub fn report_for_entries(&self, entries: &Vec<(String, Option<Vec<u8>>)>) -> (rep:
        ValidationReport)
        ensures
            messages_view(rep.errors@) == report_errors(opt_pairs_view(entries@)),
            messages_view(rep.success@) == report_successes(opt_pairs_view(entries@)),
    {
        let mut report = ValidationReport::new();
        proof {
            assert(messages_view(report.errors@) =~= Seq::<(Seq<char>, Seq<char>)>::empty());
            assert(messages_view(report.success@) =~= Seq::<(Seq<char>, Seq<char>)>::empty());
        }
        self.check_fixed_file(&mut report, entries, 0);
        self.check_fixed_file(&mut report, entries, 1);
        self.check_fixed_file(&mut report, entries, 2);
        let ghost fixed_errors = messages_view(report.errors@);
        let ghost fixed_successes = messages_view(report.success@);
        let topic_prefix = string_to_chars("pages/topic-");
        let html_suffix = string_to_chars(".html");
        let kc_marker = string_to_chars("knowledge-check-container");
        let fill_marker = string_to_chars("fill-blank-");
        let class_marker = string_to_chars("kc-fill-blank");
        let submit_marker = string_to_chars("onclick=\"window.submitAllKnowledgeChecks");
        let mut i: usize = 0;
        while i < entries.len()
            invariant
                i <= entries@.len(),
                topic_prefix@ == "pages/topic-"@,
                html_suffix@ == ".html"@,
                kc_marker@ == "knowledge-check-container"@,
                fill_marker@ == "fill-blank-"@,
                class_marker@ == "kc-fill-blank"@,
                submit_marker@ == "onclick=\"window.submitAllKnowledgeChecks"@,
                messages_view(report.errors@) == fixed_errors + topic_errors(
                    opt_pairs_view(entries@).subrange(0, i as int),
                ),
                messages_view(report.success@) == fixed_successes,
            decreases entries@.len() - i,
        {
            let name_chars = string_to_chars(entries[i].0.as_str());
            let ghost entry_view = opt_pairs_view(entries@)[i as int];
            proof {
                assert(entry_view == (
                    entries@[i as int].0@,
                    match entries@[i as int].1 {
                        Some(d) => Some(d@),
                        None => None,
                    },
                ));
            }
            if starts_with_exec(&name_chars, &topic_prefix) && ends_with_exec(
                &name_chars,
                &html_suffix,
            ) && entries[i].1.is_some() {
                let text = match &entries[i].1 {
                    Some(data) => match bytes_to_string(data.as_slice()) {
                        Some(t) => t,
                        None => String::new(),
                    },
                    None => String::new(),
                };
                proof {
                    assert(entry_view.1 matches Some(b) && text@ == page_text(b));
                }
                let text_chars = string_to_chars(text.as_str());
                if contains_chars(&text_chars, &kc_marker) {
                    let has_fill = contains_chars(&text_chars, &fill_marker);
                    if has_fill && !contains_chars(&text_chars, &class_marker) {
                        let ghost before_push = report.errors@;
                        report.add_error(
                            entries[i].0.clone(),
                            String::from_str("Fill-in-blank input missing proper class"),
                        );
                        proof {
                            assert(messages_view(report.errors@) =~= messages_view(
                                before_push,
                            ).push((entry_view.0, "Fill-in-blank input missing proper class"@)));
                        }
                    }
                    if has_fill && !contains_chars(&text_chars, &submit_marker) {
                        let ghost before_push = report.errors@;
                        report.add_error(
                            entries[i].0.clone(),
                            String::from_str(
                                "Fill-in-blank submit button missing proper onclick handler",
                            ),
                        );
                        proof {
                            assert(messages_view(report.errors@) =~= messages_view(
                                before_push,
                            ).push(
                                (
                                    entry_view.0,
                                    "Fill-in-blank submit button missing proper onclick handler"@,
                                ),
                            ));
                        }
                    }
                }
            }
            proof {
                lemma_topic_errors_snoc(
                    opt_pairs_view(entries@).subrange(0, i as int),
                    entry_view,
                );
                assert(opt_pairs_view(entries@).subrange(0, i + 1 as int) =~= opt_pairs_view(
                    entries@,
                ).subrange(0, i as int).push(entry_view));
                assert(messages_view(report.errors@) =~= fixed_errors + topic_errors(
                    opt_pairs_view(entries@).subrange(0, i as int),
                ) + topic_entry_errors(entry_view));
                assert(messages_view(report.errors@) =~= fixed_errors + topic_errors(
                    opt_pairs_view(entries@).subrange(0, i + 1 as int),
                ));
            }
            i = i + 1;
        }
        proof {
            assert(opt_pairs_view(entries@).subrange(0, entries@.len() as int) =~= opt_pairs_view(
                entries@,
            ));
            assert(messages_view(report.errors@) =~= report_errors(opt_pairs_view(entries@)));
            assert(messages_view(report.success@) =~= report_successes(opt_pairs_view(entries@)));
        }
        report
    }

    /// Re-opens an assembled package and checks it. Every failure is
    /// captured as a report entry rather than raised: bytes that do not
    /// form an archive, an entry that cannot be read, a checked file that
    /// is not text, and every rule failure all become diagnostics.
    pub fn validate_scorm_package(&self, zip_data: &[u8]) -> (rep: ValidationReport)
        ensures
            messages_view(rep.errors@) == report_errors_for(zip_data@),
            messages_view(rep.success@) == report_successes_for(zip_data@),
    {
        let mut reader = match PackageReader::open(zip_data) {
            Ok(a) => a,
            Err(_) => {
                let mut report = ValidationReport::new();
                report.add_error(
                    String::from_str("package"),
                    String::from_str("Failed to open ZIP archive"),
                );
                proof {
                    assert(messages_view(report.errors@) =~= report_errors_for(zip_data@));
                    assert(messages_view(report.success@) =~= report_successes_for(zip_data@));
                }
                return report;
            },
        };
        let n = reader.len();
        let mut entries: Vec<(String, Option<Vec<u8>>)> = Vec::new();
        let mut i: usize = 0;
        while i < n
            invariant
                i <= n,
                n == crate::archive::reader_entries(reader).len(),
                crate::archive::reader_entries(reader) == crate::archive::zip_entries(zip_data@),
                forall|j: int|
                    crate::archive::reader_entry_ok(reader, j) == crate::archive::zip_entry_ok(
                        zip_data@,
                        j,
                    ),
                opt_pairs_view(entries@) == entry_views(zip_data@).subrange(0, i as int),
            decreases n - i,
        {
            let entry = reader.entry_at(i);
            let ghost prev_entries = entries@;
            entries.push(entry);
            proof {
                assert(entries@ == prev_entries.push(entry));
                assert(opt_pairs_view(prev_entries).len() == prev_entries.len());
                assert(prev_entries.len() == i);
                assert(entries@.len() == i + 1);
                assert(opt_pairs_view(entries@).len() == entries@.len());
                assert forall|j: int| 0 <= j < i + 1 implies opt_pairs_view(entries@)[j]
                    == entry_views(zip_data@)[j] by {
                    assert(opt_pairs_view(entries@)[j] == (
                        entries@[j].0@,
                        match entries@[j].1 {
                            Some(d) => Some(d@),
                            None => None,
                        },
                    ));
                    if j < i {
                        assert(opt_pairs_view(prev_entries)[j] == (
                            prev_entries[j].0@,
                            match prev_entries[j].1 {
                                Some(d) => Some(d@),
                                None => None,
                            },
                        ));
                        assert(opt_pairs_view(prev_entries)[j] == entry_views(
                            zip_data@,
                        ).subrange(0, i as int)[j]);
                    }
                }
                assert(opt_pairs_view(entries@) =~= entry_views(zip_data@).subrange(
                    0,
                    i + 1 as int,
                ));
            }
            i = i + 1;
        }
        proof {
            assert(entry_views(zip_data@).subrange(0, entry_views(zip_data@).len() as int)
                =~= entry_views(zip_data@));
        }
        self.report_for_entries(&entries)
    }
}

/// The generated index shell passes the index-page rule, whatever the
/// course.
pub proof fn lemma_generated_index_rule_clean(r: crate::model::GenerateScormRequest)
    ensures
        html_rule_error(crate::html::index_text(r)) is None,
{
    crate::html::lemma_index_contains_required(r);
}

/// The generated stylesheet passes the output validator's stylesheet
/// rule, whatever the course settings.
pub proof fn lemma_generated_css_rule_clean(r: crate::model::GenerateScormRequest)
    ensures
        css_rule_error(crate::style::css_for_request(r)) is None,
{
    crate::style::lemma_generated_css_lacks_banned(r);
    crate::style::lemma_generated_css_contains_required(r);
}

/// The generated navigation script passes the output validator's
/// structural rule, and its state recompute follows the content-load
/// point, for every course whose topic ids and navigation-mode text hold
/// no parenthesis (as filesystem- and URL-safe ids do). An id quoting a
/// parenthesized call could shift the rule's first-occurrence search into
/// the table region, so those inputs are left out.
#[verifier::rlimit(60)]
pub proof fn lemma_generated_nav_rule_clean(r: crate::model::GenerateScormRequest)
    requires
        forall|i: int|
            0 <= i < r.topics@.len() ==> crate::text::lacks_char(
                #[trigger] r.topics@[i].id@,
                '(',
            ),
        crate::text::lacks_char(r.navigation_mode@, '('),
    ensures
        nav_rule_error(crate::navigation::nav_js_text(r)) is None,
        recompute_after_content_load(crate::navigation::nav_js_text(r)),
{
    let s = crate::navigation::nav_js_text(r);
    let p = crate::navigation::nav_prefix(r);
    let b = crate::navigation::nav_body();
    crate::navigation::lemma_nav_js_split(r);
    crate::navigation::lemma_nav_prefix_shape(r);
    crate::navigation::lemma_nav_body_positions();
    crate::navigation::lemma_nav_body_contains();
    let then_n = ".then(html => {"@;
    let audio_n = "initializePageAudio(pageId)"@;
    let update_n = "updateNavigationState()"@;
    reveal_strlit(".then(html => {");
    reveal_strlit("initializePageAudio(pageId)");
    reveal_strlit("updateNavigationState()");
    crate::navigation::lemma_lift_nav_body(r, "shouldBlockNavigation()"@);
    crate::navigation::lemma_lift_nav_body(r, "[SCORM Navigation] Sidebar click:"@);
    crate::navigation::lemma_lift_nav_body(r, "window.checkFillInBlank ="@);
    crate::navigation::lemma_lift_nav_body(r, "window.checkMultipleChoice ="@);
    reveal_strlit("window.checkFillInBlank =");
    reveal_strlit("window.checkFillInBlank");
    reveal_strlit("window.checkMultipleChoice =");
    reveal_strlit("window.checkMultipleChoice");
    assert(crate::text::occurs_at("window.checkFillInBlank ="@, "window.checkFillInBlank"@, 0))
        by {
        assert("window.checkFillInBlank ="@.subrange(0, 23) =~= "window.checkFillInBlank"@);
    }
    crate::text::lemma_sub_occurrence(s, "window.checkFillInBlank ="@, "window.checkFillInBlank"@, 0);
    assert(crate::text::occurs_at(
        "window.checkMultipleChoice ="@,
        "window.checkMultipleChoice"@,
        0,
    )) by {
        assert("window.checkMultipleChoice ="@.subrange(0, 26) =~= "window.checkMultipleChoice"@);
    }
    crate::text::lemma_sub_occurrence(
        s,
        "window.checkMultipleChoice ="@,
        "window.checkMultipleChoice"@,
        0,
    );
    assert(contains_seq(b, update_n)) by {
        assert(crate::text::occurs_at(b, update_n, 1110));
    }
    crate::navigation::lemma_lift_nav_body(r, update_n);
    crate::text::lemma_occurs_right(p, b, then_n, 878);
    crate::text::lemma_occurs_right(p, b, audio_n, 1034);
    crate::text::lemma_occurs_right(p, b, update_n, 1110);
    let tb: int = p.len() as int + 878;
    let ap: int = p.len() as int + 1034;
    let np: int = p.len() as int + 1110;
    crate::navigation::lemma_no_needle_start_in_prefix(p, b, then_n, 5);
    assert forall|k: int| 0 <= k < tb implies !crate::text::occurs_at(s, then_n, k) by {
        if crate::text::occurs_at(s, then_n, k) && k >= p.len() {
            crate::navigation::lemma_occurs_right_inv(p, b, then_n, k);
        }
    }
    lemma_find_first_same(s, then_n, 0);
    assert(find_first_from(s, then_n, 0) == Some(tb));
    assert forall|k: int| tb <= k < ap implies !crate::text::occurs_at(s, audio_n, k) by {
        if crate::text::occurs_at(s, audio_n, k) {
            crate::navigation::lemma_occurs_right_inv(p, b, audio_n, k);
        }
    }
    lemma_find_first_same(s, audio_n, tb);
    assert(find_first_from(s, audio_n, tb) == Some(ap));
    assert forall|k: int| ap <= k < np implies !crate::text::occurs_at(s, update_n, k) by {
        if crate::text::occurs_at(s, update_n, k) {
            crate::navigation::lemma_occurs_right_inv(p, b, update_n, k);
        }
    }
    lemma_find_first_same(s, update_n, ap);
    assert(find_first_from(s, update_n, ap) == Some(np));
    assert(np - ap <= 500);
}

/// Every diagnostic the validator reports for a package's bytes: bytes
/// that are no archive yield the one opening diagnostic; otherwise the
/// entry list's diagnostics.
pub open spec fn report_errors_for(bytes: Seq<u8>) -> Seq<(Seq<char>, Seq<char>)> {
    if crate::archive::zip_wf(bytes) {
        report_errors(entry_views(bytes))
    } else {
        seq![("package"@, "Failed to open ZIP archive"@)]
    }
}

/// Every pass entry the validator reports for a package's bytes.
pub open spec fn report_successes_for(bytes: Seq<u8>) -> Seq<(Seq<char>, Seq<char>)> {
    if crate::archive::zip_wf(bytes) {
        report_successes(entry_views(bytes))
    } else {
        Seq::<(Seq<char>, Seq<char>)>::empty()
    }
}

/// A page text the knowledge-check cross-checks accept: wherever a
/// fill-in-blank input id appears, the expected input class and the
/// unified submit wiring appear too.
pub open spec fn page_cross_ok(s: Seq<char>) -> bool {
    contains_seq(s, "fill-blank-"@) ==> (contains_seq(s, "kc-fill-blank"@) && contains_seq(
        s,
        "onclick=\"window.submitAllKnowledgeChecks"@,
    ))
}

/// When every entry contributes no cross-check diagnostic, the whole
/// entry list contributes none.
pub proof fn lemma_topic_errors_all_empty(es: Seq<(Seq<char>, Option<Seq<u8>>)>)
    requires
        forall|i: int|
            0 <= i < es.len() ==> topic_entry_errors(#[trigger] es[i]) == Seq::<
                (Seq<char>, Seq<char>),
            >::empty(),
    ensures
        topic_errors(es) == Seq::<(Seq<char>, Seq<char>)>::empty(),
    decreases es.len(),
{
    if es.len() > 0 {
        assert(topic_entry_errors(es[0]) == Seq::<(Seq<char>, Seq<char>)>::empty());
        assert forall|i: int|
            0 <= i < es.drop_first().len() implies topic_entry_errors(#[trigger] es.drop_first()[i])
            == Seq::<(Seq<char>, Seq<char>)>::empty() by {
            assert(es.drop_first()[i] == es[i + 1]);
        }
        lemma_topic_errors_all_empty(es.drop_first());
        assert(topic_errors(es) =~= Seq::<(Seq<char>, Seq<char>)>::empty());
    }
}

/// The path of a fixed-rule artifact, by rule number.
pub open spec fn fixed_path_spec(which: u8) -> Seq<char> {
    if which == 0 {
        "scripts/navigation.js"@
    } else if which == 1 {
        "styles/main.css"@
    } else {
        "index.html"@
    }
}

/// The outcome of a fixed-rule artifact, by rule number.
pub open spec fn fixed_outcome_spec(which: u8, es: Seq<(Seq<char>, Option<Seq<u8>>)>) -> FileOutcome {
    if which == 0 {
        nav_file_outcome(es)
    } else if which == 1 {
        css_file_outcome(es)
    } else {
        html_file_outcome(es)
    }
}

} // verus!
