//! The navigation-script generator: renders the client-side page-navigation
//! and gating logic, with a per-topic knowledge-check table, and lints
//! navigation scripts against the required structure.
use vstd::prelude::*;
use vstd::string::StringExecFns;
use crate::model::{topic_has_check, topic_has_check_exec, GenerateScormRequest, Topic};
use crate::text::{
    append_bool, append_chars, append_str, bool_text, chars_to_string, contains_chars,
    contains_seq, dec_digits, lacks_char, lemma_contains_concat, lemma_lacks_char_concat,
    lemma_occurs_index, lemma_occurs_right, lemma_occurs_self, occurs_at, string_to_chars,
    u32_dec_chars,
};

verus! {

/// The opening of the script: the knowledge-check table declaration.
pub open spec fn nav_head() -> Seq<char> {
    "const PAGES_WITH_KNOWLEDGE_CHECKS = {\n"@
}

/// One table entry: the topic id mapped to whether it gates navigation.
pub open spec fn nav_entry(t: Topic) -> Seq<char> {
    "    '"@ + t.id@ + "': "@ + bool_text(topic_has_check(t)) + ",\n"@
}

/// The table entries of all topics, in order.
pub open spec fn nav_entries(ts: Seq<Topic>) -> Seq<char>
    decreases ts.len(),
{
    if ts.len() == 0 {
        Seq::empty()
    } else {
        nav_entry(ts[0]) + nav_entries(ts.drop_first())
    }
}

/// The navigation machinery itself; a fixed text.
pub open spec fn nav_body() -> Seq<char> {
    ";\nlet currentPageId = 'welcome';\nconst pageStatus = {};\n\nfunction initializeNavigation() {\n  const links = document.querySelectorAll('.sidebar-link');\n  links.forEach(function (link) {\n    link.addEventListener('click', function () {\n      console.log('[SCORM Navigation] Sidebar click:', link.getAttribute('data-page'));\n      navigateToPage(link.getAttribute('data-page'));\n    });\n  });\n  updateNavigationState();\n}\n\nfunction shouldBlockNavigation() {\n  if (NAVIGATION_MODE === 'linear' && PAGES_WITH_KNOWLEDGE_CHECKS[currentPageId] === true && pageStatus[currentPageId] !== 'passed') {\n    return true;\n  }\n  return false;\n}\n\nfunction navigateToPage(pageId) {\n  if (shouldBlockNavigation()) {\n    showAlert('Complete the knowledge check before moving on.');\n    return;\n  }\n  fetch('pages/' + pageId + '.html')\n    .then(function (response) { return response.text(); })\n    .then(html => {\n      const container = document.getElementById('content-container');\n      container.innerHTML = html;\n      currentPageId = pageId;\n      initializePageAudio(pageId);\n      initializeKnowledgeChecks(pageId);\n      updateNavigationState();\n      updateProgress();\n    });\n}\n\nfunction updateNavigationState() {\n  const prev = document.getElementById('prev-button');\n  const next = document.getElementById('next-button');\n  if (prev) { prev.disabled = currentPageId === 'welcome'; }\n  if (next) { next.disabled = shouldBlockNavigation(); }\n}\n\nfunction initializePageAudio(pageId) {\n  const audio = document.getElementById('narration-audio');\n  if (audio) { audio.load(); }\n}\n\nfunction initializeKnowledgeChecks(pageId) {\n  const container = document.getElementById('content-container');\n  if (!container) { return; }\n  const checks = container.querySelectorAll('.knowledge-check-container');\n  checks.forEach(function (check) { check.dataset.ready = 'true'; });\n}\n\nfunction updateProgress() {\n  const indicator = document.querySelector('.progress-circle-container');\n  if (indicator) { indicator.dataset.page = currentPageId; }\n}\n\nfunction showAlert(message) {\n  const container = document.getElementById('scorm-alert-container');\n  if (container) { container.textContent = message; }\n}\n\nwindow.checkMultipleChoice = function (questionIndex, selected, correct) {\n  return String(selected) === String(correct);\n};\n\nwindow.checkFillInBlank = function (questionIndex, value, correct) {\n  return value.trim().toLowerCase() === correct.trim().toLowerCase();\n};\n\nwindow.submitAllKnowledgeChecks = function (pageId) {\n  const total = document.querySelectorAll('.kc-question').length;\n  const correct = document.querySelectorAll('.kc-question[data-correct=\"true\"]').length;\n  const score = total === 0 ? 100 : Math.round((correct * 100) / total);\n  if (score >= PASS_MARK) { pageStatus[pageId] = 'passed'; }\n  updateNavigationState();\n};\n\ndocument.addEventListener('DOMContentLoaded', initializeNavigation);\n"@
}

/// The whole navigation script for a course.
pub open spec fn nav_js_text(r: GenerateScormRequest) -> Seq<char> {
    nav_head() + nav_entries(r.topics@) + nav_tail(
        r.pass_mark,
        r.learning_objectives_page is Some,
        r.navigation_mode@,
    )
}

/// Everything after the table entries: pass mark, flags and the machinery.
pub open spec fn nav_tail(pass_mark: u32, has_objectives: bool, mode: Seq<char>) -> Seq<char> {
    "};\nconst PASS_MARK = "@ + dec_digits(pass_mark as nat) + ";\nconst HAS_OBJECTIVES = "@
        + bool_text(has_objectives) + ";\nconst NAVIGATION_MODE = '"@ + mode + "'"@ + nav_body()
}

/// The navigation-script renderer and linter.
#[derive(Debug)]
pub struct NavigationGenerator {
    pub ready: bool,
}

impl NavigationGenerator {
    /// Prepares a navigation generator; preparation cannot fail here.
    pub fn new() -> (r: Result<NavigationGenerator, String>)
        ensures
            r is Ok,
    {
        Ok(NavigationGenerator { ready: true })
    }

    /// Renders the navigation script; the text is exactly `nav_js_text`.
    pub fn generate_navigation_js(&self, request: &GenerateScormRequest) -> (r: Result<
        String,
        String,
    >)
        ensures
            match r {
                Ok(text) => text@ == nav_js_text(*request),
                Err(_) => false,
            },
    {
        let mut out: Vec<char> = Vec::new();
        append_str(&mut out, "const PAGES_WITH_KNOWLEDGE_CHECKS = {\n");
        let mut i: usize = 0;
        while i < request.topics.len()
            invariant
                i <= request.topics@.len(),
                out@ == nav_head() + nav_entries(request.topics@.subrange(0, i as int)),
            decreases request.topics@.len() - i,
        {
            let t = &request.topics[i];
            append_str(&mut out, "    '");
            append_str(&mut out, t.id.as_str());
            append_str(&mut out, "': ");
            append_bool(&mut out, topic_has_check_exec(t));
            append_str(&mut out, ",\n");
            proof {
                lemma_nav_entries_snoc(request.topics@.subrange(0, i as int), request.topics@[i as int]);
                assert(request.topics@.subrange(0, i + 1 as int) =~= request.topics@.subrange(
                    0,
                    i as int,
                ).push(request.topics@[i as int]));
                assert(out@ =~= nav_head() + nav_entries(request.topics@.subrange(0, i + 1 as int)));
            }
            i = i + 1;
        }
        proof {
            assert(request.topics@.subrange(0, request.topics@.len() as int) =~= request.topics@);
        }
        append_str(&mut out, "};\nconst PASS_MARK = ");
        let digits = u32_dec_chars(request.pass_mark);
        append_chars(&mut out, &digits);
        append_str(&mut out, ";\nconst HAS_OBJECTIVES = ");
        let has_obj = match &request.learning_objectives_page {
            Some(_) => true,
            None => false,
        };
        append_bool(&mut out, has_obj);
        append_str(&mut out, ";\nconst NAVIGATION_MODE = '");
        append_str(&mut out, request.navigation_mode.as_str());
        append_str(&mut out, "'");
        append_str(
            &mut out,
            ";\nlet currentPageId = 'welcome';\nconst pageStatus = {};\n\nfunction initializeNavigation() {\n  const links = document.querySelectorAll('.sidebar-link');\n  links.forEach(function (link) {\n    link.addEventListener('click', function () {\n      console.log('[SCORM Navigation] Sidebar click:', link.getAttribute('data-page'));\n      navigateToPage(link.getAttribute('data-page'));\n    });\n  });\n  updateNavigationState();\n}\n\nfunction shouldBlockNavigation() {\n  if (NAVIGATION_MODE === 'linear' && PAGES_WITH_KNOWLEDGE_CHECKS[currentPageId] === true && pageStatus[currentPageId] !== 'passed') {\n    return true;\n  }\n  return false;\n}\n\nfunction navigateToPage(pageId) {\n  if (shouldBlockNavigation()) {\n    showAlert('Complete the knowledge check before moving on.');\n    return;\n  }\n  fetch('pages/' + pageId + '.html')\n    .then(function (response) { return response.text(); })\n    .then(html => {\n      const container = document.getElementById('content-container');\n      container.innerHTML = html;\n      currentPageId = pageId;\n      initializePageAudio(pageId);\n      initializeKnowledgeChecks(pageId);\n      updateNavigationState();\n      updateProgress();\n    });\n}\n\nfunction updateNavigationState() {\n  const prev = document.getElementById('prev-button');\n  const next = document.getElementById('next-button');\n  if (prev) { prev.disabled = currentPageId === 'welcome'; }\n  if (next) { next.disabled = shouldBlockNavigation(); }\n}\n\nfunction initializePageAudio(pageId) {\n  const audio = document.getElementById('narration-audio');\n  if (audio) { audio.load(); }\n}\n\nfunction initializeKnowledgeChecks(pageId) {\n  const container = document.getElementById('content-container');\n  if (!container) { return; }\n  const checks = container.querySelectorAll('.knowledge-check-container');\n  checks.forEach(function (check) { check.dataset.ready = 'true'; });\n}\n\nfunction updateProgress() {\n  const indicator = document.querySelector('.progress-circle-container');\n  if (indicator) { indicator.dataset.page = currentPageId; }\n}\n\nfunction showAlert(message) {\n  const container = document.getElementById('scorm-alert-container');\n  if (container) { container.textContent = message; }\n}\n\nwindow.checkMultipleChoice = function (questionIndex, selected, correct) {\n  return String(selected) === String(correct);\n};\n\nwindow.checkFillInBlank = function (questionIndex, value, correct) {\n  return value.trim().toLowerCase() === correct.trim().toLowerCase();\n};\n\nwindow.submitAllKnowledgeChecks = function (pageId) {\n  const total = document.querySelectorAll('.kc-question').length;\n  const correct = document.querySelectorAll('.kc-question[data-correct=\"true\"]').length;\n  const score = total === 0 ? 100 : Math.round((correct * 100) / total);\n  if (score >= PASS_MARK) { pageStatus[pageId] = 'passed'; }\n  updateNavigationState();\n};\n\ndocument.addEventListener('DOMContentLoaded', initializeNavigation);\n",
        );
        proof {
            assert(out@ =~= nav_js_text(*request));
        }
        Ok(chars_to_string(&out))
    }

    /// Lints a navigation script for the required functions, gating call,
    /// state-update placement and sidebar logging; the error list is exactly
    /// `nav_lint_errors` of the text.
    pub fn validate_navigation_js(&self, js_content: &str) -> (r: Result<(), Vec<String>>)
        ensures
            match r {
                Ok(()) => nav_lint_errors(js_content@).len() == 0,
                Err(errs) => errs.deep_view() == nav_lint_errors(js_content@) && errs@.len() > 0,
            },
    {
        let s = string_to_chars(js_content);
        let mut errs: Vec<String> = Vec::new();
        push_missing_fn(
            &mut errs,
            &s,
            "function updateNavigationState",
            "window.updateNavigationState =",
            "Missing required function: updateNavigationState",
        );
        push_missing_fn(
            &mut errs,
            &s,
            "function shouldBlockNavigation",
            "window.shouldBlockNavigation =",
            "Missing required function: shouldBlockNavigation",
        );
        push_missing_fn(
            &mut errs,
            &s,
            "function navigateToPage",
            "window.navigateToPage =",
            "Missing required function: navigateToPage",
        );
        push_missing_fn(
            &mut errs,
            &s,
            "function checkMultipleChoice",
            "window.checkMultipleChoice =",
            "Missing required function: checkMultipleChoice",
        );
        push_missing_fn(
            &mut errs,
            &s,
            "function checkFillInBlank",
            "window.checkFillInBlank =",
            "Missing required function: checkFillInBlank",
        );
        push_missing_fn(
            &mut errs,
            &s,
            "function initializeNavigation",
            "window.initializeNavigation =",
            "Missing required function: initializeNavigation",
        );
        let block = string_to_chars("shouldBlockNavigation()");
        let missing_block = !contains_chars(&s, &block);
        push_check(
            &mut errs,
            missing_block,
            "Navigation blocking check not found in navigation flow",
        );
        let audio = string_to_chars("initializePageAudio(pageId);");
        let update = string_to_chars("updateNavigationState();");
        let missing_update = !(contains_chars(&s, &audio) && contains_chars(&s, &update));
        push_check(
            &mut errs,
            missing_update,
            "Navigation state update not properly placed after content load",
        );
        let sidebar = string_to_chars("[SCORM Navigation] Sidebar click:");
        let missing_sidebar = !contains_chars(&s, &sidebar);
        push_check(&mut errs, missing_sidebar, "Sidebar navigation logging not found");
        proof {
            assert(errs.deep_view() =~~= nav_lint_errors(js_content@));
        }
        if errs.len() == 0 {
            Ok(())
        } else {
            Err(errs)
        }
    }
}

/// Appends the missing-function diagnostic for one required function when
/// neither its declaration nor its assignment appears in the script.
fn push_missing_fn(errs: &mut Vec<String>, s: &Vec<char>, decl: &str, assign: &str, msg: &str)
    ensures
        final(errs).deep_view() == old(errs).deep_view() + missing_fn_error(
            s@,
            decl@,
            assign@,
            msg@,
        ),
{
    let d = string_to_chars(decl);
    let a = string_to_chars(assign);
    let missing = !contains_chars(s, &d) && !contains_chars(s, &a);
    push_check(errs, missing, msg);
}

/// Appends `msg` to the diagnostics when `missing` holds.
fn push_check(errs: &mut Vec<String>, missing: bool, msg: &str)
    ensures
        final(errs).deep_view() == old(errs).deep_view() + (if missing {
            seq![msg@]
        } else {
            Seq::<Seq<char>>::empty()
        }),
{
    if missing {
        errs.push(String::from_str(msg));
        proof {
            assert(errs.deep_view() =~~= old(errs).deep_view() + seq![msg@]);
        }
    } else {
        proof {
            assert(errs.deep_view() =~~= old(errs).deep_view() + Seq::<Seq<char>>::empty());
        }
    }
}

/// The lint checks of `validate_navigation_js`, in order.
pub open spec fn nav_lint_errors(s: Seq<char>) -> Seq<Seq<char>> {
    missing_fn_error(
        s,
        "function updateNavigationState"@,
        "window.updateNavigationState ="@,
        "Missing required function: updateNavigationState"@,
    ) + missing_fn_error(
        s,
        "function shouldBlockNavigation"@,
        "window.shouldBlockNavigation ="@,
        "Missing required function: shouldBlockNavigation"@,
    ) + missing_fn_error(
        s,
        "function navigateToPage"@,
        "window.navigateToPage ="@,
        "Missing required function: navigateToPage"@,
    ) + missing_fn_error(
        s,
        "function checkMultipleChoice"@,
        "window.checkMultipleChoice ="@,
        "Missing required function: checkMultipleChoice"@,
    ) + missing_fn_error(
        s,
        "function checkFillInBlank"@,
        "window.checkFillInBlank ="@,
        "Missing required function: checkFillInBlank"@,
    ) + missing_fn_error(
        s,
        "function initializeNavigation"@,
        "window.initializeNavigation ="@,
        "Missing required function: initializeNavigation"@,
    ) + (if !contains_seq(s, "shouldBlockNavigation()"@) {
        seq!["Navigation blocking check not found in navigation flow"@]
    } else {
        Seq::<Seq<char>>::empty()
    }) + (if !(contains_seq(s, "initializePageAudio(pageId);"@) && contains_seq(
        s,
        "updateNavigationState();"@,
    )) {
        seq!["Navigation state update not properly placed after content load"@]
    } else {
        Seq::<Seq<char>>::empty()
    }) + (if !contains_seq(s, "[SCORM Navigation] Sidebar click:"@) {
        seq!["Sidebar navigation logging not found"@]
    } else {
        Seq::<Seq<char>>::empty()
    })
}

/// The lint contribution of one required function.
pub open spec fn missing_fn_error(
    s: Seq<char>,
    decl: Seq<char>,
    assign: Seq<char>,
    message: Seq<char>,
) -> Seq<Seq<char>> {
    if !contains_seq(s, decl) && !contains_seq(s, assign) {
        seq![message]
    } else {
        Seq::<Seq<char>>::empty()
    }
}

/// The fixed navigation machinery holds every required function and call.
pub proof fn lemma_nav_body_contains()
    ensures
        contains_seq(nav_body(), "function updateNavigationState"@),
        contains_seq(nav_body(), "function shouldBlockNavigation"@),
        contains_seq(nav_body(), "function navigateToPage"@),
        contains_seq(nav_body(), "window.checkMultipleChoice ="@),
        contains_seq(nav_body(), "window.checkFillInBlank ="@),
        contains_seq(nav_body(), "function initializeNavigation"@),
        contains_seq(nav_body(), "shouldBlockNavigation()"@),
        contains_seq(nav_body(), "initializePageAudio(pageId);"@),
        contains_seq(nav_body(), "updateNavigationState();"@),
        contains_seq(nav_body(), "[SCORM Navigation] Sidebar click:"@),
{
    reveal_strlit(
        ";\nlet currentPageId = 'welcome';\nconst pageStatus = {};\n\nfunction initializeNavigation() {\n  const links = document.querySelectorAll('.sidebar-link');\n  links.forEach(function (link) {\n    link.addEventListener('click', function () {\n      console.log('[SCORM Navigation] Sidebar click:', link.getAttribute('data-page'));\n      navigateToPage(link.getAttribute('data-page'));\n    });\n  });\n  updateNavigationState();\n}\n\nfunction shouldBlockNavigation() {\n  if (NAVIGATION_MODE === 'linear' && PAGES_WITH_KNOWLEDGE_CHECKS[currentPageId] === true && pageStatus[currentPageId] !== 'passed') {\n    return true;\n  }\n  return false;\n}\n\nfunction navigateToPage(pageId) {\n  if (shouldBlockNavigation()) {\n    showAlert('Complete the knowledge check before moving on.');\n    return;\n  }\n  fetch('pages/' + pageId + '.html')\n    .then(function (response) { return response.text(); })\n    .then(html => {\n      const container = document.getElementById('content-container');\n      container.innerHTML = html;\n      currentPageId = pageId;\n      initializePageAudio(pageId);\n      initializeKnowledgeChecks(pageId);\n      updateNavigationState();\n      updateProgress();\n    });\n}\n\nfunction updateNavigationState() {\n  const prev = document.getElementById('prev-button');\n  const next = document.getElementById('next-button');\n  if (prev) { prev.disabled = currentPageId === 'welcome'; }\n  if (next) { next.disabled = shouldBlockNavigation(); }\n}\n\nfunction initializePageAudio(pageId) {\n  const audio = document.getElementById('narration-audio');\n  if (audio) { audio.load(); }\n}\n\nfunction initializeKnowledgeChecks(pageId) {\n  const container = document.getElementById('content-container');\n  if (!container) { return; }\n  const checks = container.querySelectorAll('.knowledge-check-container');\n  checks.forEach(function (check) { check.dataset.ready = 'true'; });\n}\n\nfunction updateProgress() {\n  const indicator = document.querySelector('.progress-circle-container');\n  if (indicator) { indicator.dataset.page = currentPageId; }\n}\n\nfunction showAlert(message) {\n  const container = document.getElementById('scorm-alert-container');\n  if (container) { container.textContent = message; }\n}\n\nwindow.checkMultipleChoice = function (questionIndex, selected, correct) {\n  return String(selected) === String(correct);\n};\n\nwindow.checkFillInBlank = function (questionIndex, value, correct) {\n  return value.trim().toLowerCase() === correct.trim().toLowerCase();\n};\n\nwindow.submitAllKnowledgeChecks = function (pageId) {\n  const total = document.querySelectorAll('.kc-question').length;\n  const correct = document.querySelectorAll('.kc-question[data-correct=\"true\"]').length;\n  const score = total === 0 ? 100 : Math.round((correct * 100) / total);\n  if (score >= PASS_MARK) { pageStatus[pageId] = 'passed'; }\n  updateNavigationState();\n};\n\ndocument.addEventListener('DOMContentLoaded', initializeNavigation);\n",
    );
    reveal_strlit("function updateNavigationState");
    reveal_strlit("function shouldBlockNavigation");
    reveal_strlit("function navigateToPage");
    reveal_strlit("window.checkMultipleChoice =");
    reveal_strlit("window.checkFillInBlank =");
    reveal_strlit("function initializeNavigation");
    reveal_strlit("shouldBlockNavigation()");
    reveal_strlit("initializePageAudio(pageId);");
    reveal_strlit("updateNavigationState();");
    reveal_strlit("[SCORM Navigation] Sidebar click:");
    assert(occurs_at(nav_body(), "function updateNavigationState"@, 1170)) by {
        assert(nav_body().subrange(1170, 1200) =~= "function updateNavigationState"@);
    }
    assert(occurs_at(nav_body(), "function shouldBlockNavigation"@, 420)) by {
        assert(nav_body().subrange(420, 450) =~= "function shouldBlockNavigation"@);
    }
    assert(occurs_at(nav_body(), "function navigateToPage"@, 630)) by {
        assert(nav_body().subrange(630, 653) =~= "function navigateToPage"@);
    }
    assert(occurs_at(nav_body(), "window.checkMultipleChoice ="@, 2181)) by {
        assert(nav_body().subrange(2181, 2209) =~= "window.checkMultipleChoice ="@);
    }
    assert(occurs_at(nav_body(), "window.checkFillInBlank ="@, 2307)) by {
        assert(nav_body().subrange(2307, 2332) =~= "window.checkFillInBlank ="@);
    }
    assert(occurs_at(nav_body(), "function initializeNavigation"@, 57)) by {
        assert(nav_body().subrange(57, 86) =~= "function initializeNavigation"@);
    }
    assert(occurs_at(nav_body(), "shouldBlockNavigation()"@, 429)) by {
        assert(nav_body().subrange(429, 452) =~= "shouldBlockNavigation()"@);
    }
    assert(occurs_at(nav_body(), "initializePageAudio(pageId);"@, 1034)) by {
        assert(nav_body().subrange(1034, 1062) =~= "initializePageAudio(pageId);"@);
    }
    assert(occurs_at(nav_body(), "updateNavigationState();"@, 392)) by {
        assert(nav_body().subrange(392, 416) =~= "updateNavigationState();"@);
    }
    assert(occurs_at(nav_body(), "[SCORM Navigation] Sidebar click:"@, 253)) by {
        assert(nav_body().subrange(253, 286) =~= "[SCORM Navigation] Sidebar click:"@);
    }
}

/// A needle contained in the fixed machinery is contained in the whole
/// script.
pub proof fn lemma_lift_nav_body(r: GenerateScormRequest, n: Seq<char>)
    requires
        contains_seq(nav_body(), n),
    ensures
        contains_seq(nav_js_text(r), n),
{
    let pm = r.pass_mark;
    let ho = r.learning_objectives_page is Some;
    let mode = r.navigation_mode@;
    lemma_contains_concat(
        "};\nconst PASS_MARK = "@ + dec_digits(pm as nat) + ";\nconst HAS_OBJECTIVES = "@
            + bool_text(ho) + ";\nconst NAVIGATION_MODE = '"@ + mode + "'"@,
        nav_body(),
        n,
    );
    lemma_contains_concat(nav_head() + nav_entries(r.topics@), nav_tail(pm, ho, mode), n);
}

/// The generated navigation script passes every lint check, whatever the
/// course: the required functions, the gating call, the state-update
/// placement marks and the sidebar logging are all present.
#[verifier::rlimit(100)]
pub proof fn lemma_generated_nav_lint_clean(r: GenerateScormRequest)
    ensures
        nav_lint_errors(nav_js_text(r)).len() == 0,
{
    lemma_nav_body_contains();
    lemma_lift_nav_body(r, "function updateNavigationState"@);
    lemma_lift_nav_body(r, "function shouldBlockNavigation"@);
    lemma_lift_nav_body(r, "function navigateToPage"@);
    lemma_lift_nav_body(r, "window.checkMultipleChoice ="@);
    lemma_lift_nav_body(r, "window.checkFillInBlank ="@);
    lemma_lift_nav_body(r, "function initializeNavigation"@);
    lemma_lift_nav_body(r, "shouldBlockNavigation()"@);
    lemma_lift_nav_body(r, "initializePageAudio(pageId);"@);
    lemma_lift_nav_body(r, "updateNavigationState();"@);
    lemma_lift_nav_body(r, "[SCORM Navigation] Sidebar click:"@);
    assert(nav_lint_errors(nav_js_text(r)) =~= Seq::<Seq<char>>::empty());
}

/// Appending one topic appends one table entry.
pub proof fn lemma_nav_entries_snoc(ts: Seq<Topic>, t: Topic)
    ensures
        nav_entries(ts.push(t)) == nav_entries(ts) + nav_entry(t),
    decreases ts.len(),
{
    if ts.len() == 0 {
        assert(ts.push(t)[0] == t);
        assert(ts.push(t).drop_first() =~= Seq::<Topic>::empty());
        assert(nav_entries(ts.push(t).drop_first()) == Seq::<char>::empty());
        assert(nav_entries(ts) == Seq::<char>::empty());
        assert(nav_entries(ts.push(t)) == nav_entry(t) + Seq::<char>::empty());
        assert(nav_entry(t) + Seq::<char>::empty() =~= Seq::<char>::empty() + nav_entry(t));
    } else {
        assert(ts.push(t).drop_first() =~= ts.drop_first().push(t));
        lemma_nav_entries_snoc(ts.drop_first(), t);
        assert(nav_entry(ts.push(t)[0]) + (nav_entries(ts.drop_first()) + nav_entry(t)) =~= (
        nav_entry(ts[0]) + nav_entries(ts.drop_first())) + nav_entry(t));
    }
}

/// The table region holds the entry of every topic.
pub proof fn lemma_nav_entries_contains(ts: Seq<Topic>, i: int)
    requires
        0 <= i < ts.len(),
    ensures
        contains_seq(nav_entries(ts), nav_entry(ts[i])),
    decreases i,
{
    if i == 0 {
        lemma_occurs_self(nav_entry(ts[0]));
        lemma_contains_concat(nav_entry(ts[0]), nav_entries(ts.drop_first()), nav_entry(ts[0]));
    } else {
        lemma_nav_entries_contains(ts.drop_first(), i - 1);
        assert(ts.drop_first()[i - 1] == ts[i]);
        lemma_contains_concat(nav_entry(ts[0]), nav_entries(ts.drop_first()), nav_entry(ts[i]));
    }
}

/// The navigation script marks exactly the topics with a live knowledge
/// check: for every topic, the script holds the table line binding that
/// topic's id to `true` when it carries an enabled, non-empty knowledge
/// check, and to `false` otherwise.
pub proof fn lemma_nav_table_entries(r: GenerateScormRequest, i: int)
    requires
        0 <= i < r.topics@.len(),
    ensures
        contains_seq(
            nav_js_text(r),
            "    '"@ + r.topics@[i].id@ + "': "@ + bool_text(topic_has_check(r.topics@[i]))
                + ",\n"@,
        ),
{
    lemma_nav_entries_contains(r.topics@, i);
    lemma_contains_concat(nav_head(), nav_entries(r.topics@), nav_entry(r.topics@[i]));
    lemma_contains_concat(
        nav_head() + nav_entries(r.topics@),
        nav_tail(r.pass_mark, r.learning_objectives_page is Some, r.navigation_mode@),
        nav_entry(r.topics@[i]),
    );
}

/// The table entries hold no parenthesis when no topic id holds one.
proof fn lemma_nav_entries_lack_paren(ts: Seq<Topic>)
    requires
        forall|i: int| 0 <= i < ts.len() ==> lacks_char(ts[i].id@, '('),
    ensures
        lacks_char(nav_entries(ts), '('),
    decreases ts.len(),
{
    reveal_strlit("    '");
    reveal_strlit("': ");
    reveal_strlit(",\n");
    reveal_strlit("true");
    reveal_strlit("false");
    if ts.len() == 0 {
    } else {
        assert(lacks_char(ts[0].id@, '('));
        lemma_lacks_char_concat("    '"@, ts[0].id@, '(');
        lemma_lacks_char_concat("    '"@ + ts[0].id@, "': "@, '(');
        assert(lacks_char(bool_text(topic_has_check(ts[0])), '('));
        lemma_lacks_char_concat("    '"@ + ts[0].id@ + "': "@, bool_text(topic_has_check(ts[0])), '(');
        lemma_lacks_char_concat(
            "    '"@ + ts[0].id@ + "': "@ + bool_text(topic_has_check(ts[0])),
            ",\n"@,
            '(',
        );
        assert forall|i: int| 0 <= i < ts.drop_first().len() implies lacks_char(
            ts.drop_first()[i].id@,
            '(',
        ) by {
            assert(ts.drop_first()[i] == ts[i + 1]);
        }
        lemma_nav_entries_lack_paren(ts.drop_first());
        lemma_lacks_char_concat(nav_entry(ts[0]), nav_entries(ts.drop_first()), '(');
    }
}

/// Decimal digits hold no parenthesis.
proof fn lemma_dec_digits_lack_paren(n: nat)
    ensures
        lacks_char(dec_digits(n), '('),
    decreases n,
{
    if n < 10 {
    } else {
        lemma_dec_digits_lack_paren(n / 10);
        lemma_lacks_char_concat(dec_digits(n / 10), seq![crate::text::digit_char(n % 10)], '(');
        assert(dec_digits(n) =~= dec_digits(n / 10) + seq![crate::text::digit_char(n % 10)]);
    }
}

/// Everything before the navigation machinery in a generated script.
pub open spec fn nav_prefix(r: GenerateScormRequest) -> Seq<char> {
    nav_head() + nav_entries(r.topics@) + ("};\nconst PASS_MARK = "@ + dec_digits(
        r.pass_mark as nat,
    ) + ";\nconst HAS_OBJECTIVES = "@ + bool_text(r.learning_objectives_page is Some)
        + ";\nconst NAVIGATION_MODE = '"@ + r.navigation_mode@ + "'"@)
}

/// The script splits into the prefix and the fixed machinery.
pub proof fn lemma_nav_js_split(r: GenerateScormRequest)
    ensures
        nav_js_text(r) == nav_prefix(r) + nav_body(),
{
    assert(nav_js_text(r) =~= nav_prefix(r) + nav_body());
}

/// When no topic id and no navigation-mode text holds a parenthesis, the
/// whole prefix holds none, and it ends with the mode's closing quote.
pub proof fn lemma_nav_prefix_shape(r: GenerateScormRequest)
    requires
        forall|i: int| 0 <= i < r.topics@.len() ==> lacks_char(r.topics@[i].id@, '('),
        lacks_char(r.navigation_mode@, '('),
    ensures
        lacks_char(nav_prefix(r), '('),
        nav_prefix(r).len() >= 1,
        nav_prefix(r).last() == '\'',
{
    reveal_strlit("const PAGES_WITH_KNOWLEDGE_CHECKS = {\n");
    reveal_strlit("};\nconst PASS_MARK = ");
    reveal_strlit(";\nconst HAS_OBJECTIVES = ");
    reveal_strlit(";\nconst NAVIGATION_MODE = '");
    reveal_strlit("'");
    reveal_strlit("true");
    reveal_strlit("false");
    lemma_nav_entries_lack_paren(r.topics@);
    lemma_dec_digits_lack_paren(r.pass_mark as nat);
    let tail_prefix = "};\nconst PASS_MARK = "@ + dec_digits(r.pass_mark as nat)
        + ";\nconst HAS_OBJECTIVES = "@ + bool_text(r.learning_objectives_page is Some)
        + ";\nconst NAVIGATION_MODE = '"@ + r.navigation_mode@ + "'"@;
    lemma_lacks_char_concat("};\nconst PASS_MARK = "@, dec_digits(r.pass_mark as nat), '(');
    lemma_lacks_char_concat(
        "};\nconst PASS_MARK = "@ + dec_digits(r.pass_mark as nat),
        ";\nconst HAS_OBJECTIVES = "@,
        '(',
    );
    assert(lacks_char(bool_text(r.learning_objectives_page is Some), '('));
    lemma_lacks_char_concat(
        "};\nconst PASS_MARK = "@ + dec_digits(r.pass_mark as nat)
            + ";\nconst HAS_OBJECTIVES = "@,
        bool_text(r.learning_objectives_page is Some),
        '(',
    );
    lemma_lacks_char_concat(
        "};\nconst PASS_MARK = "@ + dec_digits(r.pass_mark as nat)
            + ";\nconst HAS_OBJECTIVES = "@ + bool_text(r.learning_objectives_page is Some),
        ";\nconst NAVIGATION_MODE = '"@,
        '(',
    );
    lemma_lacks_char_concat(
        "};\nconst PASS_MARK = "@ + dec_digits(r.pass_mark as nat)
            + ";\nconst HAS_OBJECTIVES = "@ + bool_text(r.learning_objectives_page is Some)
            + ";\nconst NAVIGATION_MODE = '"@,
        r.navigation_mode@,
        '(',
    );
    lemma_lacks_char_concat(
        "};\nconst PASS_MARK = "@ + dec_digits(r.pass_mark as nat)
            + ";\nconst HAS_OBJECTIVES = "@ + bool_text(r.learning_objectives_page is Some)
            + ";\nconst NAVIGATION_MODE = '"@ + r.navigation_mode@,
        "'"@,
        '(',
    );
    lemma_lacks_char_concat(nav_head(), nav_entries(r.topics@), '(');
    lemma_lacks_char_concat(nav_head() + nav_entries(r.topics@), tail_prefix, '(');
    assert(nav_prefix(r).last() == "'"@[0]);
}

/// A needle holding a parenthesis but no apostrophe cannot start inside a
/// parenthesis-free prefix that ends with an apostrophe.
pub proof fn lemma_no_needle_start_in_prefix(p: Seq<char>, b: Seq<char>, n: Seq<char>, j: int)
    requires
        lacks_char(p, '('),
        0 <= j < n.len(),
        n[j] == '(',
        forall|m: int| 0 <= m < n.len() ==> n[m] != '\'',
        p.len() >= 1,
        p.last() == '\'',
    ensures
        forall|k: int| 0 <= k < p.len() ==> !occurs_at(p + b, n, k),
{
    assert forall|k: int| 0 <= k < p.len() implies !occurs_at(p + b, n, k) by {
        if occurs_at(p + b, n, k) {
            if k + n.len() <= p.len() {
                lemma_occurs_index(p + b, n, k, j);
                assert((p + b)[k + j] == p[k + j]);
            } else {
                let m = p.len() - 1 - k;
                lemma_occurs_index(p + b, n, k, m);
                assert((p + b)[k + m] == p[p.len() - 1]);
            }
        }
    }
}

/// An occurrence at or past the prefix is an occurrence in the machinery.
pub proof fn lemma_occurs_right_inv(p: Seq<char>, b: Seq<char>, n: Seq<char>, k: int)
    requires
        occurs_at(p + b, n, k),
        k >= p.len(),
    ensures
        occurs_at(b, n, k - p.len()),
{
    assert(b.subrange(k - p.len(), k - p.len() + n.len()) =~= (p + b).subrange(k, k + n.len()));
}

/// The positions of the content-load point, the audio initialization and
/// the following state recompute in the fixed machinery: where each first
/// occurs, and that none occurs earlier.
#[verifier::rlimit(100)]
pub proof fn lemma_nav_body_positions()
    ensures
        occurs_at(nav_body(), ".then(html => {"@, 878),
        occurs_at(nav_body(), "initializePageAudio(pageId)"@, 1034),
        occurs_at(nav_body(), "updateNavigationState()"@, 1110),
        forall|k: int| 0 <= k < 878 ==> !occurs_at(nav_body(), ".then(html => {"@, k),
        forall|k: int| 0 <= k < 1034 ==> !occurs_at(nav_body(), "initializePageAudio(pageId)"@, k),
        forall|k: int|
            1034 <= k < 1110 ==> !occurs_at(nav_body(), "updateNavigationState()"@, k),
        forall|m: int| 0 <= m < ".then(html => {"@.len() ==> ".then(html => {"@[m] != '\'',
        forall|m: int|
            0 <= m < "initializePageAudio(pageId)"@.len() ==> "initializePageAudio(pageId)"@[m]
                != '\'',
        forall|m: int|
            0 <= m < "updateNavigationState()"@.len() ==> "updateNavigationState()"@[m] != '\'',
        ".then(html => {"@[5] == '(',
        "initializePageAudio(pageId)"@[19] == '(',
        "updateNavigationState()"@[21] == '(',
{
    reveal_strlit(
        ";\nlet currentPageId = 'welcome';\nconst pageStatus = {};\n\nfunction initializeNavigation() {\n  const links = document.querySelectorAll('.sidebar-link');\n  links.forEach(function (link) {\n    link.addEventListener('click', function () {\n      console.log('[SCORM Navigation] Sidebar click:', link.getAttribute('data-page'));\n      navigateToPage(link.getAttribute('data-page'));\n    });\n  });\n  updateNavigationState();\n}\n\nfunction shouldBlockNavigation() {\n  if (NAVIGATION_MODE === 'linear' && PAGES_WITH_KNOWLEDGE_CHECKS[currentPageId] === true && pageStatus[currentPageId] !== 'passed') {\n    return true;\n  }\n  return false;\n}\n\nfunction navigateToPage(pageId) {\n  if (shouldBlockNavigation()) {\n    showAlert('Complete the knowledge check before moving on.');\n    return;\n  }\n  fetch('pages/' + pageId + '.html')\n    .then(function (response) { return response.text(); })\n    .then(html => {\n      const container = document.getElementById('content-container');\n      container.innerHTML = html;\n      currentPageId = pageId;\n      initializePageAudio(pageId);\n      initializeKnowledgeChecks(pageId);\n      updateNavigationState();\n      updateProgress();\n    });\n}\n\nfunction updateNavigationState() {\n  const prev = document.getElementById('prev-button');\n  const next = document.getElementById('next-button');\n  if (prev) { prev.disabled = currentPageId === 'welcome'; }\n  if (next) { next.disabled = shouldBlockNavigation(); }\n}\n\nfunction initializePageAudio(pageId) {\n  const audio = document.getElementById('narration-audio');\n  if (audio) { audio.load(); }\n}\n\nfunction initializeKnowledgeChecks(pageId) {\n  const container = document.getElementById('content-container');\n  if (!container) { return; }\n  const checks = container.querySelectorAll('.knowledge-check-container');\n  checks.forEach(function (check) { check.dataset.ready = 'true'; });\n}\n\nfunction updateProgress() {\n  const indicator = document.querySelector('.progress-circle-container');\n  if (indicator) { indicator.dataset.page = currentPageId; }\n}\n\nfunction showAlert(message) {\n  const container = document.getElementById('scorm-alert-container');\n  if (container) { container.textContent = message; }\n}\n\nwindow.checkMultipleChoice = function (questionIndex, selected, correct) {\n  return String(selected) === String(correct);\n};\n\nwindow.checkFillInBlank = function (questionIndex, value, correct) {\n  return value.trim().toLowerCase() === correct.trim().toLowerCase();\n};\n\nwindow.submitAllKnowledgeChecks = function (pageId) {\n  const total = document.querySelectorAll('.kc-question').length;\n  const correct = document.querySelectorAll('.kc-question[data-correct=\"true\"]').length;\n  const score = total === 0 ? 100 : Math.round((correct * 100) / total);\n  if (score >= PASS_MARK) { pageStatus[pageId] = 'passed'; }\n  updateNavigationState();\n};\n\ndocument.addEventListener('DOMContentLoaded', initializeNavigation);\n",
    );
    reveal_strlit(".then(html => {");
    reveal_strlit("initializePageAudio(pageId)");
    reveal_strlit("updateNavigationState()");
    assert(occurs_at(nav_body(), ".then(html => {"@, 878)) by {
        assert(nav_body().subrange(878, 893) =~= ".then(html => {"@);
    }
    assert(occurs_at(nav_body(), "initializePageAudio(pageId)"@, 1034)) by {
        assert(nav_body().subrange(1034, 1061) =~= "initializePageAudio(pageId)"@);
    }
    assert(occurs_at(nav_body(), "updateNavigationState()"@, 1110)) by {
        assert(nav_body().subrange(1110, 1133) =~= "updateNavigationState()"@);
    }
    assert forall|k: int| 0 <= k < 878 implies !occurs_at(nav_body(), ".then(html => {"@, k) by {
        if occurs_at(nav_body(), ".then(html => {"@, k) {
            lemma_occurs_index(nav_body(), ".then(html => {"@, k, 0);
            lemma_occurs_index(nav_body(), ".then(html => {"@, k, 1);
            lemma_occurs_index(nav_body(), ".then(html => {"@, k, 5);
            lemma_occurs_index(nav_body(), ".then(html => {"@, k, 6);
        }
    }
    assert forall|k: int|
        0 <= k < 1034 implies !occurs_at(nav_body(), "initializePageAudio(pageId)"@, k) by {
        if occurs_at(nav_body(), "initializePageAudio(pageId)"@, k) {
            lemma_occurs_index(nav_body(), "initializePageAudio(pageId)"@, k, 0);
            lemma_occurs_index(nav_body(), "initializePageAudio(pageId)"@, k, 1);
            lemma_occurs_index(nav_body(), "initializePageAudio(pageId)"@, k, 19);
        }
    }
    assert forall|k: int|
        1034 <= k < 1110 implies !occurs_at(nav_body(), "updateNavigationState()"@, k) by {
        if occurs_at(nav_body(), "updateNavigationState()"@, k) {
            lemma_occurs_index(nav_body(), "updateNavigationState()"@, k, 0);
            lemma_occurs_index(nav_body(), "updateNavigationState()"@, k, 1);
            lemma_occurs_index(nav_body(), "updateNavigationState()"@, k, 21);
        }
    }
}

} // verus!
