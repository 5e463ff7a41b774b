//! The plain page renderers consumed by the application shell: they take
//! already-typed page content (rather than loose value trees) and render
//! the legacy single-file page shapes, including the complete one-page
//! course document.
use vstd::prelude::*;
use crate::text::{
    append_chars, append_str, chars_eq, chars_to_string, contains_chars, contains_seq, dec_digits,
    string_to_chars, u32_dec_chars, usize_dec_chars,
};

verus! {

/// A media reference of a legacy page.
#[derive(Debug, Clone)]
pub struct PageMediaRef {
    pub id: String,
    pub media_type: String,
    pub url: String,
    pub title: String,
}

/// The welcome page's content.
#[derive(Debug, Clone)]
pub struct WelcomeContent {
    pub title: String,
    pub content: String,
    pub audio_id: Option<String>,
    pub caption_id: Option<String>,
    pub media: Vec<PageMediaRef>,
}

/// The objectives page's content.
#[derive(Debug, Clone)]
pub struct ObjectivesContent {
    pub content: String,
    pub audio_id: Option<String>,
    pub caption_id: Option<String>,
    pub media: Vec<PageMediaRef>,
}

/// One additional section of a topic.
#[derive(Debug, Clone)]
pub struct SectionContent {
    pub content: String,
}

/// The single inline quiz of a legacy topic.
#[derive(Debug, Clone)]
pub struct InlineCheck {
    pub kind: String,
    pub question: String,
    pub options: Vec<String>,
    pub correct_answer: String,
    pub explanation: String,
}

/// A legacy topic's content.
#[derive(Debug, Clone)]
pub struct TopicContent {
    pub id: String,
    pub title: String,
    pub content: String,
    pub sections: Vec<SectionContent>,
    pub knowledge_check: Option<InlineCheck>,
    pub audio_id: Option<String>,
    pub caption_id: Option<String>,
    pub media: Vec<PageMediaRef>,
}

/// The correct answer of an assessment question, by question kind.
#[derive(Debug, Clone)]
pub enum AssessmentAnswer {
    ChoiceIndex(usize),
    TrueFalse(bool),
}

/// One assessment question.
#[derive(Debug, Clone)]
pub struct AssessmentQuestion {
    pub id: Option<String>,
    pub question: String,
    pub options: Vec<String>,
    pub answer: AssessmentAnswer,
    pub explanation: String,
}

/// The assessment's content.
#[derive(Debug, Clone)]
pub struct AssessmentContent {
    pub pass_mark: u32,
    pub questions: Vec<AssessmentQuestion>,
}

/// A whole course's content in the legacy shape.
#[derive(Debug, Clone)]
pub struct CourseContent {
    pub welcome_page: Option<WelcomeContent>,
    pub learning_objectives_page: Option<ObjectivesContent>,
    pub topics: Vec<TopicContent>,
    pub assessment: Option<AssessmentContent>,
}

/// Course description fields of the legacy generator.
#[derive(Debug, Clone)]
pub struct CourseMetadata {
    pub title: String,
    pub description: String,
    pub project_title: String,
    pub version: Option<String>,
    pub scorm_version: Option<String>,
}

/// The image extension the welcome page guesses for a media id.
pub open spec fn welcome_image_ext(id: Seq<char>) -> Seq<char> {
    if contains_seq(id, "image-0"@) {
        ".jpg"@
    } else {
        ".png"@
    }
}

/// The image extension the objectives page guesses for a media id.
pub open spec fn objectives_image_ext(id: Seq<char>) -> Seq<char> {
    if contains_seq(id, "objectives"@) {
        ".jpg"@
    } else {
        ".png"@
    }
}

/// The image extension a topic page guesses for a media id.
pub open spec fn topic_image_ext(id: Seq<char>) -> Seq<char> {
    if contains_seq(id, "logo"@) {
        ".png"@
    } else if contains_seq(id, "image-1"@) {
        ".png"@
    } else {
        ".jpg"@
    }
}

/// The rendering of one legacy media item, with the guessed extension for
/// images.
pub open spec fn legacy_media_html(m: PageMediaRef, ext: Seq<char>) -> Seq<char> {
    if m.media_type@ == "image"@ {
        "    <img src=\"media/"@ + m.id@ + ext + "\" alt=\""@ + m.title@
            + "\" class=\"content-image\" />\n"@
    } else if m.media_type@ == "video"@ {
        "    <video src=\"media/"@ + m.id@ + ".mp4\" controls class=\"content-video\"></video>\n"@
    } else {
        Seq::<char>::empty()
    }
}

/// Appends one legacy media item with a given image extension.
fn append_legacy_media(out: &mut Vec<char>, m: &PageMediaRef, ext: &str)
    ensures
        final(out)@ == old(out)@ + legacy_media_html(*m, ext@),
{
    let kind = string_to_chars(m.media_type.as_str());
    let image = string_to_chars("image");
    let video = string_to_chars("video");
    if chars_eq(&kind, &image) {
        append_str(out, "    <img src=\"media/");
        append_str(out, m.id.as_str());
        append_str(out, ext);
        append_str(out, "\" alt=\"");
        append_str(out, m.title.as_str());
        append_str(out, "\" class=\"content-image\" />\n");
        proof {
            assert(out@ =~= old(out)@ + legacy_media_html(*m, ext@));
        }
    } else if chars_eq(&kind, &video) {
        append_str(out, "    <video src=\"media/");
        append_str(out, m.id.as_str());
        append_str(out, ".mp4\" controls class=\"content-video\"></video>\n");
        proof {
            assert(out@ =~= old(out)@ + legacy_media_html(*m, ext@));
        }
    } else {
        proof {
            assert(out@ =~= old(out)@ + legacy_media_html(*m, ext@));
        }
    }
}

/// The narration block of a legacy page: present only when the audio and
/// caption ids are both given.
pub open spec fn legacy_audio_html(audio: Option<String>, caption: Option<String>) -> Seq<char> {
    match (audio, caption) {
        (Some(a), Some(c)) => "    <audio id=\"narration-audio\" controls class=\"narration-audio\">\n        <source src=\"media/"@
            + a@ + ".mp3\" type=\"audio/mpeg\">\n        <track kind=\"captions\" src=\"media/"@
            + c@ + ".vtt\" srclang=\"en\" label=\"English\" default>\n    </audio>\n"@,
        _ => Seq::<char>::empty(),
    }
}

/// Appends the narration block when both ids are present.
fn append_legacy_audio(out: &mut Vec<char>, audio: &Option<String>, caption: &Option<String>)
    ensures
        final(out)@ == old(out)@ + legacy_audio_html(*audio, *caption),
{
    match (audio, caption) {
        (Some(a), Some(c)) => {
            append_str(
                out,
                "    <audio id=\"narration-audio\" controls class=\"narration-audio\">\n        <source src=\"media/",
            );
            append_str(out, a.as_str());
            append_str(
                out,
                ".mp3\" type=\"audio/mpeg\">\n        <track kind=\"captions\" src=\"media/",
            );
            append_str(out, c.as_str());
            append_str(out, ".vtt\" srclang=\"en\" label=\"English\" default>\n    </audio>\n");
            proof {
                assert(out@ =~= old(out)@ + legacy_audio_html(*audio, *caption));
            }
        },
        _ => {
            proof {
                assert(out@ =~= old(out)@ + legacy_audio_html(*audio, *caption));
            }
        },
    }
}

/// The welcome media renderings of the first `n` items.
pub open spec fn welcome_media_list(ms: Seq<PageMediaRef>, n: int) -> Seq<char>
    decreases n,
{
    if n <= 0 {
        Seq::<char>::empty()
    } else {
        welcome_media_list(ms, n - 1) + legacy_media_html(
            ms[n - 1],
            welcome_image_ext(ms[n - 1].id@),
        )
    }
}

/// The legacy welcome page document.
pub open spec fn welcome_page_html(w: WelcomeContent) -> Seq<char> {
    "\n<div class=\"page-content\">\n    <h1>"@ + w.title@
        + "</h1>\n    <div class=\"content\">\n        "@ + w.content@ + "\n    </div>\n"@
        + welcome_media_list(w.media@, w.media@.len() as int) + legacy_audio_html(
        w.audio_id,
        w.caption_id,
    ) + "</div>\n"@
}

/// Renders the legacy welcome page; the text is exactly
/// `welcome_page_html`.
pub fn generate_welcome_page_html(welcome: &WelcomeContent) -> (r: String)
    ensures
        r@ == welcome_page_html(*welcome),
{
    let mut out: Vec<char> = Vec::new();
    append_str(&mut out, "\n<div class=\"page-content\">\n    <h1>");
    append_str(&mut out, welcome.title.as_str());
    append_str(&mut out, "</h1>\n    <div class=\"content\">\n        ");
    append_str(&mut out, welcome.content.as_str());
    append_str(&mut out, "\n    </div>\n");
    let ghost head = out@;
    let mut i: usize = 0;
    while i < welcome.media.len()
        invariant
            i <= welcome.media@.len(),
            out@ == head + welcome_media_list(welcome.media@, i as int),
        decreases welcome.media@.len() - i,
    {
        let m = &welcome.media[i];
        let id_chars = string_to_chars(m.id.as_str());
        let marker = string_to_chars("image-0");
        if contains_chars(&id_chars, &marker) {
            append_legacy_media(&mut out, m, ".jpg");
        } else {
            append_legacy_media(&mut out, m, ".png");
        }
        i = i + 1;
    }
    append_legacy_audio(&mut out, &welcome.audio_id, &welcome.caption_id);
    append_str(&mut out, "</div>\n");
    proof {
        assert(out@ =~= welcome_page_html(*welcome));
    }
    chars_to_string(&out)
}

/// The objectives media renderings of the first `n` items.
pub open spec fn objectives_media_list(ms: Seq<PageMediaRef>, n: int) -> Seq<char>
    decreases n,
{
    if n <= 0 {
        Seq::<char>::empty()
    } else {
        objectives_media_list(ms, n - 1) + legacy_media_html(
            ms[n - 1],
            objectives_image_ext(ms[n - 1].id@),
        )
    }
}

/// The legacy objectives page document.
pub open spec fn objectives_page_html(o: ObjectivesContent) -> Seq<char> {
    "\n<div class=\"page-content\">\n    "@ + o.content@ + "\n"@ + objectives_media_list(
        o.media@,
        o.media@.len() as int,
    ) + legacy_audio_html(o.audio_id, o.caption_id) + "</div>\n"@
}

/// Renders the legacy objectives page; the text is exactly
/// `objectives_page_html`.
pub fn generate_objectives_page_html(objectives_page: &ObjectivesContent) -> (r: String)
    ensures
        r@ == objectives_page_html(*objectives_page),
{
    let mut out: Vec<char> = Vec::new();
    append_str(&mut out, "\n<div class=\"page-content\">\n    ");
    append_str(&mut out, objectives_page.content.as_str());
    append_str(&mut out, "\n");
    let ghost head = out@;
    let mut i: usize = 0;
    while i < objectives_page.media.len()
        invariant
            i <= objectives_page.media@.len(),
            out@ == head + objectives_media_list(objectives_page.media@, i as int),
        decreases objectives_page.media@.len() - i,
    {
        let m = &objectives_page.media[i];
        let id_chars = string_to_chars(m.id.as_str());
        let marker = string_to_chars("objectives");
        if contains_chars(&id_chars, &marker) {
            append_legacy_media(&mut out, m, ".jpg");
        } else {
            append_legacy_media(&mut out, m, ".png");
        }
        i = i + 1;
    }
    append_legacy_audio(&mut out, &objectives_page.audio_id, &objectives_page.caption_id);
    append_str(&mut out, "</div>\n");
    proof {
        assert(out@ =~= objectives_page_html(*objectives_page));
    }
    chars_to_string(&out)
}

/// The section renderings of the first `n` sections.
pub open spec fn sections_html(ss: Seq<SectionContent>, n: int) -> Seq<char>
    decreases n,
{
    if n <= 0 {
        Seq::<char>::empty()
    } else {
        sections_html(ss, n - 1) + ("    <div class=\"section\">\n        "@ + ss[n - 1].content@
            + "\n    </div>\n"@)
    }
}

/// The topic media renderings of the first `n` items.
pub open spec fn topic_media_list(ms: Seq<PageMediaRef>, n: int) -> Seq<char>
    decreases n,
{
    if n <= 0 {
        Seq::<char>::empty()
    } else {
        topic_media_list(ms, n - 1) + legacy_media_html(ms[n - 1], topic_image_ext(ms[n - 1].id@))
    }
}

/// One inline-check option: the radio input, marked when it is the
/// correct answer.
pub open spec fn inline_option_html(opt: Seq<char>, i: nat, correct: Seq<char>) -> Seq<char> {
    "\n                <label class=\"option\">\n                    <input type=\"radio\" name=\"kc-question\" value=\""@
        + dec_digits(i) + "\" "@ + (if opt == correct {
        "data-correct=\""@ + dec_digits(i) + "\""@
    } else {
        Seq::<char>::empty()
    }) + " />\n                    <span>"@ + opt + "</span>\n                </label>"@
}

/// The first `n` inline-check options.
pub open spec fn inline_options_html(opts: Seq<String>, n: int, correct: Seq<char>) -> Seq<char>
    decreases n,
{
    if n <= 0 {
        Seq::<char>::empty()
    } else {
        inline_options_html(opts, n - 1, correct) + inline_option_html(
            opts[n - 1]@,
            (n - 1) as nat,
            correct,
        )
    }
}

/// The inline quiz block of a legacy topic.
pub open spec fn inline_check_html(kc: InlineCheck) -> Seq<char> {
    "    <div class=\"knowledge-check\">\n        <h3>Knowledge Check</h3>\n        <div class=\"question\">\n            <p>"@
        + kc.question@ + "</p>\n"@ + (if kc.kind@ == "multiple-choice"@ {
        "            <div class=\"options\">"@ + inline_options_html(
            kc.options@,
            kc.options@.len() as int,
            kc.correct_answer@,
        ) + "\n            </div>"@
    } else {
        Seq::<char>::empty()
    }) + "\n            <div class=\"explanation\" style=\"display:none;\">\n                <p>"@
        + kc.explanation@ + "</p>\n            </div>\n        </div>\n    </div>\n"@
}

/// The legacy topic page document.
pub open spec fn topic_page_html(t: TopicContent) -> Seq<char> {
    "\n<div class=\"page-content\">\n    <h1>"@ + t.title@
        + "</h1>\n    <div class=\"content\">\n        "@ + t.content@ + "\n    </div>\n"@
        + sections_html(t.sections@, t.sections@.len() as int) + topic_media_list(
        t.media@,
        t.media@.len() as int,
    ) + (match t.knowledge_check {
        Some(kc) => inline_check_html(kc),
        None => Seq::<char>::empty(),
    }) + legacy_audio_html(t.audio_id, t.caption_id) + "</div>\n"@
}

/// Renders a legacy topic page; the text is exactly `topic_page_html`.
#[verifier::rlimit(60)]
pub fn generate_topic_page_html(topic: &TopicContent, _index: usize) -> (r: String)
    ensures
        r@ == topic_page_html(*topic),
{
    let mut out: Vec<char> = Vec::new();
    append_str(&mut out, "\n<div class=\"page-content\">\n    <h1>");
    append_str(&mut out, topic.title.as_str());
    append_str(&mut out, "</h1>\n    <div class=\"content\">\n        ");
    append_str(&mut out, topic.content.as_str());
    append_str(&mut out, "\n    </div>\n");
    let ghost head = out@;
    let mut s: usize = 0;
    while s < topic.sections.len()
        invariant
            s <= topic.sections@.len(),
            out@ == head + sections_html(topic.sections@, s as int),
        decreases topic.sections@.len() - s,
    {
        append_str(&mut out, "    <div class=\"section\">\n        ");
        append_str(&mut out, topic.sections[s].content.as_str());
        append_str(&mut out, "\n    </div>\n");
        s = s + 1;
    }
    let ghost with_sections = out@;
    let mut i: usize = 0;
    while i < topic.media.len()
        invariant
            i <= topic.media@.len(),
            out@ == with_sections + topic_media_list(topic.media@, i as int),
        decreases topic.media@.len() - i,
    {
        let m = &topic.media[i];
        let id_chars = string_to_chars(m.id.as_str());
        let logo = string_to_chars("logo");
        let image1 = string_to_chars("image-1");
        if contains_chars(&id_chars, &logo) {
            append_legacy_media(&mut out, m, ".png");
        } else if contains_chars(&id_chars, &image1) {
            append_legacy_media(&mut out, m, ".png");
        } else {
            append_legacy_media(&mut out, m, ".jpg");
        }
        i = i + 1;
    }
    match &topic.knowledge_check {
        Some(kc) => {
            append_str(
                &mut out,
                "    <div class=\"knowledge-check\">\n        <h3>Knowledge Check</h3>\n        <div class=\"question\">\n            <p>",
            );
            append_str(&mut out, kc.question.as_str());
            append_str(&mut out, "</p>\n");
            let kind = string_to_chars(kc.kind.as_str());
            let multiple = string_to_chars("multiple-choice");
            if chars_eq(&kind, &multiple) {
                append_str(&mut out, "            <div class=\"options\">");
                let ghost opts_head = out@;
                let correct = string_to_chars(kc.correct_answer.as_str());
                let mut oi: usize = 0;
                while oi < kc.options.len()
                    invariant
                        oi <= kc.options@.len(),
                        correct@ == kc.correct_answer@,
                        out@ == opts_head + inline_options_html(
                            kc.options@,
                            oi as int,
                            kc.correct_answer@,
                        ),
                    decreases kc.options@.len() - oi,
                {
                    append_str(
                        &mut out,
                        "\n                <label class=\"option\">\n                    <input type=\"radio\" name=\"kc-question\" value=\"",
                    );
                    let idx = usize_dec_chars(oi);
                    append_chars(&mut out, &idx);
                    append_str(&mut out, "\" ");
                    let opt_chars = string_to_chars(kc.options[oi].as_str());
                    if chars_eq(&opt_chars, &correct) {
                        append_str(&mut out, "data-correct=\"");
                        append_chars(&mut out, &idx);
                        append_str(&mut out, "\"");
                    }
                    append_str(&mut out, " />\n                    <span>");
                    append_str(&mut out, kc.options[oi].as_str());
                    append_str(&mut out, "</span>\n                </label>");
                    oi = oi + 1;
                }
                append_str(&mut out, "\n            </div>");
            }
            append_str(
                &mut out,
                "\n            <div class=\"explanation\" style=\"display:none;\">\n                <p>",
            );
            append_str(&mut out, kc.explanation.as_str());
            append_str(&mut out, "</p>\n            </div>\n        </div>\n    </div>\n");
        },
        None => {},
    }
    append_legacy_audio(&mut out, &topic.audio_id, &topic.caption_id);
    append_str(&mut out, "</div>\n");
    proof {
        assert(out@ =~= topic_page_html(*topic));
    }
    chars_to_string(&out)
}

/// The identity of an assessment question: its own id, else `q` and its
/// one-based position.
pub open spec fn question_id_text(q: AssessmentQuestion, qi: nat) -> Seq<char> {
    match q.id {
        Some(id) => id@,
        None => "q"@ + dec_digits(qi + 1),
    }
}

/// One choice option of an assessment question.
pub open spec fn assessment_option_html(
    opt: Seq<char>,
    i: nat,
    qid: Seq<char>,
    correct: nat,
) -> Seq<char> {
    "\n                <label class=\"option\">\n                    <input type=\"radio\" name=\"q-"@
        + qid + "\" value=\""@ + dec_digits(i) + "\" "@ + (if i == correct {
        "data-correct=\""@ + dec_digits(i) + "\""@
    } else {
        Seq::<char>::empty()
    }) + " />\n                    <span>"@ + opt + "</span>\n                </label>"@
}

/// The first `n` choice options of an assessment question.
pub open spec fn assessment_options_html(
    opts: Seq<String>,
    n: int,
    qid: Seq<char>,
    correct: nat,
) -> Seq<char>
    decreases n,
{
    if n <= 0 {
        Seq::<char>::empty()
    } else {
        assessment_options_html(opts, n - 1, qid, correct) + assessment_option_html(
            opts[n - 1]@,
            (n - 1) as nat,
            qid,
            correct,
        )
    }
}

/// The answer widget of an assessment question: its options for a choice
/// question, the two fixed options for a true-false one, the correct one
/// marked.
pub open spec fn assessment_widget_html(q: AssessmentQuestion, qid: Seq<char>) -> Seq<char> {
    match q.answer {
        AssessmentAnswer::ChoiceIndex(c) => "            <div class=\"options\">"@
            + assessment_options_html(q.options@, q.options@.len() as int, qid, c as nat)
            + "\n            </div>"@,
        AssessmentAnswer::TrueFalse(b) => "            <div class=\"options\">"@
            + assessment_option_html("True"@, 0, qid, (if b { 0nat } else { 2nat }))
            + assessment_option_html("False"@, 1, qid, (if b { 2nat } else { 1nat }))
            + "\n            </div>"@,
    }
}

/// One assessment question block.
pub open spec fn assessment_question_html(q: AssessmentQuestion, qi: nat) -> Seq<char> {
    "        <div class=\"question\" data-question-id=\""@ + question_id_text(q, qi)
        + "\">\n            <p>"@ + q.question@ + "</p>\n"@ + assessment_widget_html(
        q,
        question_id_text(q, qi),
    )
        + "\n            <div class=\"explanation\" style=\"display:none;\">\n                <p>"@
        + q.explanation@ + "</p>\n            </div>\n        </div>\n"@
}

/// The first `n` assessment question blocks.
pub open spec fn assessment_questions_html(qs: Seq<AssessmentQuestion>, n: int) -> Seq<char>
    decreases n,
{
    if n <= 0 {
        Seq::<char>::empty()
    } else {
        assessment_questions_html(qs, n - 1) + assessment_question_html(
            qs[n - 1],
            (n - 1) as nat,
        )
    }
}

/// The legacy assessment page document, carrying the pass mark.
pub open spec fn assessment_page_html(a: AssessmentContent) -> Seq<char> {
    "\n<div class=\"page-content\" data-pass-mark=\""@ + dec_digits(a.pass_mark as nat)
        + "\">\n    <h1>Assessment</h1>\n    <div class=\"assessment-questions\">\n"@
        + assessment_questions_html(a.questions@, a.questions@.len() as int)
        + "    </div>\n</div>\n"@
}

/// Appends one choice option of an assessment question.
fn append_assessment_option(out: &mut Vec<char>, opt: &str, i: usize, qid: &Vec<char>, marked: bool)
    ensures
        final(out)@ == old(out)@ + assessment_option_html(
            opt@,
            i as nat,
            qid@,
            (if marked {
                i as nat
            } else {
                (i + 1) as nat
            }),
        ),
{
    append_str(
        out,
        "\n                <label class=\"option\">\n                    <input type=\"radio\" name=\"q-",
    );
    append_chars(out, qid);
    append_str(out, "\" value=\"");
    let idx = usize_dec_chars(i);
    append_chars(out, &idx);
    append_str(out, "\" ");
    if marked {
        append_str(out, "data-correct=\"");
        append_chars(out, &idx);
        append_str(out, "\"");
    }
    append_str(out, " />\n                    <span>");
    append_str(out, opt);
    append_str(out, "</span>\n                </label>");
    proof {
        assert(out@ =~= old(out)@ + assessment_option_html(
            opt@,
            i as nat,
            qid@,
            (if marked {
                i as nat
            } else {
                (i + 1) as nat
            }),
        ));
    }
}

/// Renders one assessment question block; the text is exactly
/// `assessment_question_html`.
#[verifier::rlimit(60)]
fn render_assessment_question(q: &AssessmentQuestion, qi: usize) -> (r: Vec<char>)
    requires
        qi < usize::MAX,
    ensures
        r@ == assessment_question_html(*q, qi as nat),
{
    let mut out: Vec<char> = Vec::new();
    let qid: Vec<char> = match &q.id {
        Some(id) => string_to_chars(id.as_str()),
        None => {
            let mut v = string_to_chars("q");
            let n = usize_dec_chars(qi + 1);
            append_chars(&mut v, &n);
            v
        },
    };
    proof {
        assert(qid@ == question_id_text(*q, qi as nat));
    }
    append_str(&mut out, "        <div class=\"question\" data-question-id=\"");
    append_chars(&mut out, &qid);
    append_str(&mut out, "\">\n            <p>");
    append_str(&mut out, q.question.as_str());
    append_str(&mut out, "</p>\n");
    match &q.answer {
        AssessmentAnswer::ChoiceIndex(c) => {
            append_str(&mut out, "            <div class=\"options\">");
            let ghost opts_head = out@;
            let correct: usize = *c;
            let mut oi: usize = 0;
            while oi < q.options.len()
                invariant
                    oi <= q.options@.len(),
                    qid@ == question_id_text(*q, qi as nat),
                    out@ == opts_head + assessment_options_html(
                        q.options@,
                        oi as int,
                        qid@,
                        correct as nat,
                    ),
                decreases q.options@.len() - oi,
            {
                append_assessment_option(
                    &mut out,
                    q.options[oi].as_str(),
                    oi,
                    &qid,
                    oi == correct,
                );
                proof {
                    if oi != correct {
                        assert(assessment_option_html(
                            q.options@[oi as int]@,
                            oi as nat,
                            qid@,
                            (oi + 1) as nat,
                        ) == assessment_option_html(
                            q.options@[oi as int]@,
                            oi as nat,
                            qid@,
                            correct as nat,
                        ));
                    }
                }
                oi = oi + 1;
            }
            append_str(&mut out, "\n            </div>");
        },
        AssessmentAnswer::TrueFalse(b) => {
            append_str(&mut out, "            <div class=\"options\">");
            append_assessment_option(&mut out, "True", 0, &qid, *b);
            append_assessment_option(&mut out, "False", 1, &qid, !*b);
            append_str(&mut out, "\n            </div>");
        },
    }
    append_str(
        &mut out,
        "\n            <div class=\"explanation\" style=\"display:none;\">\n                <p>",
    );
    append_str(&mut out, q.explanation.as_str());
    append_str(&mut out, "</p>\n            </div>\n        </div>\n");
    proof {
        assert(out@ =~= assessment_question_html(*q, qi as nat));
    }
    out
}

/// Renders the legacy assessment page; the text is exactly
/// `assessment_page_html`.
pub fn generate_assessment_page_html(assessment: &AssessmentContent) -> (r: String)
    ensures
        r@ == assessment_page_html(*assessment),
{
    let mut out: Vec<char> = Vec::new();
    append_str(&mut out, "\n<div class=\"page-content\" data-pass-mark=\"");
    let pm = u32_dec_chars(assessment.pass_mark);
    append_chars(&mut out, &pm);
    append_str(&mut out, "\">\n    <h1>Assessment</h1>\n    <div class=\"assessment-questions\">\n");
    let ghost head = out@;
    let mut qi: usize = 0;
    while qi < assessment.questions.len()
        invariant
            qi <= assessment.questions@.len(),
            out@ == head + assessment_questions_html(assessment.questions@, qi as int),
        decreases assessment.questions@.len() - qi,
    {
        let piece = render_assessment_question(&assessment.questions[qi], qi);
        append_chars(&mut out, &piece);
        qi = qi + 1;
    }
    append_str(&mut out, "    </div>\n</div>\n");
    proof {
        assert(out@ =~= assessment_page_html(*assessment));
    }
    chars_to_string(&out)
}

/// One navigation button of the complete course document.
pub open spec fn nav_button_html(i: nat, title: Seq<char>) -> Seq<char> {
    "        <button id=\"nav-topic-"@ + dec_digits(i) + "\" class=\"nav-btn\" onclick=\"showPage('topic-"@
        + dec_digits(i) + "')\">"@ + title + "</button>\n"@
}

/// The navigation buttons of the first `n` topics.
pub open spec fn nav_buttons_html(ts: Seq<TopicContent>, n: int) -> Seq<char>
    decreases n,
{
    if n <= 0 {
        Seq::<char>::empty()
    } else {
        nav_buttons_html(ts, n - 1) + nav_button_html((n - 1) as nat, ts[n - 1].title@)
    }
}

/// One embedded topic page of the complete course document.
pub open spec fn embedded_topic_html(t: TopicContent, i: nat) -> Seq<char> {
    "        <div id=\"page-topic-"@ + dec_digits(i) + "\" class=\"page-content\">\n"@
        + topic_page_html(t) + "        </div>\n"@
}

/// The embedded pages of the first `n` topics.
pub open spec fn embedded_topics_html(ts: Seq<TopicContent>, n: int) -> Seq<char>
    decreases n,
{
    if n <= 0 {
        Seq::<char>::empty()
    } else {
        embedded_topics_html(ts, n - 1) + embedded_topic_html(ts[n - 1], (n - 1) as nat)
    }
}

/// The complete one-page course document: head, per-page navigation
/// buttons, and every page embedded in one container.
pub open spec fn complete_course_html(c: CourseContent, meta: CourseMetadata) -> Seq<char> {
    "<!DOCTYPE html>\n<html lang=\"en\">\n<head>\n    <meta charset=\"UTF-8\">\n    <title>"@
        + meta.title@
        + "</title>\n    <link rel=\"stylesheet\" href=\"styles.css\">\n    <script src=\"scorm_api.js\"></script>\n    <script src=\"navigation.js\"></script>\n</head>\n<body>\n    <div class=\"navigation\">\n        <button id=\"nav-welcome\" class=\"nav-btn active\" onclick=\"showPage('welcome')\">Welcome</button>\n        <button id=\"nav-objectives\" class=\"nav-btn\" onclick=\"showPage('objectives')\">Objectives</button>\n"@
        + nav_buttons_html(c.topics@, c.topics@.len() as int) + (if c.assessment is Some {
        "        <button id=\"nav-assessment\" class=\"nav-btn\" onclick=\"showPage('assessment')\">Assessment</button>\n"@
    } else {
        Seq::<char>::empty()
    }) + "    </div>\n    <div class=\"content-container\">\n"@ + (match c.welcome_page {
        Some(w) => "        <div id=\"page-welcome\" class=\"page-content active\">\n"@
            + welcome_page_html(w) + "        </div>\n"@,
        None => Seq::<char>::empty(),
    }) + (match c.learning_objectives_page {
        Some(o) => "        <div id=\"page-objectives\" class=\"page-content\">\n"@
            + objectives_page_html(o) + "        </div>\n"@,
        None => Seq::<char>::empty(),
    }) + embedded_topics_html(c.topics@, c.topics@.len() as int) + (match c.assessment {
        Some(a) => "        <div id=\"page-assessment\" class=\"page-content\">\n"@
            + assessment_page_html(a) + "        </div>\n"@,
        None => Seq::<char>::empty(),
    }) + "    </div>\n</body>\n</html>\n"@
}

/// Renders the complete one-page course document; the text is exactly
/// `complete_course_html`.
#[verifier::rlimit(100)]
pub fn generate_complete_scorm_html(course_content: &CourseContent, metadata: &CourseMetadata) -> (r:
    String)
    ensures
        r@ == complete_course_html(*course_content, *metadata),
{
    let mut out: Vec<char> = Vec::new();
    append_str(
        &mut out,
        "<!DOCTYPE html>\n<html lang=\"en\">\n<head>\n    <meta charset=\"UTF-8\">\n    <title>",
    );
    append_str(&mut out, metadata.title.as_str());
    append_str(
        &mut out,
        "</title>\n    <link rel=\"stylesheet\" href=\"styles.css\">\n    <script src=\"scorm_api.js\"></script>\n    <script src=\"navigation.js\"></script>\n</head>\n<body>\n    <div class=\"navigation\">\n        <button id=\"nav-welcome\" class=\"nav-btn active\" onclick=\"showPage('welcome')\">Welcome</button>\n        <button id=\"nav-objectives\" class=\"nav-btn\" onclick=\"showPage('objectives')\">Objectives</button>\n",
    );
    let ghost head = out@;
    let mut i: usize = 0;
    while i < course_content.topics.len()
        invariant
            i <= course_content.topics@.len(),
            out@ == head + nav_buttons_html(course_content.topics@, i as int),
        decreases course_content.topics@.len() - i,
    {
        append_str(&mut out, "        <button id=\"nav-topic-");
        let idx = usize_dec_chars(i);
        append_chars(&mut out, &idx);
        append_str(&mut out, "\" class=\"nav-btn\" onclick=\"showPage('topic-");
        append_chars(&mut out, &idx);
        append_str(&mut out, "')\">");
        append_str(&mut out, course_content.topics[i].title.as_str());
        append_str(&mut out, "</button>\n");
        i = i + 1;
    }
    match &course_content.assessment {
        Some(_) => append_str(
            &mut out,
            "        <button id=\"nav-assessment\" class=\"nav-btn\" onclick=\"showPage('assessment')\">Assessment</button>\n",
        ),
        None => {},
    }
    append_str(&mut out, "    </div>\n    <div class=\"content-container\">\n");
    match &course_content.welcome_page {
        Some(w) => {
            append_str(&mut out, "        <div id=\"page-welcome\" class=\"page-content active\">\n");
            let html = generate_welcome_page_html(w);
            append_str(&mut out, html.as_str());
            append_str(&mut out, "        </div>\n");
        },
        None => {},
    }
    match &course_content.learning_objectives_page {
        Some(o) => {
            append_str(&mut out, "        <div id=\"page-objectives\" class=\"page-content\">\n");
            let html = generate_objectives_page_html(o);
            append_str(&mut out, html.as_str());
            append_str(&mut out, "        </div>\n");
        },
        None => {},
    }
    let ghost with_front = out@;
    let mut k: usize = 0;
    while k < course_content.topics.len()
        invariant
            k <= course_content.topics@.len(),
            out@ == with_front + embedded_topics_html(course_content.topics@, k as int),
        decreases course_content.topics@.len() - k,
    {
        append_str(&mut out, "        <div id=\"page-topic-");
        let idx = usize_dec_chars(k);
        append_chars(&mut out, &idx);
        append_str(&mut out, "\" class=\"page-content\">\n");
        let html = generate_topic_page_html(&course_content.topics[k], k);
        append_str(&mut out, html.as_str());
        append_str(&mut out, "        </div>\n");
        k = k + 1;
    }
    match &course_content.assessment {
        Some(a) => {
            append_str(&mut out, "        <div id=\"page-assessment\" class=\"page-content\">\n");
            let html = generate_assessment_page_html(a);
            append_str(&mut out, html.as_str());
            append_str(&mut out, "        </div>\n");
        },
        None => {},
    }
    append_str(&mut out, "    </div>\n</body>\n</html>\n");
    proof {
        assert(out@ =~= complete_course_html(*course_content, *metadata));
    }
    chars_to_string(&out)
}

} // verus!
