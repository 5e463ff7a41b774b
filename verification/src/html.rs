//! The HTML page generators: one render function per page kind, each
//! producing its exact specified text, with media paths normalized,
//! external videos detected through the one shared classifier, and
//! knowledge-check view models carrying defaulted feedback.
use vstd::prelude::*;
use crate::model::{
    media_is_external_video, media_is_external_video_exec, normalized_media_path, topic_has_check,
    topic_has_check_exec, Assessment, GenerateScormRequest, MediaItem, ObjectivesPage, Question,
    Topic, WelcomePage,
};
use crate::text::{
    append_chars, append_str, chars_to_string, contains_chars, contains_seq, dec_digits,
    lemma_contains_concat, occurs_at, string_to_chars, usize_dec_chars,
};
use crate::xml::{xml_escape_chars, xml_escape_seq};

verus! {

/// The text with every line break turned into a break tag.
pub open spec fn br_text(s: Seq<char>) -> Seq<char>
    decreases s.len(),
{
    if s.len() == 0 {
        Seq::empty()
    } else {
        (if s[0] == '\n' {
            "<br>"@
        } else {
            seq![s[0]]
        }) + br_text(s.drop_first())
    }
}

/// Replaces every line break with a break tag.
pub fn render_br(s: &str) -> (r: Vec<char>)
    ensures
        r@ == br_text(s@),
{
    let cs = string_to_chars(s);
    let mut out: Vec<char> = Vec::new();
    let mut i: usize = 0;
    while i < cs.len()
        invariant
            i <= cs@.len(),
            cs@ == s@,
            out@ == br_text(s@.subrange(0, i as int)),
        decreases cs@.len() - i,
    {
        if cs[i] == '\n' {
            append_str(&mut out, "<br>");
        } else {
            out.push(cs[i]);
        }
        proof {
            lemma_br_text_snoc(s@.subrange(0, i as int), s@[i as int]);
            assert(s@.subrange(0, i + 1 as int) =~= s@.subrange(0, i as int).push(s@[i as int]));
        }
        i = i + 1;
    }
    proof {
        assert(s@.subrange(0, s@.len() as int) =~= s@);
    }
    out
}

/// Appending one character appends its rendering.
proof fn lemma_br_text_snoc(s: Seq<char>, c: char)
    ensures
        br_text(s.push(c)) == br_text(s) + (if c == '\n' {
            "<br>"@
        } else {
            seq![c]
        }),
    decreases s.len(),
{
    let piece: Seq<char> = if c == '\n' {
        "<br>"@
    } else {
        seq![c]
    };
    if s.len() == 0 {
        assert(s.push(c)[0] == c);
        assert(s.push(c).drop_first() =~= Seq::<char>::empty());
        assert(br_text(s.push(c).drop_first()) == Seq::<char>::empty());
        assert(br_text(s) == Seq::<char>::empty());
        assert(br_text(s.push(c)) =~= br_text(s) + piece);
    } else {
        assert(s.push(c).drop_first() =~= s.drop_first().push(c));
        lemma_br_text_snoc(s.drop_first(), c);
        assert(br_text(s.push(c)) =~= br_text(s) + piece);
    }
}

/// The url an external video is embedded from: its embed url when given,
/// else its plain url.
pub open spec fn embed_source(m: MediaItem) -> Seq<char> {
    match m.embed_url {
        Some(e) => e@,
        None => m.url@,
    }
}

/// The rendering of one media item: an embedded frame for an external
/// video, else the tag of its kind with the normalized archive path.
pub open spec fn media_item_html(m: MediaItem) -> Seq<char> {
    if media_is_external_video(m) {
        "<div class=\"media-block\"><iframe src=\""@ + xml_escape_seq(embed_source(m))
            + "\" title=\""@ + xml_escape_seq(m.title@) + "\" allowfullscreen></iframe></div>\n"@
    } else if m.media_type@ == "image"@ {
        "<div class=\"media-block\"><img src=\""@ + xml_escape_seq(normalized_media_path(m.url@))
            + "\" alt=\""@ + xml_escape_seq(m.title@) + "\" class=\"content-image\" /></div>\n"@
    } else if m.media_type@ == "video"@ {
        "<div class=\"media-block\"><video src=\""@ + xml_escape_seq(normalized_media_path(m.url@))
            + "\" controls class=\"content-video\"></video></div>\n"@
    } else if m.media_type@ == "audio"@ {
        "<div class=\"media-block\"><audio src=\""@ + xml_escape_seq(normalized_media_path(m.url@))
            + "\" controls class=\"content-audio\"></audio></div>\n"@
    } else {
        Seq::<char>::empty()
    }
}

/// The renderings of the first `n` media items, in order.
pub open spec fn media_list_html(ms: Seq<MediaItem>, n: int) -> Seq<char>
    decreases n,
{
    if n <= 0 {
        Seq::<char>::empty()
    } else {
        media_list_html(ms, n - 1) + media_item_html(ms[n - 1])
    }
}

/// The media renderings a page's optional media list contributes.
pub open spec fn media_html(ms: Option<Vec<MediaItem>>) -> Seq<char> {
    match ms {
        Some(v) => media_list_html(v@, v@.len() as int),
        None => Seq::<char>::empty(),
    }
}

/// Renders one media item.
pub fn render_media_item(m: &MediaItem) -> (r: Vec<char>)
    ensures
        r@ == media_item_html(*m),
{
    let mut out: Vec<char> = Vec::new();
    if media_is_external_video_exec(m) {
        append_str(&mut out, "<div class=\"media-block\"><iframe src=\"");
        let src = match &m.embed_url {
            Some(e) => xml_escape_chars(e.as_str()),
            None => xml_escape_chars(m.url.as_str()),
        };
        append_chars(&mut out, &src);
        append_str(&mut out, "\" title=\"");
        let title = xml_escape_chars(m.title.as_str());
        append_chars(&mut out, &title);
        append_str(&mut out, "\" allowfullscreen></iframe></div>\n");
        proof {
            assert(out@ =~= media_item_html(*m));
        }
        return out;
    }
    let kind = string_to_chars(m.media_type.as_str());
    let image = string_to_chars("image");
    let video = string_to_chars("video");
    let audio = string_to_chars("audio");
    if crate::text::chars_eq(&kind, &image) {
        append_str(&mut out, "<div class=\"media-block\"><img src=\"");
        let path = crate::model::ensure_media_path(m.url.as_str());
        let src = xml_escape_chars(chars_to_string(&path).as_str());
        append_chars(&mut out, &src);
        append_str(&mut out, "\" alt=\"");
        let title = xml_escape_chars(m.title.as_str());
        append_chars(&mut out, &title);
        append_str(&mut out, "\" class=\"content-image\" /></div>\n");
        proof {
            assert(out@ =~= media_item_html(*m));
        }
    } else if crate::text::chars_eq(&kind, &video) {
        append_str(&mut out, "<div class=\"media-block\"><video src=\"");
        let path = crate::model::ensure_media_path(m.url.as_str());
        let src = xml_escape_chars(chars_to_string(&path).as_str());
        append_chars(&mut out, &src);
        append_str(&mut out, "\" controls class=\"content-video\"></video></div>\n");
        proof {
            assert(out@ =~= media_item_html(*m));
        }
    } else if crate::text::chars_eq(&kind, &audio) {
        append_str(&mut out, "<div class=\"media-block\"><audio src=\"");
        let path = crate::model::ensure_media_path(m.url.as_str());
        let src = xml_escape_chars(chars_to_string(&path).as_str());
        append_chars(&mut out, &src);
        append_str(&mut out, "\" controls class=\"content-audio\"></audio></div>\n");
        proof {
            assert(out@ =~= media_item_html(*m));
        }
    } else {
        proof {
            assert(out@ =~= media_item_html(*m));
        }
    }
    out
}

/// Appends the renderings of a page's media items.
pub fn append_media(out: &mut Vec<char>, ms: &Option<Vec<MediaItem>>)
    ensures
        final(out)@ == old(out)@ + media_html(*ms),
{
    match ms {
        None => {
            proof {
                assert(out@ =~= old(out)@ + media_html(*ms));
            }
        },
        Some(items) => {
            let mut i: usize = 0;
            while i < items.len()
                invariant
                    i <= items@.len(),
                    out@ == old(out)@ + media_list_html(items@, i as int),
                decreases items@.len() - i,
            {
                let piece = render_media_item(&items[i]);
                append_chars(out, &piece);
                i = i + 1;
            }
            proof {
                assert(out@ =~= old(out)@ + media_html(*ms));
            }
        },
    }
}

/// The narration block: present only when the audio and the caption
/// reference are both given; there is no partial state.
pub open spec fn audio_block(audio: Option<String>, caption: Option<String>) -> Seq<char> {
    match (audio, caption) {
        (Some(a), Some(c)) => "<audio id=\"narration-audio\" controls class=\"narration-audio\">\n<source src=\""@
            + xml_escape_seq(normalized_media_path(a@))
            + "\">\n<track kind=\"captions\" src=\""@ + xml_escape_seq(normalized_media_path(c@))
            + "\" srclang=\"en\" label=\"English\" default>\n</audio>\n"@,
        _ => Seq::<char>::empty(),
    }
}

/// Appends the narration block when both references are present.
pub fn append_audio_block(out: &mut Vec<char>, audio: &Option<String>, caption: &Option<String>)
    ensures
        final(out)@ == old(out)@ + audio_block(*audio, *caption),
{
    match (audio, caption) {
        (Some(a), Some(c)) => {
            append_str(
                out,
                "<audio id=\"narration-audio\" controls class=\"narration-audio\">\n<source src=\"",
            );
            let ap = crate::model::ensure_media_path(a.as_str());
            let asrc = xml_escape_chars(chars_to_string(&ap).as_str());
            append_chars(out, &asrc);
            append_str(out, "\">\n<track kind=\"captions\" src=\"");
            let cp = crate::model::ensure_media_path(c.as_str());
            let csrc = xml_escape_chars(chars_to_string(&cp).as_str());
            append_chars(out, &csrc);
            append_str(out, "\" srclang=\"en\" label=\"English\" default>\n</audio>\n");
            proof {
                assert(out@ =~= old(out)@ + audio_block(*audio, *caption));
            }
        },
        _ => {
            proof {
                assert(out@ =~= old(out)@ + audio_block(*audio, *caption));
            }
        },
    }
}

/// The positive feedback of a question: its own, else its explanation,
/// else the stock phrase.
pub open spec fn feedback_correct(q: Question) -> Seq<char> {
    match q.correct_feedback {
        Some(f) => f@,
        None => match q.explanation {
            Some(e) => e@,
            None => "Correct!"@,
        },
    }
}

/// The negative feedback of a question: its own, else the stock phrase.
pub open spec fn feedback_incorrect(q: Question) -> Seq<char> {
    match q.incorrect_feedback {
        Some(f) => f@,
        None => "Not quite. Try again!"@,
    }
}

/// The rendering of the first `n` options of a question.
pub open spec fn options_html(opts: Seq<String>, n: int, qindex: nat) -> Seq<char>
    decreases n,
{
    if n <= 0 {
        Seq::<char>::empty()
    } else {
        options_html(opts, n - 1, qindex) + ("<label class=\"option\"><input type=\"radio\" name=\"kc-q"@
            + dec_digits(qindex) + "\" value=\""@ + dec_digits((n - 1) as nat) + "\"><span>"@
            + xml_escape_seq(opts[n - 1]@) + "</span></label>\n"@)
    }
}

/// The answer widget of a question: radio options for choice kinds, a
/// text input carrying the expected class for fill-in-the-blank.
pub open spec fn question_widget(q: Question, index: nat) -> Seq<char> {
    if q.question_type@ == "multiple-choice"@ || q.question_type@ == "true-false"@ {
        match q.options {
            Some(opts) => options_html(opts@, opts@.len() as int, index),
            None => Seq::<char>::empty(),
        }
    } else if q.question_type@ == "fill-in-the-blank"@ {
        "<input type=\"text\" id=\"fill-blank-"@ + dec_digits(index)
            + "\" class=\"kc-fill-blank\">\n"@
    } else {
        Seq::<char>::empty()
    }
}

/// The rendering of one knowledge-check question, its index its identity.
pub open spec fn question_html(q: Question, index: nat) -> Seq<char> {
    "<div class=\"kc-question\" data-index=\""@ + dec_digits(index) + "\" data-type=\""@
        + xml_escape_seq(q.question_type@) + "\" data-correct-answer=\""@ + xml_escape_seq(
        q.correct_answer@,
    ) + "\" data-correct-feedback=\""@ + xml_escape_seq(feedback_correct(q))
        + "\" data-incorrect-feedback=\""@ + xml_escape_seq(feedback_incorrect(q)) + "\">\n<p>"@
        + xml_escape_seq(q.text@) + "</p>\n"@ + question_widget(q, index) + "</div>\n"@
}

/// The renderings of the first `n` questions.
pub open spec fn questions_html(qs: Seq<Question>, n: int) -> Seq<char>
    decreases n,
{
    if n <= 0 {
        Seq::<char>::empty()
    } else {
        questions_html(qs, n - 1) + question_html(qs[n - 1], (n - 1) as nat)
    }
}

/// Renders one question.
pub fn render_question(q: &Question, index: usize) -> (r: Vec<char>)
    ensures
        r@ == question_html(*q, index as nat),
{
    let mut out: Vec<char> = Vec::new();
    append_str(&mut out, "<div class=\"kc-question\" data-index=\"");
    let idx = usize_dec_chars(index);
    append_chars(&mut out, &idx);
    append_str(&mut out, "\" data-type=\"");
    let ty = xml_escape_chars(q.question_type.as_str());
    append_chars(&mut out, &ty);
    append_str(&mut out, "\" data-correct-answer=\"");
    let ans = xml_escape_chars(q.correct_answer.as_str());
    append_chars(&mut out, &ans);
    append_str(&mut out, "\" data-correct-feedback=\"");
    let cf = match &q.correct_feedback {
        Some(f) => xml_escape_chars(f.as_str()),
        None => match &q.explanation {
            Some(e) => xml_escape_chars(e.as_str()),
            None => xml_escape_chars("Correct!"),
        },
    };
    append_chars(&mut out, &cf);
    append_str(&mut out, "\" data-incorrect-feedback=\"");
    let icf = match &q.incorrect_feedback {
        Some(f) => xml_escape_chars(f.as_str()),
        None => xml_escape_chars("Not quite. Try again!"),
    };
    append_chars(&mut out, &icf);
    append_str(&mut out, "\">\n<p>");
    let text = xml_escape_chars(q.text.as_str());
    append_chars(&mut out, &text);
    append_str(&mut out, "</p>\n");
    let kind = string_to_chars(q.question_type.as_str());
    let multiple = string_to_chars("multiple-choice");
    let truefalse = string_to_chars("true-false");
    let blank = string_to_chars("fill-in-the-blank");
    if crate::text::chars_eq(&kind, &multiple) || crate::text::chars_eq(&kind, &truefalse) {
        match &q.options {
            Some(opts) => {
                let mut i: usize = 0;
                while i < opts.len()
                    invariant
                        i <= opts@.len(),
                        out@ == question_header(*q, index as nat) + options_html(
                            opts@,
                            i as int,
                            index as nat,
                        ),
                    decreases opts@.len() - i,
                {
                    append_str(&mut out, "<label class=\"option\"><input type=\"radio\" name=\"kc-q");
                    let qi = usize_dec_chars(index);
                    append_chars(&mut out, &qi);
                    append_str(&mut out, "\" value=\"");
                    let vi = usize_dec_chars(i);
                    append_chars(&mut out, &vi);
                    append_str(&mut out, "\"><span>");
                    let opt = xml_escape_chars(opts[i].as_str());
                    append_chars(&mut out, &opt);
                    append_str(&mut out, "</span></label>\n");
                    i = i + 1;
                }
            },
            None => {},
        }
    } else if crate::text::chars_eq(&kind, &blank) {
        append_str(&mut out, "<input type=\"text\" id=\"fill-blank-");
        let qi = usize_dec_chars(index);
        append_chars(&mut out, &qi);
        append_str(&mut out, "\" class=\"kc-fill-blank\">\n");
    }
    append_str(&mut out, "</div>\n");
    proof {
        assert(out@ =~= question_html(*q, index as nat));
    }
    out
}

/// The rendering of a question up to its answer widget.
pub open spec fn question_header(q: Question, index: nat) -> Seq<char> {
    "<div class=\"kc-question\" data-index=\""@ + dec_digits(index) + "\" data-type=\""@
        + xml_escape_seq(q.question_type@) + "\" data-correct-answer=\""@ + xml_escape_seq(
        q.correct_answer@,
    ) + "\" data-correct-feedback=\""@ + xml_escape_seq(feedback_correct(q))
        + "\" data-incorrect-feedback=\""@ + xml_escape_seq(feedback_incorrect(q)) + "\">\n<p>"@
        + xml_escape_seq(q.text@) + "</p>\n"@
}

/// The sidebar links of the first `n` topics.
pub open spec fn sidebar_links(ts: Seq<Topic>, n: int) -> Seq<char>
    decreases n,
{
    if n <= 0 {
        Seq::<char>::empty()
    } else {
        sidebar_links(ts, n - 1) + ("<li><a class=\"sidebar-link\" data-page=\""@ + xml_escape_seq(
            ts[n - 1].id@,
        ) + "\" href=\"#\">"@ + xml_escape_seq(ts[n - 1].title@) + "</a></li>\n"@)
    }
}

/// The index shell of a course: title, sidebar, content and alert
/// containers, progress indicator, and the navigation buttons.
pub open spec fn index_text(r: GenerateScormRequest) -> Seq<char> {
    "<!DOCTYPE html>\n<html lang=\"en\">\n<head>\n<meta charset=\"UTF-8\">\n<title>"@
        + xml_escape_seq(r.course_title@)
        + "</title>\n<link rel=\"stylesheet\" href=\"styles/main.css\">\n</head>\n<body>\n"@ + (
    if crate::style::show_outline_eff(r) {
        "<nav class=\"sidebar\">"@
    } else {
        "<nav class=\"sidebar\" style=\"display: none;\">"@
    }) + "\n<ul>\n"@ + sidebar_links(r.topics@, r.topics@.len() as int)
        + "</ul>\n</nav>\n<div class=\"main-area\">\n<div id=\"content-container\"></div>\n</div>\n"@
        + (if crate::style::show_progress_eff(r) {
        "<div class=\"progress-circle-container\"></div>\n"@
    } else {
        Seq::<char>::empty()
    })
        + "<div id=\"scorm-alert-container\"></div>\n<footer class=\"footer\">\n<button id=\"prev-button\" class=\"nav-button\">Previous</button>\n<button id=\"next-button\" class=\"nav-button\">Next</button>\n</footer>\n<script src=\"scripts/navigation.js\"></script>\n</body>\n</html>\n"@
}

/// The welcome page of a course.
pub open spec fn welcome_text(w: WelcomePage, has_objectives: bool) -> Seq<char> {
    "<div class=\"page-content\" id=\"welcome\">\n<h1>"@ + xml_escape_seq(w.title@)
        + "</h1>\n<div class=\"content\">"@ + br_text(w.content@) + "</div>\n"@ + (
    match w.image_url {
        Some(u) => "<img src=\""@ + xml_escape_seq(normalized_media_path(u@))
            + "\" class=\"content-image\" />\n"@,
        None => Seq::<char>::empty(),
    }) + media_html(w.media) + audio_block(w.audio_file, w.caption_file)
        + "<button class=\"start-button\" data-next=\""@ + (if has_objectives {
        "objectives"@
    } else {
        "topic-1"@
    }) + "\">"@ + xml_escape_seq(w.start_button_text@) + "</button>\n</div>\n"@
}

/// The objectives of the first `n` entries.
pub open spec fn objectives_items(os: Seq<String>, n: int) -> Seq<char>
    decreases n,
{
    if n <= 0 {
        Seq::<char>::empty()
    } else {
        objectives_items(os, n - 1) + ("<li>"@ + xml_escape_seq(os[n - 1]@) + "</li>\n"@)
    }
}

/// The learning-objectives page of a course.
pub open spec fn objectives_text(o: ObjectivesPage) -> Seq<char> {
    "<div class=\"page-content\" id=\"objectives\">\n<h2>Learning Objectives</h2>\n<ul class=\"objectives-list\">\n"@
        + objectives_items(o.objectives@, o.objectives@.len() as int) + "</ul>\n"@ + media_html(
        o.media,
    ) + audio_block(o.audio_file, o.caption_file) + "</div>\n"@
}

/// True iff a topic's image reference should render: it either names no
/// ordinary image file, or is an absolute url, or an extensionless
/// `media/image-` asset; clearly broken placeholder paths degrade to
/// nothing rather than a broken image.
pub open spec fn image_renderable(u: Seq<char>) -> bool {
    ||| !(contains_seq(u, ".jpg"@) || contains_seq(u, ".jpeg"@) || contains_seq(u, ".png"@)
        || contains_seq(u, ".gif"@))
    ||| crate::model::starts_with(u, "http://"@)
    ||| crate::model::starts_with(u, "https://"@)
    ||| (crate::model::starts_with(u, "media/image-"@) && !contains_seq(u, "."@))
}

/// Decides whether a topic's image reference should render.
pub fn image_renderable_exec(u: &str) -> (r: bool)
    ensures
        r == image_renderable(u@),
{
    let cs = string_to_chars(u);
    let jpg = string_to_chars(".jpg");
    let jpeg = string_to_chars(".jpeg");
    let png = string_to_chars(".png");
    let gif = string_to_chars(".gif");
    let http = string_to_chars("http://");
    let https = string_to_chars("https://");
    let media_image = string_to_chars("media/image-");
    let dot = string_to_chars(".");
    let has_ext = contains_chars(&cs, &jpg) || contains_chars(&cs, &jpeg) || contains_chars(
        &cs,
        &png,
    ) || contains_chars(&cs, &gif);
    !has_ext || crate::model::starts_with_exec(&cs, &http) || crate::model::starts_with_exec(
        &cs,
        &https,
    ) || (crate::model::starts_with_exec(&cs, &media_image) && !contains_chars(&cs, &dot))
}

/// The image block of a topic, filtered through `image_renderable`.
pub open spec fn topic_image_html(u: Option<String>) -> Seq<char> {
    match u {
        Some(url) => if image_renderable(url@) {
            "<img src=\""@ + xml_escape_seq(normalized_media_path(url@))
                + "\" class=\"content-image\" />\n"@
        } else {
            Seq::<char>::empty()
        },
        None => Seq::<char>::empty(),
    }
}

/// The knowledge-check block of a topic: its questions, then the one
/// submit button wired to the unified handler.
pub open spec fn knowledge_check_html(t: Topic) -> Seq<char> {
    if topic_has_check(t) {
        "<div class=\"knowledge-check-container\">\n"@ + questions_html(
            t.knowledge_check->0.questions@,
            t.knowledge_check->0.questions@.len() as int,
        ) + "<button class=\"kc-submit\" onclick=\"window.submitAllKnowledgeChecks('"@
            + xml_escape_seq(t.id@) + "')\">Submit</button>\n</div>\n"@
    } else {
        Seq::<char>::empty()
    }
}

/// A topic page: heading, rich content, filtered image, media, knowledge
/// check and narration.
pub open spec fn topic_text(t: Topic) -> Seq<char> {
    "<div class=\"page-content\" id=\""@ + xml_escape_seq(t.id@) + "\">\n<h1>"@ + xml_escape_seq(
        t.title@,
    ) + "</h1>\n<div class=\"content\">"@ + t.content@ + "</div>\n"@ + topic_image_html(
        t.image_url,
    ) + media_html(t.media) + knowledge_check_html(t) + audio_block(t.audio_file, t.caption_file)
        + "</div>\n"@
}

/// The assessment page: every question, then the unified submit button.
pub open spec fn assessment_text(a: Assessment) -> Seq<char> {
    "<div class=\"page-content\" id=\"assessment\">\n<h1>Assessment</h1>\n<div class=\"assessment-questions\">\n"@
        + questions_html(a.questions@, a.questions@.len() as int)
        + "</div>\n<button class=\"kc-submit\" onclick=\"window.submitAllKnowledgeChecks('assessment')\">Submit</button>\n</div>\n"@
}

/// The page renderer: one function per page kind.
#[derive(Debug)]
pub struct HtmlGenerator {
    pub has_objectives: bool,
}

impl HtmlGenerator {
    /// Prepares a page renderer; preparation cannot fail here.
    pub fn new() -> (r: Result<HtmlGenerator, String>)
        ensures
            match r {
                Ok(g) => g.has_objectives == false,
                Err(_) => false,
            },
    {
        Ok(HtmlGenerator { has_objectives: false })
    }

    /// Marks whether the course carries an objectives page, which decides
    /// where the welcome page's start button leads.
    pub fn with_objectives(self, has_objectives: bool) -> (r: HtmlGenerator)
        ensures
            r.has_objectives == has_objectives,
    {
        HtmlGenerator { has_objectives }
    }

    /// Renders the index shell; the text is exactly `index_text`.
    pub fn generate_index_html(&self, request: &GenerateScormRequest) -> (r: Result<String, String>)
        ensures
            match r {
                Ok(text) => text@ == index_text(*request),
                Err(_) => false,
            },
    {
        let mut out: Vec<char> = Vec::new();
        append_str(
            &mut out,
            "<!DOCTYPE html>\n<html lang=\"en\">\n<head>\n<meta charset=\"UTF-8\">\n<title>",
        );
        let title = xml_escape_chars(request.course_title.as_str());
        append_chars(&mut out, &title);
        append_str(
            &mut out,
            "</title>\n<link rel=\"stylesheet\" href=\"styles/main.css\">\n</head>\n<body>\n",
        );
        let outline = match &request.show_outline {
            Some(b) => *b,
            None => true,
        };
        if outline {
            append_str(&mut out, "<nav class=\"sidebar\">");
        } else {
            append_str(&mut out, "<nav class=\"sidebar\" style=\"display: none;\">");
        }
        append_str(&mut out, "\n<ul>\n");
        let mut i: usize = 0;
        while i < request.topics.len()
            invariant
                i <= request.topics@.len(),
                out@ == index_head(*request) + sidebar_links(request.topics@, i as int),
            decreases request.topics@.len() - i,
        {
            append_str(&mut out, "<li><a class=\"sidebar-link\" data-page=\"");
            let id = xml_escape_chars(request.topics[i].id.as_str());
            append_chars(&mut out, &id);
            append_str(&mut out, "\" href=\"#\">");
            let t = xml_escape_chars(request.topics[i].title.as_str());
            append_chars(&mut out, &t);
            append_str(&mut out, "</a></li>\n");
            i = i + 1;
        }
        append_str(
            &mut out,
            "</ul>\n</nav>\n<div class=\"main-area\">\n<div id=\"content-container\"></div>\n</div>\n",
        );
        let progress = match &request.show_progress {
            Some(b) => *b,
            None => true,
        };
        if progress {
            append_str(&mut out, "<div class=\"progress-circle-container\"></div>\n");
        }
        append_str(
            &mut out,
            "<div id=\"scorm-alert-container\"></div>\n<footer class=\"footer\">\n<button id=\"prev-button\" class=\"nav-button\">Previous</button>\n<button id=\"next-button\" class=\"nav-button\">Next</button>\n</footer>\n<script src=\"scripts/navigation.js\"></script>\n</body>\n</html>\n",
        );
        proof {
            assert(out@ =~= index_text(*request));
        }
        Ok(chars_to_string(&out))
    }

    /// Renders the welcome page; the text is exactly `welcome_text`.
    pub fn generate_welcome_page(&self, welcome: &WelcomePage) -> (r: Result<String, String>)
        ensures
            match r {
                Ok(text) => text@ == welcome_text(*welcome, self.has_objectives),
                Err(_) => false,
            },
    {
        let mut out: Vec<char> = Vec::new();
        append_str(&mut out, "<div class=\"page-content\" id=\"welcome\">\n<h1>");
        let title = xml_escape_chars(welcome.title.as_str());
        append_chars(&mut out, &title);
        append_str(&mut out, "</h1>\n<div class=\"content\">");
        let content = render_br(welcome.content.as_str());
        append_chars(&mut out, &content);
        append_str(&mut out, "</div>\n");
        match &welcome.image_url {
            Some(u) => {
                append_str(&mut out, "<img src=\"");
                let p = crate::model::ensure_media_path(u.as_str());
                let src = xml_escape_chars(chars_to_string(&p).as_str());
                append_chars(&mut out, &src);
                append_str(&mut out, "\" class=\"content-image\" />\n");
            },
            None => {},
        }
        append_media(&mut out, &welcome.media);
        append_audio_block(&mut out, &welcome.audio_file, &welcome.caption_file);
        append_str(&mut out, "<button class=\"start-button\" data-next=\"");
        if self.has_objectives {
            append_str(&mut out, "objectives");
        } else {
            append_str(&mut out, "topic-1");
        }
        append_str(&mut out, "\">");
        let btn = xml_escape_chars(welcome.start_button_text.as_str());
        append_chars(&mut out, &btn);
        append_str(&mut out, "</button>\n</div>\n");
        proof {
            assert(out@ =~= welcome_text(*welcome, self.has_objectives));
        }
        Ok(chars_to_string(&out))
    }

    /// Renders the objectives page; the text is exactly `objectives_text`.
    pub fn generate_objectives_page(&self, objectives: &ObjectivesPage) -> (r: Result<
        String,
        String,
    >)
        ensures
            match r {
                Ok(text) => text@ == objectives_text(*objectives),
                Err(_) => false,
            },
    {
        let mut out: Vec<char> = Vec::new();
        append_str(
            &mut out,
            "<div class=\"page-content\" id=\"objectives\">\n<h2>Learning Objectives</h2>\n<ul class=\"objectives-list\">\n",
        );
        let mut i: usize = 0;
        while i < objectives.objectives.len()
            invariant
                i <= objectives.objectives@.len(),
                out@ == "<div class=\"page-content\" id=\"objectives\">\n<h2>Learning Objectives</h2>\n<ul class=\"objectives-list\">\n"@
                    + objectives_items(objectives.objectives@, i as int),
            decreases objectives.objectives@.len() - i,
        {
            append_str(&mut out, "<li>");
            let o = xml_escape_chars(objectives.objectives[i].as_str());
            append_chars(&mut out, &o);
            append_str(&mut out, "</li>\n");
            i = i + 1;
        }
        append_str(&mut out, "</ul>\n");
        append_media(&mut out, &objectives.media);
        append_audio_block(&mut out, &objectives.audio_file, &objectives.caption_file);
        append_str(&mut out, "</div>\n");
        proof {
            assert(out@ =~= objectives_text(*objectives));
        }
        Ok(chars_to_string(&out))
    }

    /// Renders a topic page; the text is exactly `topic_text`.
    #[verifier::rlimit(100)]
    pub fn generate_topic_page(&self, topic: &Topic) -> (r: Result<String, String>)
        ensures
            match r {
                Ok(text) => text@ == topic_text(*topic),
                Err(_) => false,
            },
    {
        let mut out: Vec<char> = Vec::new();
        append_str(&mut out, "<div class=\"page-content\" id=\"");
        let id = xml_escape_chars(topic.id.as_str());
        append_chars(&mut out, &id);
        append_str(&mut out, "\">\n<h1>");
        let title = xml_escape_chars(topic.title.as_str());
        append_chars(&mut out, &title);
        append_str(&mut out, "</h1>\n<div class=\"content\">");
        append_str(&mut out, topic.content.as_str());
        append_str(&mut out, "</div>\n");
        match &topic.image_url {
            Some(u) => {
                if image_renderable_exec(u.as_str()) {
                    append_str(&mut out, "<img src=\"");
                    let p = crate::model::ensure_media_path(u.as_str());
                    let src = xml_escape_chars(chars_to_string(&p).as_str());
                    append_chars(&mut out, &src);
                    append_str(&mut out, "\" class=\"content-image\" />\n");
                }
            },
            None => {},
        }
        append_media(&mut out, &topic.media);
        if topic_has_check_exec(topic) {
            append_str(&mut out, "<div class=\"knowledge-check-container\">\n");
            let ghost kc_head = out@;
            match &topic.knowledge_check {
                Some(kc) => {
                    let mut i: usize = 0;
                    while i < kc.questions.len()
                        invariant
                            i <= kc.questions@.len(),
                            out@ == kc_head + questions_html(kc.questions@, i as int),
                        decreases kc.questions@.len() - i,
                    {
                        let piece = render_question(&kc.questions[i], i);
                        append_chars(&mut out, &piece);
                        i = i + 1;
                    }
                },
                None => {},
            }
            append_str(&mut out, "<button class=\"kc-submit\" onclick=\"window.submitAllKnowledgeChecks('");
            append_chars(&mut out, &id);
            append_str(&mut out, "')\">Submit</button>\n</div>\n");
        }
        append_audio_block(&mut out, &topic.audio_file, &topic.caption_file);
        append_str(&mut out, "</div>\n");
        proof {
            assert(out@ =~= topic_text(*topic));
        }
        Ok(chars_to_string(&out))
    }

    /// Renders the assessment page; the text is exactly `assessment_text`.
    pub fn generate_assessment_page(&self, assessment: &Assessment) -> (r: Result<String, String>)
        ensures
            match r {
                Ok(text) => text@ == assessment_text(*assessment),
                Err(_) => false,
            },
    {
        let mut out: Vec<char> = Vec::new();
        append_str(
            &mut out,
            "<div class=\"page-content\" id=\"assessment\">\n<h1>Assessment</h1>\n<div class=\"assessment-questions\">\n",
        );
        let ghost head = out@;
        let mut i: usize = 0;
        while i < assessment.questions.len()
            invariant
                i <= assessment.questions@.len(),
                out@ == head + questions_html(assessment.questions@, i as int),
            decreases assessment.questions@.len() - i,
        {
            let piece = render_question(&assessment.questions[i], i);
            append_chars(&mut out, &piece);
            i = i + 1;
        }
        append_str(
            &mut out,
            "</div>\n<button class=\"kc-submit\" onclick=\"window.submitAllKnowledgeChecks('assessment')\">Submit</button>\n</div>\n",
        );
        proof {
            assert(out@ =~= assessment_text(*assessment));
        }
        Ok(chars_to_string(&out))
    }
}

/// The index shell up to the topic links.
pub open spec fn index_head(r: GenerateScormRequest) -> Seq<char> {
    "<!DOCTYPE html>\n<html lang=\"en\">\n<head>\n<meta charset=\"UTF-8\">\n<title>"@
        + xml_escape_seq(r.course_title@)
        + "</title>\n<link rel=\"stylesheet\" href=\"styles/main.css\">\n</head>\n<body>\n"@ + (
    if crate::style::show_outline_eff(r) {
        "<nav class=\"sidebar\">"@
    } else {
        "<nav class=\"sidebar\" style=\"display: none;\">"@
    }) + "\n<ul>\n"@
}

/// The index shell carries the navigation buttons, the content container
/// and the alert container, whatever the course.
#[verifier::rlimit(60)]
pub proof fn lemma_index_contains_required(r: GenerateScormRequest)
    ensures
        contains_seq(index_text(r), "id=\"prev-button\""@),
        contains_seq(index_text(r), "id=\"next-button\""@),
        contains_seq(index_text(r), "id=\"content-container\""@),
        contains_seq(index_text(r), "id=\"scorm-alert-container\""@),
{
    let mid = "</ul>\n</nav>\n<div class=\"main-area\">\n<div id=\"content-container\"></div>\n</div>\n"@;
    let fin = "<div id=\"scorm-alert-container\"></div>\n<footer class=\"footer\">\n<button id=\"prev-button\" class=\"nav-button\">Previous</button>\n<button id=\"next-button\" class=\"nav-button\">Next</button>\n</footer>\n<script src=\"scripts/navigation.js\"></script>\n</body>\n</html>\n"@;
    reveal_strlit(
        "</ul>\n</nav>\n<div class=\"main-area\">\n<div id=\"content-container\"></div>\n</div>\n",
    );
    reveal_strlit(
        "<div id=\"scorm-alert-container\"></div>\n<footer class=\"footer\">\n<button id=\"prev-button\" class=\"nav-button\">Previous</button>\n<button id=\"next-button\" class=\"nav-button\">Next</button>\n</footer>\n<script src=\"scripts/navigation.js\"></script>\n</body>\n</html>\n",
    );
    reveal_strlit("id=\"prev-button\"");
    reveal_strlit("id=\"next-button\"");
    reveal_strlit("id=\"content-container\"");
    reveal_strlit("id=\"scorm-alert-container\"");
    assert(occurs_at(mid, "id=\"content-container\""@, 42)) by {
        assert(mid.subrange(42, 64) =~= "id=\"content-container\""@);
    }
    assert(occurs_at(fin, "id=\"scorm-alert-container\""@, 5)) by {
        assert(fin.subrange(5, 31) =~= "id=\"scorm-alert-container\""@);
    }
    assert(occurs_at(fin, "id=\"prev-button\""@, 71)) by {
        assert(fin.subrange(71, 87) =~= "id=\"prev-button\""@);
    }
    assert(occurs_at(fin, "id=\"next-button\""@, 133)) by {
        assert(fin.subrange(133, 149) =~= "id=\"next-button\""@);
    }
    lemma_lift_index_mid(r, "id=\"content-container\""@);
    lemma_lift_index_fin(r, "id=\"scorm-alert-container\""@);
    lemma_lift_index_fin(r, "id=\"prev-button\""@);
    lemma_lift_index_fin(r, "id=\"next-button\""@);
}

/// A needle in the middle containers block is in the whole index shell.
proof fn lemma_lift_index_mid(r: GenerateScormRequest, n: Seq<char>)
    requires
        contains_seq(
            "</ul>\n</nav>\n<div class=\"main-area\">\n<div id=\"content-container\"></div>\n</div>\n"@,
            n,
        ),
    ensures
        contains_seq(index_text(r), n),
{
    let prefix = index_head(r) + sidebar_links(r.topics@, r.topics@.len() as int);
    let mid = "</ul>\n</nav>\n<div class=\"main-area\">\n<div id=\"content-container\"></div>\n</div>\n"@;
    let prog: Seq<char> = if crate::style::show_progress_eff(r) {
        "<div class=\"progress-circle-container\"></div>\n"@
    } else {
        Seq::<char>::empty()
    };
    lemma_contains_concat(prefix, mid, n);
    lemma_contains_concat(prefix + mid, prog, n);
    lemma_contains_concat(
        prefix + mid + prog,
        "<div id=\"scorm-alert-container\"></div>\n<footer class=\"footer\">\n<button id=\"prev-button\" class=\"nav-button\">Previous</button>\n<button id=\"next-button\" class=\"nav-button\">Next</button>\n</footer>\n<script src=\"scripts/navigation.js\"></script>\n</body>\n</html>\n"@,
        n,
    );
    assert(index_text(r) =~= prefix + mid + prog
        + "<div id=\"scorm-alert-container\"></div>\n<footer class=\"footer\">\n<button id=\"prev-button\" class=\"nav-button\">Previous</button>\n<button id=\"next-button\" class=\"nav-button\">Next</button>\n</footer>\n<script src=\"scripts/navigation.js\"></script>\n</body>\n</html>\n"@);
}

/// A needle in the closing block is in the whole index shell.
proof fn lemma_lift_index_fin(r: GenerateScormRequest, n: Seq<char>)
    requires
        contains_seq(
            "<div id=\"scorm-alert-container\"></div>\n<footer class=\"footer\">\n<button id=\"prev-button\" class=\"nav-button\">Previous</button>\n<button id=\"next-button\" class=\"nav-button\">Next</button>\n</footer>\n<script src=\"scripts/navigation.js\"></script>\n</body>\n</html>\n"@,
            n,
        ),
    ensures
        contains_seq(index_text(r), n),
{
    let prefix = index_head(r) + sidebar_links(r.topics@, r.topics@.len() as int)
        + "</ul>\n</nav>\n<div class=\"main-area\">\n<div id=\"content-container\"></div>\n</div>\n"@
        + (if crate::style::show_progress_eff(r) {
        "<div class=\"progress-circle-container\"></div>\n"@
    } else {
        Seq::<char>::empty()
    });
    lemma_contains_concat(
        prefix,
        "<div id=\"scorm-alert-container\"></div>\n<footer class=\"footer\">\n<button id=\"prev-button\" class=\"nav-button\">Previous</button>\n<button id=\"next-button\" class=\"nav-button\">Next</button>\n</footer>\n<script src=\"scripts/navigation.js\"></script>\n</body>\n</html>\n"@,
        n,
    );
    assert(index_text(r) =~= prefix
        + "<div id=\"scorm-alert-container\"></div>\n<footer class=\"footer\">\n<button id=\"prev-button\" class=\"nav-button\">Previous</button>\n<button id=\"next-button\" class=\"nav-button\">Next</button>\n</footer>\n<script src=\"scripts/navigation.js\"></script>\n</body>\n</html>\n"@);
}

} // verus!
