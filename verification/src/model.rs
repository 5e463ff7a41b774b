//! The course model: topics, pages, knowledge checks, questions and media
//! references, together with the centralized media classification rules
//! that every generator shares.
use vstd::prelude::*;
use crate::text::{contains_chars, contains_seq, find_from, matches_at, occurs_at, string_to_chars};
use crate::xml::prefix_matches_from;

verus! {

/// One question of a knowledge check or assessment.
#[derive(Debug, Clone)]
pub struct Question {
    pub question_type: String,
    pub text: String,
    pub options: Option<Vec<String>>,
    pub correct_answer: String,
    pub explanation: Option<String>,
    pub correct_feedback: Option<String>,
    pub incorrect_feedback: Option<String>,
}

/// The gating quiz attached to a topic.
#[derive(Debug, Clone)]
pub struct KnowledgeCheck {
    pub enabled: bool,
    pub questions: Vec<Question>,
}

/// A media reference carried by a page.
#[derive(Debug, Clone)]
pub struct MediaItem {
    pub id: String,
    pub media_type: String,
    pub url: String,
    pub title: String,
    pub embed_url: Option<String>,
    pub is_youtube: Option<bool>,
}

/// One topic of the course.
#[derive(Debug, Clone)]
pub struct Topic {
    pub id: String,
    pub title: String,
    pub content: String,
    pub knowledge_check: Option<KnowledgeCheck>,
    pub audio_file: Option<String>,
    pub caption_file: Option<String>,
    pub image_url: Option<String>,
    pub media: Option<Vec<MediaItem>>,
}

/// The welcome page of the course.
#[derive(Debug, Clone)]
pub struct WelcomePage {
    pub title: String,
    pub content: String,
    pub start_button_text: String,
    pub audio_file: Option<String>,
    pub caption_file: Option<String>,
    pub image_url: Option<String>,
    pub media: Option<Vec<MediaItem>>,
}

/// The learning-objectives page of the course.
#[derive(Debug, Clone)]
pub struct ObjectivesPage {
    pub objectives: Vec<String>,
    pub audio_file: Option<String>,
    pub caption_file: Option<String>,
    pub image_url: Option<String>,
    pub media: Option<Vec<MediaItem>>,
}

/// The final assessment of the course.
#[derive(Debug, Clone)]
pub struct Assessment {
    pub questions: Vec<Question>,
}

/// A full course build request.
#[derive(Debug)]
pub struct GenerateScormRequest {
    pub course_title: String,
    pub course_description: Option<String>,
    pub welcome_page: Option<WelcomePage>,
    pub learning_objectives_page: Option<ObjectivesPage>,
    pub topics: Vec<Topic>,
    pub assessment: Option<Assessment>,
    pub pass_mark: u32,
    pub navigation_mode: String,
    pub allow_retake: bool,
    pub font_size: Option<String>,
    pub show_progress: Option<bool>,
    pub show_outline: Option<bool>,
    pub printable: Option<bool>,
}

impl Default for Topic {
    /// An empty topic: every text blank, every optional section absent.
    fn default() -> (r: Self)
        ensures
            r.id@ == Seq::<char>::empty(),
            r.title@ == Seq::<char>::empty(),
            r.content@ == Seq::<char>::empty(),
            r.knowledge_check is None,
            r.audio_file is None,
            r.caption_file is None,
            r.image_url is None,
            r.media is None,
    {
        Topic {
            id: String::new(),
            title: String::new(),
            content: String::new(),
            knowledge_check: None,
            audio_file: None,
            caption_file: None,
            image_url: None,
            media: None,
        }
    }
}

impl Default for GenerateScormRequest {
    /// An empty linear course with the customary pass mark of eighty and
    /// retakes allowed.
    fn default() -> (r: Self)
        ensures
            r.course_title@ == Seq::<char>::empty(),
            r.course_description is None,
            r.welcome_page is None,
            r.learning_objectives_page is None,
            r.topics@.len() == 0,
            r.assessment is None,
            r.pass_mark == 80,
            r.navigation_mode@ == "linear"@,
            r.allow_retake == true,
            r.font_size is None,
            r.show_progress is None,
            r.show_outline is None,
            r.printable is None,
    {
        GenerateScormRequest {
            course_title: String::new(),
            course_description: None,
            welcome_page: None,
            learning_objectives_page: None,
            topics: Vec::new(),
            assessment: None,
            pass_mark: 80,
            navigation_mode: linear_mode(),
            allow_retake: true,
            font_size: None,
            show_progress: None,
            show_outline: None,
            printable: None,
        }
    }
}

/// The literal for linear navigation mode.
fn linear_mode() -> (r: String)
    ensures
        r@ == "linear"@,
{
    let v = string_to_chars("linear");
    crate::text::chars_to_string(&v)
}

/// A topic gates navigation iff it carries an enabled knowledge check with
/// at least one question.
pub open spec fn topic_has_check(t: Topic) -> bool {
    match t.knowledge_check {
        Some(kc) => kc.enabled && kc.questions.len() > 0,
        None => false,
    }
}

/// Decides whether a topic carries a live knowledge check.
pub fn topic_has_check_exec(t: &Topic) -> (r: bool)
    ensures
        r == topic_has_check(*t),
{
    match &t.knowledge_check {
        Some(kc) => kc.enabled && kc.questions.len() > 0,
        None => false,
    }
}

/// True iff `s` begins with `prefix`.
pub open spec fn starts_with(s: Seq<char>, prefix: Seq<char>) -> bool {
    occurs_at(s, prefix, 0)
}

/// Decides whether `s` begins with `prefix`.
pub fn starts_with_exec(s: &Vec<char>, prefix: &Vec<char>) -> (r: bool)
    ensures
        r == starts_with(s@, prefix@),
{
    if prefix.len() > s.len() {
        return false;
    }
    matches_at(s, prefix, 0)
}

/// A url names an external video host iff it mentions one of the known
/// host markers.
pub open spec fn is_external_video_url(url: Seq<char>) -> bool {
    contains_seq(url, "youtube.com"@) || contains_seq(url, "youtu.be"@)
}

/// Decides whether a url names an external video host.
pub fn is_external_video(url: &str) -> (r: bool)
    ensures
        r == is_external_video_url(url@),
{
    let cs = string_to_chars(url);
    let m1 = string_to_chars("youtube.com");
    let m2 = string_to_chars("youtu.be");
    contains_chars(&cs, &m1) || contains_chars(&cs, &m2)
}

/// The one rule deciding whether a media item is an embedded external
/// video: the explicit flag when set, else the host markers of the embed
/// url or the url.
pub open spec fn media_is_external_video(m: MediaItem) -> bool {
    match m.is_youtube {
        Some(b) => b,
        None => (match m.embed_url {
            Some(e) => is_external_video_url(e@),
            None => false,
        }) || is_external_video_url(m.url@),
    }
}

/// Decides whether a media item is an embedded external video.
pub fn media_is_external_video_exec(m: &MediaItem) -> (r: bool)
    ensures
        r == media_is_external_video(*m),
{
    match &m.is_youtube {
        Some(b) => *b,
        None => {
            let from_embed = match &m.embed_url {
                Some(e) => is_external_video(e.as_str()),
                None => false,
            };
            from_embed || is_external_video(m.url.as_str())
        },
    }
}

/// A path already resolves outside the media directory iff it is absolute
/// (`http://`, `https://`, protocol-relative `//`) or already under `media/`.
pub open spec fn media_path_is_resolved(p: Seq<char>) -> bool {
    ||| starts_with(p, "http://"@)
    ||| starts_with(p, "https://"@)
    ||| starts_with(p, "//"@)
    ||| starts_with(p, "media/"@)
}

/// The normalized archive path of a media reference: resolved paths pass
/// through, every other path moves under `media/`.
pub open spec fn normalized_media_path(p: Seq<char>) -> Seq<char> {
    if media_path_is_resolved(p) {
        p
    } else {
        "media/"@ + p
    }
}

/// Normalizes a media reference to its archive path.
pub fn ensure_media_path(p: &str) -> (r: Vec<char>)
    ensures
        r@ == normalized_media_path(p@),
{
    let cs = string_to_chars(p);
    let h1 = string_to_chars("http://");
    let h2 = string_to_chars("https://");
    let h3 = string_to_chars("//");
    let h4 = string_to_chars("media/");
    if starts_with_exec(&cs, &h1) || starts_with_exec(&cs, &h2) || starts_with_exec(&cs, &h3)
        || starts_with_exec(&cs, &h4) {
        cs
    } else {
        let mut out = string_to_chars("media/");
        crate::text::append_chars(&mut out, &cs);
        out
    }
}

/// The first index at or after `at` where `needle` occurs in `hay`.
pub open spec fn find_first_from(hay: Seq<char>, needle: Seq<char>, at: int) -> Option<int>
    decreases hay.len() - at when 0 <= at
{
    if at + needle.len() > hay.len() {
        None
    } else if prefix_matches_from(hay, needle, at, 0) {
        Some(at)
    } else {
        find_first_from(hay, needle, at + 1)
    }
}

/// `find_first_from` names exactly the first occurrence.
pub proof fn lemma_find_first_from(hay: Seq<char>, needle: Seq<char>, at: int)
    requires
        0 <= at,
    ensures
        match find_first_from(hay, needle, at) {
            Some(i) => {
                &&& at <= i
                &&& occurs_at(hay, needle, i)
                &&& forall|k: int| at <= k < i ==> !occurs_at(hay, needle, k)
            },
            None => forall|k: int| at <= k ==> !occurs_at(hay, needle, k),
        },
    decreases hay.len() - at,
{
    if at + needle.len() > hay.len() {
    } else {
        crate::xml::lemma_prefix_matches_occurs(hay, needle, at);
        if prefix_matches_from(hay, needle, at, 0) {
        } else {
            lemma_find_first_from(hay, needle, at + 1);
        }
    }
}

/// The platform id taken out of an external-video url: the text after
/// `watch?v=` up to the next `&`, or after `youtu.be/` up to the next `?`;
/// nothing when neither shape matches.
pub open spec fn extracted_video_id(url: Seq<char>) -> Option<Seq<char>> {
    match find_first_from(url, "watch?v="@, 0) {
        Some(i) => {
            let id_start = i + 8;
            let id_end = match find_first_from(url, "&"@, id_start) {
                Some(j) => j,
                None => url.len() as int,
            };
            Some(url.subrange(id_start, id_end))
        },
        None => match find_first_from(url, "youtu.be/"@, 0) {
            Some(i) => {
                let id_start = i + 9;
                let id_end = match find_first_from(url, "?"@, id_start) {
                    Some(j) => j,
                    None => url.len() as int,
                };
                Some(url.subrange(id_start, id_end))
            },
            None => None,
        },
    }
}

/// Extracts the platform id from an external-video url, if one of the two
/// known shapes matches; never fails on other text.
pub fn extract_video_id(url: &str) -> (r: Option<Vec<char>>)
    ensures
        match r {
            Some(id) => extracted_video_id(url@) == Some(id@),
            None => extracted_video_id(url@) is None,
        },
{
    let cs = string_to_chars(url);
    let watch = string_to_chars("watch?v=");
    let short = string_to_chars("youtu.be/");
    let amp = string_to_chars("&");
    let query = string_to_chars("?");
    let total = cs.len();
    proof {
        assert(total == cs@.len());
        reveal_strlit("watch?v=");
        reveal_strlit("youtu.be/");
        reveal_strlit("&");
        reveal_strlit("?");
        lemma_find_first_from(url@, "watch?v="@, 0);
    }
    match find_from(&cs, &watch, 0) {
        Some(i) => {
            let id_start = i + 8;
            proof {
                lemma_find_first_from(url@, "&"@, id_start as int);
                lemma_find_first_same(url@, "watch?v="@, 0);
                lemma_find_first_same(url@, "&"@, id_start as int);
            }
            let id_end = match find_from(&cs, &amp, id_start) {
                Some(j) => j,
                None => cs.len(),
            };
            let mut out: Vec<char> = Vec::new();
            let mut k: usize = id_start;
            while k < id_end
                invariant
                    id_start <= k <= id_end,
                    id_end <= cs@.len(),
                    cs@ == url@,
                    out@ == url@.subrange(id_start as int, k as int),
                decreases id_end - k,
            {
                out.push(cs[k]);
                proof {
                    assert(out@ =~= url@.subrange(id_start as int, k + 1 as int));
                }
                k = k + 1;
            }
            Some(out)
        },
        None => {
            proof {
                lemma_find_first_from(url@, "youtu.be/"@, 0);
                lemma_find_first_same(url@, "watch?v="@, 0);
            }
            match find_from(&cs, &short, 0) {
                Some(i) => {
                    let id_start = i + 9;
                    proof {
                        lemma_find_first_from(url@, "?"@, id_start as int);
                        lemma_find_first_same(url@, "youtu.be/"@, 0);
                        lemma_find_first_same(url@, "?"@, id_start as int);
                    }
                    let id_end = match find_from(&cs, &query, id_start) {
                        Some(j) => j,
                        None => cs.len(),
                    };
                    let mut out: Vec<char> = Vec::new();
                    let mut k: usize = id_start;
                    while k < id_end
                        invariant
                            id_start <= k <= id_end,
                            id_end <= cs@.len(),
                            cs@ == url@,
                            out@ == url@.subrange(id_start as int, k as int),
                        decreases id_end - k,
                    {
                        out.push(cs[k]);
                        proof {
                            assert(out@ =~= url@.subrange(id_start as int, k + 1 as int));
                        }
                        k = k + 1;
                    }
                    Some(out)
                },
                None => {
                    proof {
                        lemma_find_first_same(url@, "youtu.be/"@, 0);
                    }
                    None
                },
            }
        },
    }
}

/// Two characterizations of "first occurrence" pick the same index, so an
/// executable search agrees with `find_first_from`.
pub proof fn lemma_find_first_same(hay: Seq<char>, needle: Seq<char>, at: int)
    requires
        0 <= at,
    ensures
        forall|i: int|
            (at <= i && occurs_at(hay, needle, i) && (forall|k: int|
                at <= k < i ==> !occurs_at(hay, needle, k))) ==> find_first_from(hay, needle, at)
                == Some(i),
        (forall|k: int| at <= k ==> !occurs_at(hay, needle, k)) ==> find_first_from(
            hay,
            needle,
            at,
        ) is None,
{
    lemma_find_first_from(hay, needle, at);
    assert forall|i: int|
        (at <= i && occurs_at(hay, needle, i) && (forall|k: int|
            at <= k < i ==> !occurs_at(hay, needle, k))) implies find_first_from(hay, needle, at)
        == Some(i) by {
        match find_first_from(hay, needle, at) {
            Some(j) => {
                if j < i {
                    assert(!occurs_at(hay, needle, j));
                } else if i < j {
                    assert(!occurs_at(hay, needle, i));
                }
            },
            None => {
                assert(!occurs_at(hay, needle, i));
            },
        }
    }
}

} // verus!
