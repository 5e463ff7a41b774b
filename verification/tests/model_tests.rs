use scorm_builder::html::HtmlGenerator;
use scorm_builder::model::{
    extract_video_id, is_external_video, media_is_external_video_exec, topic_has_check_exec,
    MediaItem, KnowledgeCheck, Question, Topic,
};

fn chars(v: Option<Vec<char>>) -> Option<String> {
    v.map(|cs| cs.into_iter().collect())
}

#[test]
fn test_external_video_detection() {
    assert!(is_external_video("https://www.youtube.com/watch?v=abc"));
    assert!(is_external_video("https://youtu.be/abc"));
    assert!(!is_external_video("media/video-1.mp4"));

    let flagged = MediaItem {
        id: "m1".to_string(),
        media_type: "video".to_string(),
        url: "local.mp4".to_string(),
        title: "t".to_string(),
        embed_url: None,
        is_youtube: Some(true),
    };
    assert!(media_is_external_video_exec(&flagged));

    let by_embed = MediaItem {
        id: "m2".to_string(),
        media_type: "video".to_string(),
        url: "local.mp4".to_string(),
        title: "t".to_string(),
        embed_url: Some("https://www.youtube.com/embed/xyz".to_string()),
        is_youtube: None,
    };
    assert!(media_is_external_video_exec(&by_embed));

    let plain = MediaItem {
        id: "m3".to_string(),
        media_type: "video".to_string(),
        url: "clip.mp4".to_string(),
        title: "t".to_string(),
        embed_url: None,
        is_youtube: None,
    };
    assert!(!media_is_external_video_exec(&plain));

    let flagged_off = MediaItem {
        id: "m4".to_string(),
        media_type: "video".to_string(),
        url: "https://www.youtube.com/watch?v=abc".to_string(),
        title: "t".to_string(),
        embed_url: None,
        is_youtube: Some(false),
    };
    assert!(!media_is_external_video_exec(&flagged_off));
}

#[test]
fn test_video_id_extraction() {
    assert_eq!(
        chars(extract_video_id("https://www.youtube.com/watch?v=dQw4w9WgXcQ&t=10")),
        Some("dQw4w9WgXcQ".to_string())
    );
    assert_eq!(
        chars(extract_video_id("https://www.youtube.com/watch?v=dQw4w9WgXcQ")),
        Some("dQw4w9WgXcQ".to_string())
    );
    assert_eq!(chars(extract_video_id("https://youtu.be/xyz123?t=5")), Some("xyz123".to_string()));
    assert_eq!(chars(extract_video_id("https://youtu.be/xyz123")), Some("xyz123".to_string()));
    assert_eq!(chars(extract_video_id("https://example.com/clip")), None);
}

#[test]
fn test_topic_gating_rule() {
    let question = Question {
        question_type: "true-false".to_string(),
        text: "q".to_string(),
        options: Some(vec!["True".to_string(), "False".to_string()]),
        correct_answer: "True".to_string(),
        explanation: None,
        correct_feedback: None,
        incorrect_feedback: None,
    };
    let live = Topic {
        id: "a".to_string(),
        knowledge_check: Some(KnowledgeCheck { enabled: true, questions: vec![question.clone()] }),
        ..Default::default()
    };
    assert!(topic_has_check_exec(&live));

    let off = Topic {
        id: "b".to_string(),
        knowledge_check: Some(KnowledgeCheck { enabled: false, questions: vec![question] }),
        ..Default::default()
    };
    assert!(!topic_has_check_exec(&off));

    let none = Topic { id: "c".to_string(), ..Default::default() };
    assert!(!topic_has_check_exec(&none));
}

#[test]
fn test_audio_block_needs_both_references() {
    let generator = HtmlGenerator::new().unwrap();
    let with_both = Topic {
        id: "t".to_string(),
        title: "T".to_string(),
        content: "<p>c</p>".to_string(),
        audio_file: Some("audio-1.mp3".to_string()),
        caption_file: Some("caption-1.vtt".to_string()),
        ..Default::default()
    };
    let html = generator.generate_topic_page(&with_both).unwrap();
    assert!(html.contains("narration-audio"));
    assert!(html.contains("media/audio-1.mp3"));
    assert!(html.contains("media/caption-1.vtt"));

    let audio_only = Topic {
        id: "t".to_string(),
        audio_file: Some("audio-1.mp3".to_string()),
        caption_file: None,
        ..Default::default()
    };
    let html2 = generator.generate_topic_page(&audio_only).unwrap();
    assert!(!html2.contains("narration-audio"));

    let caption_only = Topic {
        id: "t".to_string(),
        audio_file: None,
        caption_file: Some("caption-1.vtt".to_string()),
        ..Default::default()
    };
    let html3 = generator.generate_topic_page(&caption_only).unwrap();
    assert!(!html3.contains("narration-audio"));
}

#[test]
fn test_media_path_normalization_in_pages() {
    let generator = HtmlGenerator::new().unwrap();
    let topic = Topic {
        id: "t".to_string(),
        title: "T".to_string(),
        content: String::new(),
        media: Some(vec![
            MediaItem {
                id: "m1".to_string(),
                media_type: "image".to_string(),
                url: "picture-1".to_string(),
                title: "Local".to_string(),
                embed_url: None,
                is_youtube: None,
            },
            MediaItem {
                id: "m2".to_string(),
                media_type: "image".to_string(),
                url: "https://example.com/pic".to_string(),
                title: "Remote".to_string(),
                embed_url: None,
                is_youtube: Some(false),
            },
            MediaItem {
                id: "m3".to_string(),
                media_type: "image".to_string(),
                url: "media/existing-1".to_string(),
                title: "Placed".to_string(),
                embed_url: None,
                is_youtube: None,
            },
        ]),
        ..Default::default()
    };
    let html = generator.generate_topic_page(&topic).unwrap();
    assert!(html.contains("src=\"media/picture-1\""));
    assert!(html.contains("src=\"https://example.com/pic\""));
    assert!(html.contains("src=\"media/existing-1\""));
    assert!(!html.contains("media/media/existing-1"));
}
