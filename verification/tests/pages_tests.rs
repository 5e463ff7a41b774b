use scorm_builder::html::HtmlGenerator;
use scorm_builder::model::{GenerateScormRequest, WelcomePage};
use scorm_builder::pages::{
    generate_assessment_page_html, generate_complete_scorm_html, generate_objectives_page_html,
    generate_topic_page_html, generate_welcome_page_html, AssessmentAnswer, AssessmentContent,
    AssessmentQuestion, CourseContent, CourseMetadata, InlineCheck, ObjectivesContent,
    PageMediaRef, SectionContent, TopicContent, WelcomeContent,
};

fn empty_welcome(title: &str, content: &str) -> WelcomeContent {
    WelcomeContent {
        title: title.to_string(),
        content: content.to_string(),
        audio_id: None,
        caption_id: None,
        media: vec![],
    }
}

#[test]
fn test_generate_welcome_page_html() {
    let welcome = WelcomeContent {
        title: "Welcome to the Course".to_string(),
        content: "<p>This is a comprehensive course on Rust programming.</p>".to_string(),
        audio_id: Some("audio-0".to_string()),
        caption_id: Some("caption-0".to_string()),
        media: vec![PageMediaRef {
            id: "image-0".to_string(),
            media_type: "image".to_string(),
            url: "/media/welcome-image.jpg".to_string(),
            title: "Course Welcome Image".to_string(),
        }],
    };

    let html = generate_welcome_page_html(&welcome);

    // Verify the HTML contains expected elements
    assert!(html.contains("<h1>Welcome to the Course</h1>"));
    assert!(html.contains("This is a comprehensive course on Rust programming."));
    assert!(html.contains("<img"));
    assert!(html.contains("src=\"media/image-0.jpg\""));
    assert!(html.contains("alt=\"Course Welcome Image\""));
    assert!(html.contains("<audio"));
    assert!(html.contains("src=\"media/audio-0.mp3\""));
    assert!(html.contains("<track"));
    assert!(html.contains("src=\"media/caption-0.vtt\""));
}

#[test]
fn test_generate_objectives_page_html() {
    let objectives = ObjectivesContent {
        content: "<h2>Learning Objectives</h2><ul><li>Understand Rust ownership system</li><li>Write memory-safe code</li><li>Build concurrent applications</li></ul>".to_string(),
        audio_id: Some("audio-1".to_string()),
        caption_id: Some("caption-1".to_string()),
        media: vec![],
    };

    let html = generate_objectives_page_html(&objectives);

    // Verify the HTML contains expected elements
    assert!(html.contains("<h2>Learning Objectives</h2>"));
    assert!(html.contains("Understand Rust ownership system"));
    assert!(html.contains("Write memory-safe code"));
    assert!(html.contains("Build concurrent applications"));
    assert!(html.contains("<audio"));
    assert!(html.contains("src=\"media/audio-1.mp3\""));
}

#[test]
fn test_generate_topic_page_html() {
    let topic = TopicContent {
        id: "topic-1".to_string(),
        title: "Introduction to Rust".to_string(),
        content: "<h2>What is Rust?</h2><p>Rust is a systems programming language.</p>"
            .to_string(),
        sections: vec![SectionContent {
            content: "Rust provides memory safety without garbage collection.".to_string(),
        }],
        knowledge_check: Some(InlineCheck {
            kind: "multiple-choice".to_string(),
            question: "What does Rust provide?".to_string(),
            options: vec![
                "Memory safety".to_string(),
                "Garbage collection".to_string(),
                "Dynamic typing".to_string(),
                "Interpreted execution".to_string(),
            ],
            correct_answer: "Memory safety".to_string(),
            explanation: "Rust provides memory safety without needing garbage collection."
                .to_string(),
        }),
        audio_id: Some("audio-2".to_string()),
        caption_id: Some("caption-2".to_string()),
        media: vec![PageMediaRef {
            id: "image-1".to_string(),
            media_type: "image".to_string(),
            url: "/media/rust-logo.png".to_string(),
            title: "Rust Logo".to_string(),
        }],
    };

    let html = generate_topic_page_html(&topic, 0);

    // Verify the HTML contains expected elements
    assert!(html.contains("<h1>Introduction to Rust</h1>"));
    assert!(html.contains("What is Rust?"));
    assert!(html.contains("Rust is a systems programming language."));
    assert!(html.contains("Rust provides memory safety without garbage collection."));

    // Check knowledge check rendering
    assert!(html.contains("What does Rust provide?"));
    assert!(html.contains("Memory safety"));
    assert!(html.contains("Garbage collection"));
    assert!(html.contains("data-correct=\"0\"")); // First option is correct

    // Check media
    assert!(html.contains("<img"));
    assert!(html.contains("src=\"media/image-1.png\""));
    assert!(html.contains("<audio"));
    assert!(html.contains("src=\"media/audio-2.mp3\""));
}

#[test]
fn test_generate_assessment_page_html() {
    let assessment = AssessmentContent {
        pass_mark: 80,
        questions: vec![
            AssessmentQuestion {
                id: Some("q1".to_string()),
                question: "What is Rust?".to_string(),
                options: vec![
                    "A programming language".to_string(),
                    "A game engine".to_string(),
                    "A database".to_string(),
                    "An operating system".to_string(),
                ],
                answer: AssessmentAnswer::ChoiceIndex(0),
                explanation: "Rust is a systems programming language.".to_string(),
            },
            AssessmentQuestion {
                id: Some("q2".to_string()),
                question: "Rust requires garbage collection.".to_string(),
                options: vec![],
                answer: AssessmentAnswer::TrueFalse(false),
                explanation: "Rust provides memory safety without garbage collection."
                    .to_string(),
            },
        ],
    };

    let html = generate_assessment_page_html(&assessment);

    // Verify the HTML contains expected elements
    assert!(html.contains("<h1>Assessment</h1>"));
    assert!(html.contains("What is Rust?"));
    assert!(html.contains("A programming language"));
    assert!(html.contains("data-correct=\"0\""));

    assert!(html.contains("Rust requires garbage collection."));
    assert!(html.contains("True"));
    assert!(html.contains("False"));
    assert!(html.contains("data-correct=\"1\"")); // False is correct

    assert!(html.contains("data-pass-mark=\"80\""));
}

#[test]
fn test_generate_complete_scorm_html() {
    let course_content = CourseContent {
        welcome_page: Some(empty_welcome("Welcome", "Welcome content")),
        learning_objectives_page: Some(ObjectivesContent {
            content: "Objectives content".to_string(),
            audio_id: None,
            caption_id: None,
            media: vec![],
        }),
        topics: vec![TopicContent {
            id: "topic-1".to_string(),
            title: "Topic 1".to_string(),
            content: "Topic content".to_string(),
            sections: vec![],
            knowledge_check: None,
            audio_id: None,
            caption_id: None,
            media: vec![],
        }],
        assessment: Some(AssessmentContent {
            pass_mark: 80,
            questions: vec![AssessmentQuestion {
                id: None,
                question: "Test question".to_string(),
                options: vec![
                    "A".to_string(),
                    "B".to_string(),
                    "C".to_string(),
                    "D".to_string(),
                ],
                answer: AssessmentAnswer::ChoiceIndex(0),
                explanation: String::new(),
            }],
        }),
    };

    let metadata = CourseMetadata {
        title: "Test Course".to_string(),
        description: "Test Description".to_string(),
        project_title: "Test Project".to_string(),
        version: None,
        scorm_version: None,
    };

    let html = generate_complete_scorm_html(&course_content, &metadata);

    // Verify the HTML structure
    assert!(html.contains("<!DOCTYPE html>"));
    assert!(html.contains("<html"));
    assert!(html.contains("<head>"));
    assert!(html.contains("<title>Test Course</title>"));
    assert!(html.contains("<script src=\"scorm_api.js\"></script>"));
    assert!(html.contains("<body>"));

    // Verify navigation
    assert!(html.contains("id=\"nav-welcome\""));
    assert!(html.contains("id=\"nav-objectives\""));
    assert!(html.contains("id=\"nav-topic-0\""));
    assert!(html.contains("id=\"nav-assessment\""));

    // Verify pages
    assert!(html.contains("id=\"page-welcome\""));
    assert!(html.contains("id=\"page-objectives\""));
    assert!(html.contains("id=\"page-topic-0\""));
    assert!(html.contains("id=\"page-assessment\""));
}

#[test]
fn test_index_html_includes_show_progress_when_true() {
    let generator = HtmlGenerator::new().expect("Failed to create HTML generator");

    let request = GenerateScormRequest {
        course_title: "Test Course".to_string(),
        welcome_page: Some(WelcomePage {
            title: "Welcome".to_string(),
            content: "Welcome content".to_string(),
            image_url: None,
            audio_file: None,
            caption_file: None,
            media: Some(vec![]),
            start_button_text: "Start".to_string(),
        }),
        learning_objectives_page: None,
        topics: vec![],
        assessment: None,
        show_progress: Some(true),
        show_outline: Some(true),
        ..Default::default()
    };

    let html = generator.generate_index_html(&request).expect("Failed to generate index HTML");

    // When show_outline=true, sidebar should be visible (not have display: none)
    assert!(
        !html.contains(r#"<nav class="sidebar" style="display: none;">"#),
        "Sidebar should be visible when show_outline=true"
    );

    // When show_progress=true, progress circle should be present
    assert!(
        html.contains("progress-circle-container"),
        "Progress circle should be present when show_progress=true"
    );
}

#[test]
fn test_index_html_includes_show_progress_when_false() {
    let generator = HtmlGenerator::new().expect("Failed to create HTML generator");

    let request = GenerateScormRequest {
        course_title: "Test Course".to_string(),
        welcome_page: Some(WelcomePage {
            title: "Welcome".to_string(),
            content: "Welcome content".to_string(),
            image_url: None,
            audio_file: None,
            caption_file: None,
            media: Some(vec![]),
            start_button_text: "Start".to_string(),
        }),
        learning_objectives_page: None,
        topics: vec![],
        assessment: None,
        show_progress: Some(false),
        show_outline: Some(false),
        ..Default::default()
    };

    let html = generator.generate_index_html(&request).expect("Failed to generate index HTML");

    // When show_outline=false, sidebar should be hidden
    assert!(
        html.contains(r#"<nav class="sidebar" style="display: none;">"#),
        "Sidebar should be hidden when show_outline=false"
    );

    // When show_progress=false, progress circle should NOT be present
    assert!(
        !html.contains("progress-circle-container"),
        "Progress circle should be hidden when show_progress=false"
    );
}

#[test]
fn test_show_progress_conditional_in_template() {
    let generator = HtmlGenerator::new().expect("Failed to create HTML generator");

    let request = GenerateScormRequest {
        course_title: "Test Course".to_string(),
        welcome_page: Some(WelcomePage {
            title: "Welcome".to_string(),
            content: "Welcome content".to_string(),
            image_url: None,
            audio_file: None,
            caption_file: None,
            media: Some(vec![]),
            start_button_text: "Start".to_string(),
        }),
        learning_objectives_page: None,
        topics: vec![],
        assessment: None,
        show_progress: Some(false),
        show_outline: Some(true),
        ..Default::default()
    };

    let html = generator.generate_index_html(&request).expect("Failed to generate index HTML");

    // Progress hidden but the sidebar itself still shown
    assert!(!html.contains("progress-circle-container"));
    assert!(!html.contains(r#"<nav class="sidebar" style="display: none;">"#));
}

#[test]
fn test_welcome_start_button_targets() {
    let with_objectives = HtmlGenerator::new().unwrap().with_objectives(true);
    let html = with_objectives
        .generate_welcome_page(&WelcomePage {
            title: "W".to_string(),
            content: "line one\nline two".to_string(),
            start_button_text: "Start".to_string(),
            audio_file: None,
            caption_file: None,
            image_url: None,
            media: None,
        })
        .unwrap();
    assert!(html.contains("data-next=\"objectives\""));
    assert!(html.contains("line one<br>line two"));

    let without = HtmlGenerator::new().unwrap();
    let html2 = without
        .generate_welcome_page(&WelcomePage {
            title: "W".to_string(),
            content: "c".to_string(),
            start_button_text: "Start".to_string(),
            audio_file: None,
            caption_file: None,
            image_url: None,
            media: None,
        })
        .unwrap();
    assert!(html2.contains("data-next=\"topic-1\""));
}
