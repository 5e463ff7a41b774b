use std::io::Read;

use scorm_builder::archive::{
    create_scorm_package, validate_package_output_path, PackageContent, Resource,
};
use scorm_builder::generator::{EnhancedScormGenerator, GeneratedFile};
use scorm_builder::model::{GenerateScormRequest, KnowledgeCheck, MediaItem, Question, Topic};

fn read_entry(bytes: &[u8], name: &str) -> String {
    let mut archive = zip::ZipArchive::new(std::io::Cursor::new(bytes.to_vec())).unwrap();
    let mut file = archive.by_name(name).unwrap();
    let mut content = String::new();
    file.read_to_string(&mut content).unwrap();
    content
}

fn entry_names(bytes: &[u8]) -> Vec<String> {
    let mut archive = zip::ZipArchive::new(std::io::Cursor::new(bytes.to_vec())).unwrap();
    (0..archive.len()).map(|i| archive.by_index(i).unwrap().name().to_string()).collect()
}

fn widgets_course() -> GenerateScormRequest {
    GenerateScormRequest {
        course_title: "Intro to Widgets".to_string(),
        topics: vec![Topic {
            id: "topic-1".to_string(),
            title: "Basics".to_string(),
            content: "<p>Hi</p>".to_string(),
            knowledge_check: Some(KnowledgeCheck {
                enabled: true,
                questions: vec![Question {
                    question_type: "fill-in-the-blank".to_string(),
                    text: "The sky is ___.".to_string(),
                    options: None,
                    correct_answer: "blue".to_string(),
                    explanation: None,
                    correct_feedback: None,
                    incorrect_feedback: None,
                }],
            }),
            ..Default::default()
        }],
        pass_mark: 80,
        navigation_mode: "linear".to_string(),
        ..Default::default()
    }
}

#[test]
fn test_enhanced_generation() {
    let generator = EnhancedScormGenerator::new().unwrap();

    let request = GenerateScormRequest {
        course_title: "Test Course".to_string(),
        topics: vec![Topic {
            id: "topic-1".to_string(),
            title: "Topic 1".to_string(),
            content: "Content 1".to_string(),
            knowledge_check: Some(KnowledgeCheck {
                enabled: true,
                questions: vec![Question {
                    question_type: "fill-in-the-blank".to_string(),
                    text: "The capital of France is _____.".to_string(),
                    options: None,
                    correct_answer: "Paris".to_string(),
                    explanation: Some("Paris is the capital of France.".to_string()),
                    correct_feedback: None,
                    incorrect_feedback: None,
                }],
            }),
            ..Default::default()
        }],
        ..Default::default()
    };

    let result = generator.generate_scorm_package(request, Vec::new());
    assert!(result.is_ok());
}

#[test]
fn test_topic_with_youtube_media() {
    // Test that Topic can handle external-video media items
    let topic = Topic {
        id: "topic-1".to_string(),
        title: "Test Topic".to_string(),
        content: "<p>Content</p>".to_string(),
        knowledge_check: None,
        audio_file: None,
        caption_file: None,
        image_url: None,
        media: Some(vec![MediaItem {
            id: "youtube-1".to_string(),
            media_type: "video".to_string(),
            url: "https://www.youtube.com/watch?v=dQw4w9WgXcQ".to_string(),
            title: "YouTube Video".to_string(),
            embed_url: Some("https://www.youtube.com/embed/dQw4w9WgXcQ".to_string()),
            is_youtube: Some(true),
        }]),
    };

    assert!(topic.media.is_some());
    let media_items = topic.media.unwrap();
    assert_eq!(media_items.len(), 1);
    assert_eq!(media_items[0].is_youtube, Some(true));
    assert!(media_items[0].embed_url.is_some());
}

#[test]
fn test_module_exports() {
    // Ensure modules are accessible
    let _ = scorm_builder::manifest::generate_manifest;
    let _ = scorm_builder::archive::create_scorm_package;
}

#[test]
fn test_full_package_for_widgets_course() {
    let generator = EnhancedScormGenerator::new().unwrap();
    let bytes = generator.generate_scorm_package(widgets_course(), Vec::new()).unwrap();

    let manifest = read_entry(&bytes, "imsmanifest.xml");
    assert!(manifest.contains("<adlcp:masteryscore>80</adlcp:masteryscore>"));
    assert!(manifest.contains("<title>Intro to Widgets</title>"));
    assert!(manifest.contains("<file href=\"pages/topic-1.html\"/>"));

    let topic_page = read_entry(&bytes, "pages/topic-1.html");
    assert!(topic_page.contains("knowledge-check-container"));
    assert!(topic_page.contains("fill-blank-0"));
    assert!(topic_page.contains("kc-fill-blank"));
    assert!(topic_page.contains("onclick=\"window.submitAllKnowledgeChecks('topic-1')\""));

    let nav = read_entry(&bytes, "scripts/navigation.js");
    assert!(nav.contains("'topic-1': true"));
    assert!(nav.contains("const PASS_MARK = 80;"));

    let validator = scorm_builder::validator::OutputValidator::new();
    let report = validator.validate_scorm_package(&bytes);
    assert!(!report.has_errors());
}

#[test]
fn test_minimal_course_still_validates() {
    let generator = EnhancedScormGenerator::new().unwrap();
    let request = GenerateScormRequest {
        course_title: "Empty".to_string(),
        ..Default::default()
    };
    let bytes = generator.generate_scorm_package(request, Vec::new()).unwrap();

    let names = entry_names(&bytes);
    assert_eq!(
        names,
        vec![
            "scripts/navigation.js".to_string(),
            "styles/main.css".to_string(),
            "index.html".to_string(),
            "imsmanifest.xml".to_string(),
        ]
    );

    let validator = scorm_builder::validator::OutputValidator::new();
    let report = validator.validate_scorm_package(&bytes);
    assert!(!report.has_errors());
}

#[test]
fn test_pipeline_idempotent_artifacts() {
    let generator = EnhancedScormGenerator::new().unwrap();
    let first = generator.generate_scorm_package(widgets_course(), Vec::new()).unwrap();
    let second = generator.generate_scorm_package(widgets_course(), Vec::new()).unwrap();

    for name in [
        "scripts/navigation.js",
        "styles/main.css",
        "index.html",
        "pages/topic-1.html",
    ] {
        assert_eq!(read_entry(&first, name), read_entry(&second, name));
    }
    // The manifest differs only in the freshly drawn package identifier.
    let m1 = read_entry(&first, "imsmanifest.xml");
    let m2 = read_entry(&second, "imsmanifest.xml");
    assert_eq!(m1.len(), m2.len());
    assert_eq!(m1.lines().count(), m2.lines().count());
}

#[test]
fn test_media_round_trip() {
    let generator = EnhancedScormGenerator::new().unwrap();
    let mut blob: Vec<u8> = Vec::with_capacity(2 * 1024 * 1024);
    for i in 0..(2 * 1024 * 1024) {
        blob.push((i % 251) as u8);
    }
    let media = vec![("media/video-1.mp4".to_string(), blob.clone())];
    let bytes = generator.generate_scorm_package(widgets_course(), media).unwrap();

    let mut archive = zip::ZipArchive::new(std::io::Cursor::new(bytes)).unwrap();
    let mut file = archive.by_name("media/video-1.mp4").unwrap();
    assert_eq!(file.size(), blob.len() as u64);
    let mut out: Vec<u8> = Vec::new();
    file.read_to_end(&mut out).unwrap();
    assert_eq!(out, blob);
}

#[test]
fn test_package_rejects_unsafe_paths() {
    let content = PackageContent {
        manifest: "<?xml version=\"1.0\"?><manifest></manifest>".to_string(),
        html_content: "<html><body>Test</body></html>".to_string(),
        resources: vec![Resource {
            path: "../escape.txt".to_string(),
            content: b"x".to_vec(),
        }],
    };
    let result = create_scorm_package(&content);
    assert_eq!(result.unwrap_err(), "Invalid resource path: ../escape.txt");

    let absolute = PackageContent {
        manifest: String::new(),
        html_content: String::new(),
        resources: vec![Resource {
            path: "/etc/passwd".to_string(),
            content: b"x".to_vec(),
        }],
    };
    assert_eq!(
        create_scorm_package(&absolute).unwrap_err(),
        "Invalid resource path: /etc/passwd"
    );

    let sneaky = PackageContent {
        manifest: String::new(),
        html_content: String::new(),
        resources: vec![Resource {
            path: "media/../../escape".to_string(),
            content: b"x".to_vec(),
        }],
    };
    assert!(create_scorm_package(&sneaky).is_err());
}

#[test]
fn test_package_includes_required_files() {
    let content = PackageContent {
        manifest: "<?xml version=\"1.0\"?><manifest></manifest>".to_string(),
        html_content: "<html><body>Course Content</body></html>".to_string(),
        resources: vec![Resource {
            path: "styles.css".to_string(),
            content: b"body { margin: 0; }".to_vec(),
        }],
    };
    let bytes = create_scorm_package(&content).unwrap();
    let names = entry_names(&bytes);
    assert!(names.contains(&"imsmanifest.xml".to_string()));
    assert!(names.contains(&"index.html".to_string()));
    assert!(names.contains(&"styles.css".to_string()));
}

#[test]
fn test_package_handles_nested_resources() {
    let content = PackageContent {
        manifest: "<?xml version=\"1.0\"?><manifest></manifest>".to_string(),
        html_content: "<html><body>Test</body></html>".to_string(),
        resources: vec![
            Resource {
                path: "images/logo.png".to_string(),
                content: vec![0x89, 0x50, 0x4E, 0x47],
            },
            Resource {
                path: "scripts/main.js".to_string(),
                content: b"console.log('SCORM');".to_vec(),
            },
        ],
    };
    let bytes = create_scorm_package(&content).unwrap();
    let names = entry_names(&bytes);
    assert!(names.contains(&"images/logo.png".to_string()));
    assert!(names.contains(&"scripts/main.js".to_string()));
}

#[test]
fn test_guard_prevents_rust_fallback() {
    let generator = EnhancedScormGenerator::new().unwrap();
    let request = GenerateScormRequest { ..Default::default() };
    let result = generator.assemble(&request, &Vec::new(), &Vec::new(), false);
    let message = result.unwrap_err();
    assert_eq!(
        message,
        "No content: No generated files provided in generated_files and internal generation was declined"
    );
    assert!(message.contains("No generated files provided"));
    assert!(message.contains("generated_files"));
}

#[test]
fn test_guard_allows_valid_generation() {
    let generator = EnhancedScormGenerator::new().unwrap();
    let supplied = vec![GeneratedFile {
        path: "index.html".to_string(),
        content: b"<html>externally rendered</html>".to_vec(),
        is_binary: false,
    }];
    let bytes = generator.assemble(&widgets_course(), &supplied, &Vec::new(), true).unwrap();

    let index = read_entry(&bytes, "index.html");
    assert_eq!(index, "<html>externally rendered</html>");
    // The uncovered paths still come from internal generation.
    let names = entry_names(&bytes);
    assert!(names.contains(&"scripts/navigation.js".to_string()));
    assert!(names.contains(&"styles/main.css".to_string()));
    assert!(names.contains(&"imsmanifest.xml".to_string()));
    assert!(names.contains(&"pages/topic-1.html".to_string()));
    assert_eq!(names.iter().filter(|n| n.as_str() == "index.html").count(), 1);
}

#[test]
fn test_assemble_rejects_unsafe_artifact_path() {
    let generator = EnhancedScormGenerator::new().unwrap();
    let supplied = vec![GeneratedFile {
        path: "../outside.html".to_string(),
        content: b"x".to_vec(),
        is_binary: false,
    }];
    let result = generator.assemble(&widgets_course(), &supplied, &Vec::new(), true);
    assert_eq!(result.unwrap_err(), "Invalid resource path: ../outside.html");
}

#[test]
fn test_media_paths_pass_the_archive_slip_check() {
    let generator = EnhancedScormGenerator::new().unwrap();
    let bad_media = vec![("../outside.bin".to_string(), b"x".to_vec())];
    let result = generator.generate_scorm_package(widgets_course(), bad_media);
    assert_eq!(result.unwrap_err(), "Invalid resource path: ../outside.bin");

    let absolute = vec![("/etc/media.bin".to_string(), b"x".to_vec())];
    let result = generator.generate_scorm_package(widgets_course(), absolute);
    assert_eq!(result.unwrap_err(), "Invalid resource path: /etc/media.bin");

    let supplied = vec![GeneratedFile {
        path: "index.html".to_string(),
        content: b"<html></html>".to_vec(),
        is_binary: false,
    }];
    let bad_media = vec![("media/../../escape.bin".to_string(), b"x".to_vec())];
    let result = generator.assemble(&widgets_course(), &supplied, &bad_media, true);
    assert!(result.is_err());
}

#[test]
fn test_output_path_requires_zip_with_stem() {
    assert!(validate_package_output_path("course.zip"));
    assert!(validate_package_output_path("out/course.zip"));
    assert!(!validate_package_output_path(".zip"));
    assert!(!validate_package_output_path("out/.zip"));
    assert!(!validate_package_output_path("course.tar"));
    assert!(!validate_package_output_path("coursezip"));
}
