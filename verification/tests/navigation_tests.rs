use scorm_builder::model::{GenerateScormRequest, KnowledgeCheck, Question, Topic};
use scorm_builder::navigation::NavigationGenerator;

fn fill_in_question(text: &str, answer: &str, explanation: Option<&str>) -> Question {
    Question {
        question_type: "fill-in-the-blank".to_string(),
        text: text.to_string(),
        options: None,
        correct_answer: answer.to_string(),
        explanation: explanation.map(|e| e.to_string()),
        correct_feedback: None,
        incorrect_feedback: None,
    }
}

#[test]
fn test_navigation_generation() {
    let generator = NavigationGenerator::new().unwrap();

    let request = GenerateScormRequest {
        course_title: "Test Course".to_string(),
        topics: vec![
            Topic {
                id: "topic-1".to_string(),
                title: "Topic 1".to_string(),
                content: "Content 1".to_string(),
                knowledge_check: Some(KnowledgeCheck {
                    enabled: true,
                    questions: vec![fill_in_question("Test question", "answer", Some("Explanation"))],
                }),
                ..Default::default()
            },
            Topic {
                id: "topic-2".to_string(),
                title: "Topic 2".to_string(),
                content: "Content 2".to_string(),
                knowledge_check: None,
                ..Default::default()
            },
        ],
        ..Default::default()
    };

    let js = generator.generate_navigation_js(&request).unwrap();

    // Verify generated content
    assert!(js.contains("PAGES_WITH_KNOWLEDGE_CHECKS"));
    assert!(js.contains("'topic-1': true"));
    assert!(!js.contains("'topic-2': true"));

    // Validate the generated JS
    generator.validate_navigation_js(&js).unwrap();
}

#[test]
fn navigation_generator_test_navigation_validation() {
    let generator = NavigationGenerator::new().unwrap();

    // Test with invalid JS
    let invalid_js = "// Invalid navigation file";
    let result = generator.validate_navigation_js(invalid_js);

    assert!(result.is_err());
    let errors = result.unwrap_err();
    assert!(errors.len() > 0);
    assert!(errors.iter().any(|e| e.contains("updateNavigationState")));
}

#[test]
fn test_lint_reports_every_missing_piece() {
    let generator = NavigationGenerator::new().unwrap();
    let errors = generator.validate_navigation_js("").unwrap_err();
    assert_eq!(
        errors,
        vec![
            "Missing required function: updateNavigationState".to_string(),
            "Missing required function: shouldBlockNavigation".to_string(),
            "Missing required function: navigateToPage".to_string(),
            "Missing required function: checkMultipleChoice".to_string(),
            "Missing required function: checkFillInBlank".to_string(),
            "Missing required function: initializeNavigation".to_string(),
            "Navigation blocking check not found in navigation flow".to_string(),
            "Navigation state update not properly placed after content load".to_string(),
            "Sidebar navigation logging not found".to_string(),
        ]
    );
}

#[test]
fn test_knowledge_check_table_polarity() {
    let generator = NavigationGenerator::new().unwrap();
    let request = GenerateScormRequest {
        topics: vec![
            Topic {
                id: "gated".to_string(),
                knowledge_check: Some(KnowledgeCheck {
                    enabled: true,
                    questions: vec![fill_in_question("q", "a", None)],
                }),
                ..Default::default()
            },
            Topic {
                id: "disabled-check".to_string(),
                knowledge_check: Some(KnowledgeCheck {
                    enabled: false,
                    questions: vec![fill_in_question("q", "a", None)],
                }),
                ..Default::default()
            },
            Topic {
                id: "empty-check".to_string(),
                knowledge_check: Some(KnowledgeCheck { enabled: true, questions: vec![] }),
                ..Default::default()
            },
        ],
        pass_mark: 75,
        ..Default::default()
    };
    let js = generator.generate_navigation_js(&request).unwrap();
    assert!(js.contains("    'gated': true,\n"));
    assert!(js.contains("    'disabled-check': false,\n"));
    assert!(js.contains("    'empty-check': false,\n"));
    assert!(js.contains("const PASS_MARK = 75;"));
    assert!(js.contains("const NAVIGATION_MODE = 'linear'"));
}
