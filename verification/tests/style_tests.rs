use scorm_builder::model::GenerateScormRequest;
use scorm_builder::style::StyleGenerator;

#[test]
fn test_css_generation() {
    let generator = StyleGenerator::new().unwrap();

    let request = GenerateScormRequest {
        course_title: "Test Course".to_string(),
        ..Default::default()
    };

    let css = generator.generate_main_css(&request).unwrap();

    // Verify critical styles
    assert!(css.contains("body"));
    assert!(css.contains("height: 100vh"));
    assert!(!css.contains("min-height: 800px !important"));

    // Validate the generated CSS
    generator.validate_css(&css).unwrap();
}

#[test]
fn test_css_validation_catches_issues() {
    let generator = StyleGenerator::new().unwrap();

    // Test with problematic CSS
    let bad_css = r#"
        body {
            min-height: 800px !important;
        }
        "#;

    let result = generator.validate_css(bad_css);
    assert!(result.is_err());

    let errors = result.unwrap_err();
    assert!(errors.iter().any(|e| e.contains("min-height: 800px")));
}

#[test]
fn test_css_display_settings() {
    let generator = StyleGenerator::new().unwrap();

    let small = GenerateScormRequest {
        font_size: Some("small".to_string()),
        ..Default::default()
    };
    assert!(generator.generate_main_css(&small).unwrap().contains("font-size: 14px"));

    let medium = GenerateScormRequest {
        font_size: Some("medium".to_string()),
        ..Default::default()
    };
    assert!(generator.generate_main_css(&medium).unwrap().contains("font-size: 16px"));

    let large = GenerateScormRequest {
        font_size: Some("large".to_string()),
        ..Default::default()
    };
    assert!(generator.generate_main_css(&large).unwrap().contains("font-size: 18px"));

    let unset = GenerateScormRequest { ..Default::default() };
    assert!(generator.generate_main_css(&unset).unwrap().contains("font-size: 16px"));

    let hidden_outline = GenerateScormRequest {
        show_outline: Some(false),
        ..Default::default()
    };
    assert!(generator.generate_main_css(&hidden_outline).unwrap().contains(".sidebar { width: 0px"));

    let shown_outline = GenerateScormRequest {
        show_outline: Some(true),
        ..Default::default()
    };
    assert!(
        generator.generate_main_css(&shown_outline).unwrap().contains(".sidebar { width: 200px")
    );

    let printable = GenerateScormRequest {
        printable: Some(true),
        ..Default::default()
    };
    assert!(generator.generate_main_css(&printable).unwrap().contains("@media print"));
}

#[test]
fn test_generated_css_passes_every_setting() {
    let generator = StyleGenerator::new().unwrap();
    for font in [None, Some("small"), Some("medium"), Some("large")] {
        for outline in [None, Some(true), Some(false)] {
            for progress in [None, Some(true), Some(false)] {
                for printable in [None, Some(true), Some(false)] {
                    let request = GenerateScormRequest {
                        font_size: font.map(|f| f.to_string()),
                        show_outline: outline,
                        show_progress: progress,
                        printable,
                        ..Default::default()
                    };
                    let css = generator.generate_main_css(&request).unwrap();
                    assert!(generator.validate_css(&css).is_ok());
                }
            }
        }
    }
}
