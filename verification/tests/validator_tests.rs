use std::io::Write;

use scorm_builder::validator::OutputValidator;

#[test]
fn output_validator_test_navigation_validation() {
    let validator = OutputValidator::new();

    // Test valid navigation.js with proper structure
    let valid_js = r#"
        function shouldBlockNavigation() { return false; }
        function updateNavigationState() { }
        function navigateToPage(pageId) {
            fetch(`pages/${pageId}.html`)
                .then(html => {
                    contentContainer.innerHTML = html;
                    initializePageAudio(pageId);
                    initializeKnowledgeChecks();
                    // Update navigation state after content loads
                    updateNavigationState();
                    updateProgress();
                });
        }
        console.log('[SCORM Navigation] Sidebar click:');
        window.checkFillInBlank = function() {};
        window.checkMultipleChoice = function() {};
        "#;

    assert!(validator.navigation_rule(valid_js).is_ok());

    // Test invalid navigation.js
    let invalid_js = "// Missing required functions";
    assert!(validator.navigation_rule(invalid_js).is_err());
}

#[test]
fn test_navigation_rule_ordering() {
    let validator = OutputValidator::new();

    // The state recompute appears before the content-load point: the
    // then block holds the audio initialization but no recompute after it.
    let early_recompute = r#"
        function shouldBlockNavigation() {}
        updateNavigationState();
        function navigateToPage(pageId) {
            fetch(url)
                .then(html => {
                    initializePageAudio(pageId);
                });
        }
        console.log('[SCORM Navigation] Sidebar click:');
        window.checkFillInBlank = function() {};
        window.checkMultipleChoice = function() {};
        shouldBlockNavigation();
        "#;
    let result = validator.navigation_rule(early_recompute);
    assert!(result.is_err());
    assert_eq!(
        result.unwrap_err(),
        "updateNavigationState() not found after initializePageAudio in then block"
    );

    // Moving the recompute after the content load, within the allowed
    // distance, passes.
    let late_recompute = r#"
        function shouldBlockNavigation() {}
        function navigateToPage(pageId) {
            fetch(url)
                .then(html => {
                    initializePageAudio(pageId);
                    updateNavigationState();
                });
        }
        console.log('[SCORM Navigation] Sidebar click:');
        window.checkFillInBlank = function() {};
        window.checkMultipleChoice = function() {};
        shouldBlockNavigation();
        "#;
    assert!(validator.navigation_rule(late_recompute).is_ok());

    // A recompute pushed far past the allowed distance fails.
    let padding = "/* ".to_string() + &"x".repeat(600) + " */";
    let too_far = format!(
        "function shouldBlockNavigation() {{}}\n.then(html => {{\ninitializePageAudio(pageId);\n{}\nupdateNavigationState();\n}});\nconsole.log('[SCORM Navigation] Sidebar click:');\nwindow.checkFillInBlank = 1;\nwindow.checkMultipleChoice = 1;\nshouldBlockNavigation();\n",
        padding
    );
    let result = validator.navigation_rule(&too_far);
    assert!(result.is_err());
    assert_eq!(result.unwrap_err(), "updateNavigationState() too far from content load");
}

#[test]
fn test_css_rule_banned_min_height() {
    let validator = OutputValidator::new();

    let bad_css = "body { min-height: 800px !important; height: 100vh; }\n.footer {}\n.nav-button:disabled {}";
    let result = validator.css_rule(bad_css);
    assert!(result.is_err());
    assert_eq!(
        result.unwrap_err(),
        "Found problematic min-height that pushes footer off screen"
    );

    let good_css = "body { height: 100vh; }\n.footer {}\n.nav-button:disabled {}";
    assert!(validator.css_rule(good_css).is_ok());
}

#[test]
fn test_html_rule_required_elements() {
    let validator = OutputValidator::new();

    let complete = "<div id=\"prev-button\"></div><div id=\"next-button\"></div><div id=\"content-container\"></div><div id=\"scorm-alert-container\"></div>";
    assert!(validator.html_rule(complete).is_ok());

    assert_eq!(validator.html_rule("").unwrap_err(), "Previous button not found");
    let missing_alert = "<div id=\"prev-button\"></div><div id=\"next-button\"></div><div id=\"content-container\"></div>";
    assert_eq!(validator.html_rule(missing_alert).unwrap_err(), "Alert container not found");
}

#[test]
fn test_report_summary_format() {
    let mut report = scorm_builder::validator::ValidationReport::new();
    report.add_success("index.html".to_string(), "Validation passed".to_string());
    assert!(!report.has_errors());
    assert_eq!(report.summary(), "Validation Report: 1 success, 0 errors\n");

    report.add_error("styles/main.css".to_string(), "Footer styles missing".to_string());
    assert!(report.has_errors());
    assert_eq!(
        report.summary(),
        "Validation Report: 1 success, 1 errors\n\nErrors:\n  - styles/main.css: Footer styles missing\n"
    );
}

#[test]
fn test_validate_reports_malformed_archive() {
    let validator = OutputValidator::new();
    let not_a_zip = vec![1u8, 2, 3, 4, 5];
    let report = validator.validate_scorm_package(&not_a_zip);
    assert!(report.has_errors());
    assert_eq!(
        report.errors,
        vec![("package".to_string(), "Failed to open ZIP archive".to_string())]
    );
}

#[test]
fn test_validate_reports_undecodable_fixed_file() {
    let mut writer = zip::ZipWriter::new(std::io::Cursor::new(Vec::new()));
    let options = zip::write::SimpleFileOptions::default();
    writer.start_file("styles/main.css", options).unwrap();
    writer.write_all(&[0xFF, 0xFE, 0x00, 0x80]).unwrap();
    let bytes = writer.finish().unwrap().into_inner();

    let validator = OutputValidator::new();
    let report = validator.validate_scorm_package(&bytes);
    assert!(report.has_errors());
    assert!(report.errors.contains(&(
        "styles/main.css".to_string(),
        "File is not valid UTF-8".to_string()
    )));
    assert!(report
        .errors
        .contains(&("index.html".to_string(), "File not found in package".to_string())));
}
