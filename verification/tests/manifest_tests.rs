use scorm_builder::manifest::{generate_manifest, CourseMetadata, ManifestOptions};

fn options(title: &str, identifier: &str, version: &str, scorm_version: &str) -> ManifestOptions {
    ManifestOptions {
        course: CourseMetadata {
            title: title.to_string(),
            identifier: identifier.to_string(),
            description: None,
            version: version.to_string(),
        },
        scorm_version: scorm_version.to_string(),
    }
}

#[test]
fn test_generate_manifest_creates_valid_xml() {
    let options = ManifestOptions {
        course: CourseMetadata {
            title: "Test Course".to_string(),
            identifier: "test-course-001".to_string(),
            description: Some("A test course for SCORM generation".to_string()),
            version: "1.0".to_string(),
        },
        scorm_version: "2004".to_string(),
    };

    let result = generate_manifest(&options);
    assert!(result.is_ok());

    let manifest = result.unwrap();
    assert!(manifest.contains("<?xml"));
    assert!(manifest.contains("<manifest"));
    assert!(manifest.contains("Test Course"));
}

#[test]
fn test_manifest_includes_required_metadata() {
    let options = ManifestOptions {
        course: CourseMetadata {
            title: "Sample Course".to_string(),
            identifier: "sample-001".to_string(),
            description: None,
            version: "2.0".to_string(),
        },
        scorm_version: "1.2".to_string(),
    };

    let manifest = generate_manifest(&options).unwrap();

    // Check for required SCORM elements
    assert!(manifest.contains("<organizations"));
    assert!(manifest.contains("<resources"));
    assert!(manifest.contains("<metadata"));
    assert!(manifest.contains("sample-001"));
}

#[test]
fn test_manifest_validates_scorm_version() {
    let options = ManifestOptions {
        course: CourseMetadata {
            title: "Test".to_string(),
            identifier: "test".to_string(),
            description: None,
            version: "1.0".to_string(),
        },
        scorm_version: "invalid".to_string(),
    };

    let result = generate_manifest(&options);
    assert!(result.is_err());
    assert!(result.unwrap_err().contains("Invalid SCORM version"));
}

#[test]
fn test_manifest_namespaces_by_version() {
    let legacy = generate_manifest(&options("T", "id", "1.0", "1.2")).unwrap();
    assert!(legacy.contains("http://www.imsproject.org/xsd/imscp_rootv1p1p2"));
    assert!(legacy.contains("http://www.adlnet.org/xsd/adlcp_rootv1p2"));
    assert!(!legacy.contains("imscp_v1p1"));
    assert!(!legacy.contains("adlseq_v1p3"));
    assert!(!legacy.contains("adlnav_v1p3"));
    assert!(!legacy.contains("imsss"));
    assert!(legacy.contains("<schemaversion>1.2</schemaversion>"));
    assert!(legacy.contains("adlcp:scormtype=\"sco\""));

    for v in ["2004", "2004.3"] {
        let modern = generate_manifest(&options("T", "id", "1.0", v)).unwrap();
        assert!(modern.contains("http://www.imsglobal.org/xsd/imscp_v1p1"));
        assert!(modern.contains("http://www.adlnet.org/xsd/adlcp_v1p3"));
        assert!(modern.contains("http://www.adlnet.org/xsd/adlseq_v1p3"));
        assert!(modern.contains("http://www.adlnet.org/xsd/adlnav_v1p3"));
        assert!(modern.contains("http://www.imsglobal.org/xsd/imsss"));
        assert!(!modern.contains("imscp_rootv1p1p2"));
        assert!(!modern.contains("adlcp_rootv1p2"));
        assert!(modern.contains("<schemaversion>2004 3rd Edition</schemaversion>"));
        assert!(modern.contains("adlcp:scormType=\"sco\""));
    }

    let fourth = generate_manifest(&options("T", "id", "1.0", "2004.4")).unwrap();
    assert!(fourth.contains("<schemaversion>2004 4th Edition</schemaversion>"));
}

#[test]
fn test_manifest_escapes_special_characters() {
    let manifest =
        generate_manifest(&options("Tom & \"Jerry\" <LLC>", "id<1>&\"2\"", "1.0", "1.2")).unwrap();
    assert!(manifest.contains("<title>Tom &amp; &quot;Jerry&quot; &lt;LLC&gt;</title>"));
    assert!(manifest.contains("identifier=\"id&lt;1&gt;&amp;&quot;2&quot;\""));
    assert!(!manifest.contains("Tom & \"Jerry\" <LLC>"));
}

#[test]
fn test_manifest_exact_structure() {
    let manifest = generate_manifest(&options("C", "i", "3", "1.2")).unwrap();
    assert!(manifest.starts_with("<?xml version=\"1.0\" encoding=\"UTF-8\"?><manifest identifier=\"i\" version=\"3\""));
    assert!(manifest.contains("<organizations default=\"i_org\"><organization identifier=\"i_org\"><title>C</title>"));
    assert!(manifest.contains(
        "<item identifier=\"item_1\" identifierref=\"resource_1\"><title>C</title></item>"
    ));
    assert!(manifest.ends_with("</manifest>"));
}
