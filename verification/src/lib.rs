//! A verified SCORM course-package builder: generators for the package
//! manifest, stylesheet, navigation script and HTML pages, an archive
//! assembler with path-injection defenses, and a structural validator
//! for the finished package.
pub mod text;
pub mod xml;
pub mod manifest;
pub mod model;
pub mod style;
pub mod navigation;
pub mod archive;
pub mod validator;
pub mod html;
pub mod generator;
pub mod project;
pub mod pages;
