//! Template rendering against the project context.

use genproj::project::ErrorKind;
use genproj::project::Lang;
use genproj::project::Project;
use genproj::project::ProjectKind;

#[test]
fn substitutes_project_fields() {
    let p = Project::new(
        "demo",
        Lang::Rust,
        ProjectKind::Executable,
        Some(String::from("com.acme")),
        "/tpl",
    );
    let out = p.template("{{name}} {{lang}} {{kind}} {{domain}}").unwrap();
    assert_eq!(out, String::from("demo Rust Executable com.acme"));
}

#[test]
fn leaves_literal_text_alone() {
    let p = Project::new("demo", Lang::C, ProjectKind::Library, None, "/tpl");
    let out = p.template("all: build\n\tcc -o demo main.c\n").unwrap();
    assert_eq!(out, String::from("all: build\n\tcc -o demo main.c\n"));
}

#[test]
fn rendering_twice_is_byte_identical() {
    let p = Project::new("demo", Lang::Cpp, ProjectKind::Library, None, "/tpl");
    let source = "TARGET={{name}}\nKIND={{kind}}\nLANG={{lang}}\n";
    let first = p.template(source).unwrap();
    let second = p.template(source).unwrap();
    assert_eq!(first, second);
    assert_eq!(first, String::from("TARGET=demo\nKIND=Library\nLANG=Cpp\n"));
}

#[test]
fn malformed_markup_is_a_syntax_error() {
    let p = Project::new("demo", Lang::Java, ProjectKind::Library, None, "/tpl");
    assert_eq!(p.template("{{#if}}"), Err(ErrorKind::TemplateSyntax));
    assert_eq!(p.template("{{name"), Err(ErrorKind::TemplateSyntax));
}

#[test]
fn empty_template_renders_empty() {
    let p = Project::new("demo", Lang::Go, ProjectKind::Executable, None, "/tpl");
    assert_eq!(p.template(""), Ok(String::new()));
}
