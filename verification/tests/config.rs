//! Configuration resolution: language and kind parsing, domain resolution,
//! and the string utilities under them.

use genproj::project::parse_kind;
use genproj::project::parse_language;
use genproj::project::ErrorKind;
use genproj::project::Lang;
use genproj::project::Project;
use genproj::project::ProjectKind;
use genproj::text::is_valid_name;
use genproj::text::join;
use genproj::text::str_eq;
use genproj::text::trim;

#[test]
fn language_aliases_share_a_variant() {
    assert_eq!(parse_language("cpp"), Ok(Lang::Cpp));
    assert_eq!(parse_language("c++"), Ok(Lang::Cpp));
    assert_eq!(parse_language("cc"), Ok(Lang::Cpp));
    assert_eq!(parse_language("rust"), Ok(Lang::Rust));
    assert_eq!(parse_language("rs"), Ok(Lang::Rust));
    assert_eq!(parse_language("c"), Ok(Lang::C));
    assert_eq!(parse_language("go"), Ok(Lang::Go));
    assert_eq!(parse_language("java"), Ok(Lang::Java));
}

#[test]
fn language_matching_is_exact() {
    assert_eq!(parse_language("fortran"), Err(ErrorKind::UnknownLanguage));
    assert_eq!(parse_language("Rust"), Err(ErrorKind::UnknownLanguage));
    assert_eq!(parse_language(" c"), Err(ErrorKind::UnknownLanguage));
    assert_eq!(parse_language(""), Err(ErrorKind::UnknownLanguage));
}

#[test]
fn kind_library_synonyms() {
    assert_eq!(parse_kind(Some("lib")), ProjectKind::Library);
    assert_eq!(parse_kind(Some("library")), ProjectKind::Library);
}

#[test]
fn kind_defaults_to_executable() {
    assert_eq!(parse_kind(Some("bin")), ProjectKind::Executable);
    assert_eq!(parse_kind(Some("binary")), ProjectKind::Executable);
    assert_eq!(parse_kind(Some("exe")), ProjectKind::Executable);
    assert_eq!(parse_kind(Some("executable")), ProjectKind::Executable);
    assert_eq!(parse_kind(Some("Library")), ProjectKind::Executable);
    assert_eq!(parse_kind(Some("anything")), ProjectKind::Executable);
    assert_eq!(parse_kind(Some("")), ProjectKind::Executable);
    assert_eq!(parse_kind(None), ProjectKind::Executable);
}

#[test]
fn explicit_domain_wins_over_file() {
    let p = Project::new(
        "demo",
        Lang::Java,
        ProjectKind::Library,
        Some(String::from("com.explicit")),
        "/tpl",
    );
    let file = String::from("com.fromfile\n");
    assert_eq!(p.get_default_domain(Some(&file)), Ok(String::from("com.explicit")));
    assert_eq!(p.get_default_domain(None), Ok(String::from("com.explicit")));
}

#[test]
fn domain_falls_back_to_trimmed_file() {
    let p = Project::new("demo", Lang::Java, ProjectKind::Library, None, "/tpl");
    let file = String::from("  example.com\n");
    assert_eq!(p.get_default_domain(Some(&file)), Ok(String::from("example.com")));
}

#[test]
fn domain_not_found_without_either_source() {
    let p = Project::new("demo", Lang::Java, ProjectKind::Library, None, "/tpl");
    assert_eq!(p.get_default_domain(None), Err(ErrorKind::DomainNotFound));
    let g = Project::new("demo", Lang::Go, ProjectKind::Executable, None, "/tpl");
    assert_eq!(g.get_default_domain(None), Err(ErrorKind::DomainNotFound));
}

#[test]
fn domain_file_ignored_for_languages_without_domains() {
    let p = Project::new("demo", Lang::C, ProjectKind::Library, None, "/tpl");
    let file = String::from("example.com");
    assert_eq!(p.get_default_domain(Some(&file)), Err(ErrorKind::DomainNotFound));
}

#[test]
fn domain_file_path_lives_in_template_subtree() {
    let p = Project::new("demo", Lang::Go, ProjectKind::Executable, None, "/tpl");
    assert_eq!(p.domain_file_path(), String::from("/tpl/go/domain"));
}

#[test]
fn preflight_refuses_existing_target() {
    let p = Project::new("demo", Lang::C, ProjectKind::Library, None, "/tpl");
    assert_eq!(p.validate_layout(true, true), Err(ErrorKind::AlreadyExists));
    assert_eq!(p.validate_layout(true, false), Err(ErrorKind::AlreadyExists));
}

#[test]
fn preflight_refuses_missing_template_subtree() {
    let p = Project::new("demo", Lang::C, ProjectKind::Library, None, "/tpl");
    assert_eq!(p.validate_layout(false, false), Err(ErrorKind::TemplateDirectoryMissing));
    assert_eq!(p.validate_layout(false, true), Ok(()));
}

#[test]
fn accessors_echo_the_configuration() {
    let p = Project::new(
        "demo",
        Lang::Rust,
        ProjectKind::Executable,
        None,
        "/home/u/.config/gen/templates",
    );
    assert_eq!(p.name(), "demo");
    assert_eq!(*p.lang(), Lang::Rust);
    assert_eq!(*p.kind(), ProjectKind::Executable);
    assert_eq!(p.template_dir(), "/home/u/.config/gen/templates/rust");
}

#[test]
fn trim_strips_both_ends() {
    assert_eq!(trim("  example.com\n"), String::from("example.com"));
    assert_eq!(trim("\t\r\n a b \n"), String::from("a b"));
    assert_eq!(trim("plain"), String::from("plain"));
    assert_eq!(trim("   \n\t"), String::from(""));
    assert_eq!(trim(""), String::from(""));
}

#[test]
fn join_inserts_one_separator() {
    assert_eq!(join("a", "b"), String::from("a/b"));
    assert_eq!(join("", "b"), String::from("/b"));
    assert_eq!(join("a/b", "c"), String::from("a/b/c"));
}

#[test]
fn str_eq_compares_contents() {
    assert!(str_eq("abc", "abc"));
    assert!(!str_eq("abc", "abd"));
    assert!(!str_eq("abc", "ab"));
    assert!(str_eq("", ""));
}

#[test]
fn name_validity() {
    assert!(is_valid_name("demo"));
    assert!(is_valid_name("demo-1_x"));
    assert!(!is_valid_name(""));
    assert!(!is_valid_name("a/b"));
    assert!(!is_valid_name("/"));
}
