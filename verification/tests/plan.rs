//! Generation plans: the per-language pipelines and the common tail.

use genproj::project::Action;
use genproj::project::ErrorKind;
use genproj::project::Lang;
use genproj::project::Project;
use genproj::project::ProjectKind;

fn s(x: &str) -> String {
    String::from(x)
}

fn project(lang: Lang, kind: ProjectKind, domain: Option<&str>) -> Project {
    Project::new("demo", lang, kind, domain.map(String::from), "/tpl")
}

/// An action that writes an entry-point source file for "demo".
fn is_entry_point(a: &Action) -> bool {
    let target = match a {
        Action::CopyFile { to, .. } => to,
        Action::RenderFile { to, .. } => to,
        Action::TouchFile { path } => path,
        _ => return false,
    };
    target == "demo/src/main.c"
        || target == "demo/src/main.cpp"
        || target == "demo/src/main.rs"
        || target == "demo/main.go"
}

fn clang_format_action() -> Action {
    Action::RunTool {
        program: s("clang-format"),
        args: vec![s("-style={BasedOnStyle: Google, IndentWidth: 4}"), s("--dump-config")],
        dir: None,
        stdout_to: Some(s("demo/.clang-format")),
    }
}

fn gitignore_action(lang: &str) -> Action {
    Action::CopyFile {
        from: format!("/tpl/{}/.gitignore", lang),
        to: s("demo/.gitignore"),
    }
}

fn makefile_action(lang: &str, kind: ProjectKind) -> Action {
    let variant = match kind {
        ProjectKind::Library => "Makefile.lib",
        ProjectKind::Executable => "Makefile.bin",
    };
    Action::RenderFile {
        from: format!("/tpl/{}/{}", lang, variant),
        to: s("demo/Makefile"),
    }
}

#[test]
fn rust_executable_pipeline() {
    let p = project(Lang::Rust, ProjectKind::Executable, None);
    let plan = p.generate(None).unwrap();
    let expected = vec![
        Action::RunTool {
            program: s("cargo"),
            args: vec![s("new"), s("demo"), s("--bin")],
            dir: None,
            stdout_to: None,
        },
        Action::CopyFile { from: s("/tpl/rust/src/main.rs"), to: s("demo/src/main.rs") },
        Action::TouchFile { path: s("demo/src/lib.rs") },
        gitignore_action("rust"),
        makefile_action("rust", ProjectKind::Executable),
    ];
    assert_eq!(plan, expected);
}

#[test]
fn rust_library_pipeline() {
    let p = project(Lang::Rust, ProjectKind::Library, None);
    let plan = p.generate(None).unwrap();
    let expected = vec![
        Action::RunTool {
            program: s("cargo"),
            args: vec![s("new"), s("demo"), s("--lib")],
            dir: None,
            stdout_to: None,
        },
        Action::TouchFile { path: s("demo/src/lib.rs") },
        gitignore_action("rust"),
        makefile_action("rust", ProjectKind::Library),
    ];
    assert_eq!(plan, expected);
}

#[test]
fn c_library_pipeline() {
    let p = project(Lang::C, ProjectKind::Library, None);
    let plan = p.generate(None).unwrap();
    let expected = vec![
        Action::MakeDir { path: s("demo") },
        Action::MakeDir { path: s("demo/src") },
        clang_format_action(),
        gitignore_action("c"),
        makefile_action("c", ProjectKind::Library),
    ];
    assert_eq!(plan, expected);
    assert!(plan.iter().all(|a| !is_entry_point(a)));
}

#[test]
fn c_executable_copies_the_stub() {
    let p = project(Lang::C, ProjectKind::Executable, None);
    let plan = p.generate(None).unwrap();
    let expected = vec![
        Action::MakeDir { path: s("demo") },
        Action::MakeDir { path: s("demo/src") },
        clang_format_action(),
        Action::CopyFile { from: s("/tpl/c/src/main.c"), to: s("demo/src/main.c") },
        gitignore_action("c"),
        makefile_action("c", ProjectKind::Executable),
    ];
    assert_eq!(plan, expected);
}

#[test]
fn cpp_executable_renders_the_stub() {
    let p = project(Lang::Cpp, ProjectKind::Executable, None);
    let plan = p.generate(None).unwrap();
    let expected = vec![
        Action::MakeDir { path: s("demo") },
        Action::MakeDir { path: s("demo/src") },
        clang_format_action(),
        Action::RenderFile { from: s("/tpl/cpp/src/main.cpp"), to: s("demo/src/main.cpp") },
        gitignore_action("cpp"),
        makefile_action("cpp", ProjectKind::Executable),
    ];
    assert_eq!(plan, expected);
}

#[test]
fn go_executable_uses_domain_from_file() {
    let p = project(Lang::Go, ProjectKind::Executable, None);
    let file = s("example.com\n");
    let plan = p.generate(Some(&file)).unwrap();
    let expected = vec![
        Action::MakeDir { path: s("demo") },
        Action::RunTool {
            program: s("go"),
            args: vec![s("mod"), s("init"), s("example.com/demo")],
            dir: Some(s("demo")),
            stdout_to: None,
        },
        Action::RenderFile { from: s("/tpl/go/main.go"), to: s("demo/main.go") },
        gitignore_action("go"),
        makefile_action("go", ProjectKind::Executable),
    ];
    assert_eq!(plan, expected);
}

#[test]
fn go_library_skips_the_stub() {
    let p = project(Lang::Go, ProjectKind::Library, Some("example.com"));
    let plan = p.generate(None).unwrap();
    let expected = vec![
        Action::MakeDir { path: s("demo") },
        Action::RunTool {
            program: s("go"),
            args: vec![s("mod"), s("init"), s("example.com/demo")],
            dir: Some(s("demo")),
            stdout_to: None,
        },
        gitignore_action("go"),
        makefile_action("go", ProjectKind::Library),
    ];
    assert_eq!(plan, expected);
}

#[test]
fn java_pipeline_renders_manifest_for_both_kinds() {
    for kind in [ProjectKind::Library, ProjectKind::Executable] {
        let p = project(Lang::Java, kind, Some("com.acme"));
        let plan = p.generate(None).unwrap();
        let expected = vec![
            Action::RunTool {
                program: s("mvn"),
                args: vec![
                    s("archetype:generate"),
                    s("-DgroupId=com.acme.demo"),
                    s("-DartifactId=demo"),
                    s("-DarchetypeArtifactId=maven-archetype-quickstart"),
                    s("-DinteractiveMode=false"),
                ],
                dir: None,
                stdout_to: None,
            },
            Action::RenderFile { from: s("/tpl/java/manifest.txt"), to: s("demo/manifest.txt") },
            gitignore_action("java"),
            makefile_action("java", kind),
        ];
        assert_eq!(plan, expected);
    }
}

#[test]
fn java_without_domain_fails_before_any_action() {
    let p = project(Lang::Java, ProjectKind::Library, None);
    assert_eq!(p.generate(None), Err(ErrorKind::DomainNotFound));
}

#[test]
fn go_without_domain_fails_before_any_action() {
    let p = project(Lang::Go, ProjectKind::Executable, None);
    assert_eq!(p.generate(None), Err(ErrorKind::DomainNotFound));
}

#[test]
fn library_plans_never_write_an_entry_point() {
    let file = s("example.com");
    for lang in [Lang::Rust, Lang::C, Lang::Cpp, Lang::Go, Lang::Java] {
        let p = project(lang, ProjectKind::Library, None);
        let plan = p.generate(Some(&file)).unwrap();
        assert!(plan.iter().all(|a| !is_entry_point(a)));
    }
}

#[test]
fn executable_plans_write_exactly_one_entry_point() {
    let file = s("example.com");
    for lang in [Lang::Rust, Lang::C, Lang::Cpp, Lang::Go] {
        let p = project(lang, ProjectKind::Executable, None);
        let plan = p.generate(Some(&file)).unwrap();
        assert_eq!(plan.iter().filter(|a| is_entry_point(a)).count(), 1);
    }
}

#[test]
fn every_successful_plan_ends_with_the_common_tail() {
    let file = s("example.com");
    for lang in [Lang::Rust, Lang::C, Lang::Cpp, Lang::Go, Lang::Java] {
        for kind in [ProjectKind::Library, ProjectKind::Executable] {
            let p = project(lang, kind, None);
            let plan = p.generate(Some(&file)).unwrap();
            let n = plan.len();
            assert!(matches!(&plan[n - 2], Action::CopyFile { to, .. } if to == "demo/.gitignore"));
            assert!(matches!(&plan[n - 1], Action::RenderFile { to, .. } if to == "demo/Makefile"));
        }
    }
}
