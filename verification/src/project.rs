//! The project model: languages, project kinds, configuration parsing, and
//! the generation plan.
//!
//! A [`Project`] never touches the file system itself. Its methods decide what
//! a generation run does and return that decision as [`Action`] values; an
//! unverified shell performs them in order. Local file actions are fatal on
//! failure; tool invocations are best-effort.

use vstd::prelude::*;

use crate::render::hb_render;
use crate::render::kv_view;
use crate::render::rendered;
use crate::text::join;
use crate::text::spec_join;
use crate::text::spec_trim;
use crate::text::str_eq;
use crate::text::trim;
use crate::text::valid_name;

verus! {

/// The closed set of supported source languages.
#[derive(Debug, Clone, Copy, PartialEq, Eq, Structural, Hash)]
pub enum Lang {
    Rust,
    C,
    Cpp,
    Go,
    Java,
}

/// Whether the generated project is a library or an executable.
#[derive(Debug, Clone, Copy, PartialEq, Eq, Structural)]
pub enum ProjectKind {
    Library,
    Executable,
}

/// Why a generation run stops, or why an input is rejected.
#[derive(Debug, Clone, Copy, PartialEq, Eq, Structural)]
pub enum ErrorKind {
    /// The requested language is not in the supported set.
    UnknownLanguage,
    /// The target directory already exists.
    AlreadyExists,
    /// The language's template subtree does not exist.
    TemplateDirectoryMissing,
    /// No explicit domain was given and no default-domain file was found.
    DomainNotFound,
    /// A template file expected under the template subtree is absent.
    TemplateMissing,
    /// A template file holds malformed markup.
    TemplateSyntax,
    /// A file read, write, copy, or directory creation failed.
    Io,
    /// An external tool failed; reported only, never fatal.
    ExternalToolFailure,
}

/// The language named by a raw configuration string, if any.
pub open spec fn spec_parse_language(s: Seq<char>) -> Option<Lang> {
    if s == "rust"@ || s == "rs"@ {
        Some(Lang::Rust)
    } else if s == "c"@ {
        Some(Lang::C)
    } else if s == "cpp"@ || s == "c++"@ || s == "cc"@ {
        Some(Lang::Cpp)
    } else if s == "java"@ {
        Some(Lang::Java)
    } else if s == "go"@ {
        Some(Lang::Go)
    } else {
        None
    }
}

/// Parses a language name or alias; exact matches only.
pub fn parse_language(s: &str) -> (r: Result<Lang, ErrorKind>)
    ensures
        match r {
            Ok(l) => spec_parse_language(s@) == Some(l),
            Err(e) => spec_parse_language(s@) is None && e == ErrorKind::UnknownLanguage,
        },
{
    if str_eq(s, "rust") || str_eq(s, "rs") {
        Ok(Lang::Rust)
    } else if str_eq(s, "c") {
        Ok(Lang::C)
    } else if str_eq(s, "cpp") || str_eq(s, "c++") || str_eq(s, "cc") {
        Ok(Lang::Cpp)
    } else if str_eq(s, "java") {
        Ok(Lang::Java)
    } else if str_eq(s, "go") {
        Ok(Lang::Go)
    } else {
        Err(ErrorKind::UnknownLanguage)
    }
}

/// Parses a project kind. Deliberately permissive: any input other than a
/// recognized synonym for Library, or no input at all, means Executable.
pub fn parse_kind(s: Option<&str>) -> (r: ProjectKind)
    ensures
        (r == ProjectKind::Library) <==> (s matches Some(t) && (t@ == "lib"@ || t@
            == "library"@)),
{
    match s {
        Some(t) => {
            if str_eq(t, "lib") || str_eq(t, "library") {
                ProjectKind::Library
            } else {
                ProjectKind::Executable
            }
        },
        None => ProjectKind::Executable,
    }
}

/// The template subtree name of each language.
pub open spec fn spec_lang_dir(l: Lang) -> Seq<char> {
    match l {
        Lang::Rust => "rust"@,
        Lang::C => "c"@,
        Lang::Cpp => "cpp"@,
        Lang::Go => "go"@,
        Lang::Java => "java"@,
    }
}

fn lang_dir(l: Lang) -> (r: &'static str)
    ensures
        r@ == spec_lang_dir(l),
{
    match l {
        Lang::Rust => "rust",
        Lang::C => "c",
        Lang::Cpp => "cpp",
        Lang::Go => "go",
        Lang::Java => "java",
    }
}

/// The language tag seen by templates.
pub open spec fn spec_lang_tag(l: Lang) -> Seq<char> {
    match l {
        Lang::Rust => "Rust"@,
        Lang::C => "C"@,
        Lang::Cpp => "Cpp"@,
        Lang::Go => "Go"@,
        Lang::Java => "Java"@,
    }
}

fn lang_tag(l: Lang) -> (r: &'static str)
    ensures
        r@ == spec_lang_tag(l),
{
    match l {
        Lang::Rust => "Rust",
        Lang::C => "C",
        Lang::Cpp => "Cpp",
        Lang::Go => "Go",
        Lang::Java => "Java",
    }
}

/// The kind tag seen by templates.
pub open spec fn spec_kind_tag(k: ProjectKind) -> Seq<char> {
    match k {
        ProjectKind::Library => "Library"@,
        ProjectKind::Executable => "Executable"@,
    }
}

fn kind_tag(k: ProjectKind) -> (r: &'static str)
    ensures
        r@ == spec_kind_tag(k),
{
    match k {
        ProjectKind::Library => "Library",
        ProjectKind::Executable => "Executable",
    }
}

/// Languages whose manifests embed a reverse-domain identifier.
pub open spec fn requires_domain(l: Lang) -> bool {
    l == Lang::Go || l == Lang::Java
}

/// One step of a generation run, performed by the unverified shell.
///
/// Every step but `RunTool` is fatal on failure and aborts the remaining
/// steps; a failed tool invocation is reported and the run continues.
#[derive(Debug, PartialEq, Eq)]
pub enum Action {
    /// Create a directory.
    MakeDir { path: String },
    /// Copy a file byte for byte, overwriting the target.
    CopyFile { from: String, to: String },
    /// Read the template at `from`, render it through [`Project::template`],
    /// and write the result to `to`, overwriting it.
    RenderFile { from: String, to: String },
    /// Create an empty file, truncating an existing one.
    TouchFile { path: String },
    /// Invoke an external tool, best-effort, capturing its output; with
    /// `stdout_to` set, the captured standard output goes to that file.
    RunTool {
        program: String,
        args: Vec<String>,
        dir: Option<String>,
        stdout_to: Option<String>,
    },
}

/// The mathematical image of an [`Action`].
#[verifier::ext_equal]
pub enum ActionV {
    MakeDir { path: Seq<char> },
    CopyFile { from: Seq<char>, to: Seq<char> },
    RenderFile { from: Seq<char>, to: Seq<char> },
    TouchFile { path: Seq<char> },
    RunTool {
        program: Seq<char>,
        args: Seq<Seq<char>>,
        dir: Option<Seq<char>>,
        stdout_to: Option<Seq<char>>,
    },
}

impl View for Action {
    type V = ActionV;

    open spec fn view(&self) -> ActionV {
        match self {
            Action::MakeDir { path } => ActionV::MakeDir { path: path@ },
            Action::CopyFile { from, to } => ActionV::CopyFile { from: from@, to: to@ },
            Action::RenderFile { from, to } => ActionV::RenderFile { from: from@, to: to@ },
            Action::TouchFile { path } => ActionV::TouchFile { path: path@ },
            Action::RunTool { program, args, dir, stdout_to } => ActionV::RunTool {
                program: program@,
                args: args@.map_values(|a: String| a@),
                dir: match dir {
                    Some(d) => Some(d@),
                    None => None,
                },
                stdout_to: match stdout_to {
                    Some(d) => Some(d@),
                    None => None,
                },
            },
        }
    }
}

/// The views of a plan's actions.
pub open spec fn plan_view(s: Seq<Action>) -> Seq<ActionV> {
    s.map_values(|a: Action| a@)
}

/// The view of an optional borrowed string.
pub open spec fn opt_view(o: Option<&String>) -> Option<Seq<char>> {
    match o {
        Some(s) => Some(s@),
        None => None,
    }
}

/// The configuration of one generation run: what to create, where the
/// templates live, and the optional explicit domain.
#[derive(Debug)]
pub struct Project {
    name: String,
    lang: Lang,
    kind: ProjectKind,
    project_dir: String,
    template_dir: String,
    domain: Option<String>,
}

/// The mathematical image of a [`Project`].
pub struct ProjectV {
    pub name: Seq<char>,
    pub lang: Lang,
    pub kind: ProjectKind,
    pub project_dir: Seq<char>,
    pub template_dir: Seq<char>,
    pub domain: Option<Seq<char>>,
}

impl View for Project {
    type V = ProjectV;

    closed spec fn view(&self) -> ProjectV {
        ProjectV {
            name: self.name@,
            lang: self.lang,
            kind: self.kind,
            project_dir: self.project_dir@,
            template_dir: self.template_dir@,
            domain: match &self.domain {
                Some(d) => Some(d@),
                None => None,
            },
        }
    }
}

impl ProjectV {
    /// The project root is the project's name, itself a single fresh path
    /// segment.
    pub open spec fn wf(self) -> bool {
        valid_name(self.name) && self.project_dir == self.name
    }
}

/// The effective domain: an explicit domain verbatim; else, for a language
/// that needs one, the trimmed content of its default-domain file; else an
/// error.
pub open spec fn spec_domain(p: ProjectV, file: Option<Seq<char>>) -> Result<
    Seq<char>,
    ErrorKind,
> {
    match p.domain {
        Some(d) => Ok(d),
        None => {
            if requires_domain(p.lang) {
                match file {
                    Some(c) => Ok(spec_trim(c)),
                    None => Err(ErrorKind::DomainNotFound),
                }
            } else {
                Err(ErrorKind::DomainNotFound)
            }
        },
    }
}

/// The context mapping handed to the template renderer: the project's fields
/// and derived tags, with `domain` present only when one was given.
pub open spec fn spec_context(p: ProjectV) -> Seq<(Seq<char>, Seq<char>)> {
    let base = seq![
        ("name"@, p.name),
        ("lang"@, spec_lang_tag(p.lang)),
        ("kind"@, spec_kind_tag(p.kind)),
    ];
    match p.domain {
        Some(d) => base.push(("domain"@, d)),
        None => base,
    }
}

impl Project {
    /// Builds the configuration of one run: the project root is the name
    /// itself, the template subtree hangs under `template_root` by language.
    pub fn new(
        name: &str,
        lang: Lang,
        kind: ProjectKind,
        domain: Option<String>,
        template_root: &str,
    ) -> (r: Project)
        requires
            valid_name(name@),
        ensures
            r@.name == name@,
            r@.lang == lang,
            r@.kind == kind,
            r@.domain == (match domain {
                Some(d) => Some(d@),
                None => None::<Seq<char>>,
            }),
            r@.project_dir == name@,
            r@.template_dir == spec_join(template_root@, spec_lang_dir(lang)),
            r@.wf(),
    {
        let template_dir = join(template_root, lang_dir(lang));
        Project {
            name: name.to_owned(),
            lang,
            kind,
            project_dir: name.to_owned(),
            template_dir,
            domain,
        }
    }

    pub fn name(&self) -> (r: &String)
        ensures
            r@ == self@.name,
    {
        &self.name
    }

    pub fn lang(&self) -> (r: &Lang)
        ensures
            *r == self@.lang,
    {
        &self.lang
    }

    pub fn kind(&self) -> (r: &ProjectKind)
        ensures
            *r == self@.kind,
    {
        &self.kind
    }

    /// The resolved template subtree for this run's language.
    pub fn template_dir(&self) -> (r: &String)
        ensures
            r@ == self@.template_dir,
    {
        &self.template_dir
    }

    /// Decides whether generation may start, from the observed state of the
    /// two resolved paths. A pre-existing project root or a missing template
    /// subtree is a hard stop, checked before any file is written.
    pub fn validate_layout(&self, project_dir_exists: bool, template_dir_exists: bool) -> (r:
        Result<(), ErrorKind>)
        ensures
            r == (if project_dir_exists {
                Err::<(), ErrorKind>(ErrorKind::AlreadyExists)
            } else if !template_dir_exists {
                Err::<(), ErrorKind>(ErrorKind::TemplateDirectoryMissing)
            } else {
                Ok::<(), ErrorKind>(())
            }),
    {
        if project_dir_exists {
            Err(ErrorKind::AlreadyExists)
        } else if !template_dir_exists {
            Err(ErrorKind::TemplateDirectoryMissing)
        } else {
            Ok(())
        }
    }

    /// Where the language's default-domain marker file lives.
    pub fn domain_file_path(&self) -> (r: String)
        ensures
            r@ == spec_join(self@.template_dir, "domain"@),
    {
        join(self.template_dir.as_str(), "domain")
    }

    /// Resolves the effective domain. `domain_file` is the content of the
    /// default-domain marker file, if it could be read; an explicit domain
    /// wins over it unconditionally.
    pub fn get_default_domain(&self, domain_file: Option<&String>) -> (r: Result<
        String,
        ErrorKind,
    >)
        ensures
            match r {
                Ok(d) => spec_domain(self@, opt_view(domain_file)) == Ok::<Seq<char>, ErrorKind>(
                    d@,
                ),
                Err(e) => spec_domain(self@, opt_view(domain_file)) == Err::<Seq<char>, ErrorKind>(
                    e,
                ),
            },
    {
        match &self.domain {
            Some(d) => Ok(d.clone()),
            None => {
                if self.lang == Lang::Go || self.lang == Lang::Java {
                    match domain_file {
                        Some(content) => Ok(trim(content.as_str())),
                        None => Err(ErrorKind::DomainNotFound),
                    }
                } else {
                    Err(ErrorKind::DomainNotFound)
                }
            },
        }
    }

    /// The context mapping handed to the renderer.
    pub fn context(&self) -> (r: Vec<(String, String)>)
        ensures
            kv_view(r@) == spec_context(self@),
    {
        let mut v: Vec<(String, String)> = Vec::new();
        v.push(("name".to_owned(), self.name.clone()));
        v.push(("lang".to_owned(), lang_tag(self.lang).to_owned()));
        v.push(("kind".to_owned(), kind_tag(self.kind).to_owned()));
        match &self.domain {
            Some(d) => v.push(("domain".to_owned(), d.clone())),
            None => (),
        }
        proof {
            assert(kv_view(v@) =~= spec_context(self@));
        }
        v
    }

    /// Renders one template source against this project's context.
    pub fn template(&self, source: &str) -> (r: Result<String, ErrorKind>)
        ensures
            match r {
                Ok(out) => rendered(source@, spec_context(self@)) == Some(out@),
                Err(e) => rendered(source@, spec_context(self@)) is None && e
                    == ErrorKind::TemplateSyntax,
            },
    {
        let ctx = self.context();
        match hb_render(source, &ctx) {
            Some(out) => Ok(out),
            None => Err(ErrorKind::TemplateSyntax),
        }
    }
}

/// The directories a run lays out itself: the project root and, except for
/// languages whose own tool manages the layout, a source subdirectory.
pub open spec fn spec_dir_actions(p: ProjectV) -> Seq<ActionV> {
    if p.lang == Lang::Go {
        seq![ActionV::MakeDir { path: p.project_dir }]
    } else {
        seq![
            ActionV::MakeDir { path: p.project_dir },
            ActionV::MakeDir { path: spec_join(p.project_dir, "src"@) },
        ]
    }
}

/// The formatter-configuration dump written into the project root.
pub open spec fn spec_clang_format_action(p: ProjectV) -> ActionV {
    ActionV::RunTool {
        program: "clang-format"@,
        args: seq!["-style={BasedOnStyle: Google, IndentWidth: 4}"@, "--dump-config"@],
        dir: None,
        stdout_to: Some(spec_join(p.project_dir, ".clang-format"@)),
    }
}

/// The C pipeline: formatter configuration, then for an executable a verbatim
/// copy of the entry-point stub.
pub open spec fn spec_c_actions(p: ProjectV) -> Seq<ActionV> {
    seq![spec_clang_format_action(p)] + if p.kind == ProjectKind::Executable {
        seq![
            ActionV::CopyFile {
                from: spec_join(spec_join(p.template_dir, "src"@), "main.c"@),
                to: spec_join(spec_join(p.project_dir, "src"@), "main.c"@),
            },
        ]
    } else {
        Seq::<ActionV>::empty()
    }
}

/// The C++ pipeline: formatter configuration, then for an executable a
/// rendered entry-point stub.
pub open spec fn spec_cpp_actions(p: ProjectV) -> Seq<ActionV> {
    seq![spec_clang_format_action(p)] + if p.kind == ProjectKind::Executable {
        seq![
            ActionV::RenderFile {
                from: spec_join(spec_join(p.template_dir, "src"@), "main.cpp"@),
                to: spec_join(spec_join(p.project_dir, "src"@), "main.cpp"@),
            },
        ]
    } else {
        Seq::<ActionV>::empty()
    }
}

/// The Go pipeline: module initialization inside the project root, then for
/// an executable a rendered entry-point stub.
pub open spec fn spec_go_actions(p: ProjectV, domain: Seq<char>) -> Seq<ActionV> {
    seq![
        ActionV::RunTool {
            program: "go"@,
            args: seq!["mod"@, "init"@, spec_join(domain, p.name)],
            dir: Some(p.project_dir),
            stdout_to: None,
        },
    ] + if p.kind == ProjectKind::Executable {
        seq![
            ActionV::RenderFile {
                from: spec_join(p.template_dir, "main.go"@),
                to: spec_join(p.project_dir, "main.go"@),
            },
        ]
    } else {
        Seq::<ActionV>::empty()
    }
}

/// The Java pipeline: the archetype generator, then a rendered manifest,
/// whatever the kind.
pub open spec fn spec_java_actions(p: ProjectV, domain: Seq<char>) -> Seq<ActionV> {
    seq![
        ActionV::RunTool {
            program: "mvn"@,
            args: seq![
                "archetype:generate"@,
                "-DgroupId="@ + domain + "."@ + p.name,
                "-DartifactId="@ + p.name,
                "-DarchetypeArtifactId=maven-archetype-quickstart"@,
                "-DinteractiveMode=false"@,
            ],
            dir: None,
            stdout_to: None,
        },
        ActionV::RenderFile {
            from: spec_join(p.template_dir, "manifest.txt"@),
            to: spec_join(p.project_dir, "manifest.txt"@),
        },
    ]
}

/// The Rust pipeline: the package manager's project generator, for an
/// executable a verbatim copy of the entry-point stub over the generated one,
/// and an empty library-entry file, whatever the kind.
pub open spec fn spec_rust_actions(p: ProjectV) -> Seq<ActionV> {
    seq![
        ActionV::RunTool {
            program: "cargo"@,
            args: seq![
                "new"@,
                p.name,
                if p.kind == ProjectKind::Library {
                    "--lib"@
                } else {
                    "--bin"@
                },
            ],
            dir: None,
            stdout_to: None,
        },
    ] + (if p.kind == ProjectKind::Executable {
        seq![
            ActionV::CopyFile {
                from: spec_join(spec_join(p.template_dir, "src"@), "main.rs"@),
                to: spec_join(spec_join(p.project_dir, "src"@), "main.rs"@),
            },
        ]
    } else {
        Seq::<ActionV>::empty()
    }) + seq![ActionV::TouchFile { path: spec_join(spec_join(p.project_dir, "src"@), "lib.rs"@) }]
}

/// The ignore-file copy of the common tail.
pub open spec fn spec_gitignore_action(p: ProjectV) -> ActionV {
    ActionV::CopyFile {
        from: spec_join(p.template_dir, ".gitignore"@),
        to: spec_join(p.project_dir, ".gitignore"@),
    }
}

/// The build-file render of the common tail, picking the variant by kind.
pub open spec fn spec_makefile_action(p: ProjectV) -> ActionV {
    ActionV::RenderFile {
        from: spec_join(
            p.template_dir,
            if p.kind == ProjectKind::Library {
                "Makefile.lib"@
            } else {
                "Makefile.bin"@
            },
        ),
        to: spec_join(p.project_dir, "Makefile"@),
    }
}

/// The common tail of every pipeline: the ignore file, then the build file.
pub open spec fn spec_tail_actions(p: ProjectV) -> Seq<ActionV> {
    seq![spec_gitignore_action(p), spec_makefile_action(p)]
}

/// The whole plan of one generation run, or the error that stops it before
/// any step runs.
pub open spec fn spec_generate(p: ProjectV, file: Option<Seq<char>>) -> Result<
    Seq<ActionV>,
    ErrorKind,
> {
    match p.lang {
        Lang::C => Ok(spec_dir_actions(p) + spec_c_actions(p) + spec_tail_actions(p)),
        Lang::Cpp => Ok(spec_dir_actions(p) + spec_cpp_actions(p) + spec_tail_actions(p)),
        Lang::Java => match spec_domain(p, file) {
            Ok(d) => Ok(spec_java_actions(p, d) + spec_tail_actions(p)),
            Err(e) => Err(e),
        },
        Lang::Rust => Ok(spec_rust_actions(p) + spec_tail_actions(p)),
        Lang::Go => match spec_domain(p, file) {
            Ok(d) => Ok(spec_dir_actions(p) + spec_go_actions(p, d) + spec_tail_actions(p)),
            Err(e) => Err(e),
        },
    }
}

proof fn lemma_plan_view_concat(a: Seq<Action>, b: Seq<Action>)
    ensures
        plan_view(a + b) == plan_view(a) + plan_view(b),
{
    assert(plan_view(a + b) =~= plan_view(a) + plan_view(b));
}

impl Project {
    /// The directory-creation steps of this run.
    pub fn create_dir(&self) -> (r: Vec<Action>)
        ensures
            plan_view(r@) == spec_dir_actions(self@),
    {
        let mut v: Vec<Action> = Vec::new();
        v.push(Action::MakeDir { path: self.project_dir.clone() });
        if !(self.lang == Lang::Go) {
            v.push(Action::MakeDir { path: join(self.project_dir.as_str(), "src") });
        }
        proof {
            assert(plan_view(v@) =~= spec_dir_actions(self@));
        }
        v
    }

    /// The formatter-configuration step of the C and C++ pipelines.
    pub fn create_clang_format(&self) -> (r: Action)
        ensures
            r@ == spec_clang_format_action(self@),
    {
        let mut args: Vec<String> = Vec::new();
        args.push("-style={BasedOnStyle: Google, IndentWidth: 4}".to_owned());
        args.push("--dump-config".to_owned());
        let r = Action::RunTool {
            program: "clang-format".to_owned(),
            args,
            dir: None,
            stdout_to: Some(join(self.project_dir.as_str(), ".clang-format")),
        };
        proof {
            assert(r@ =~~= spec_clang_format_action(self@));
        }
        r
    }

    /// The language-specific steps of the C pipeline.
    pub fn create_c_project(&self) -> (r: Vec<Action>)
        ensures
            plan_view(r@) == spec_c_actions(self@),
    {
        let mut v: Vec<Action> = Vec::new();
        v.push(self.create_clang_format());
        if self.kind == ProjectKind::Executable {
            v.push(
                Action::CopyFile {
                    from: join(join(self.template_dir.as_str(), "src").as_str(), "main.c"),
                    to: join(join(self.project_dir.as_str(), "src").as_str(), "main.c"),
                },
            );
        }
        proof {
            assert(plan_view(v@) =~~= spec_c_actions(self@));
        }
        v
    }

    /// The language-specific steps of the C++ pipeline.
    pub fn create_cpp_project(&self) -> (r: Vec<Action>)
        ensures
            plan_view(r@) == spec_cpp_actions(self@),
    {
        let mut v: Vec<Action> = Vec::new();
        v.push(self.create_clang_format());
        if self.kind == ProjectKind::Executable {
            v.push(
                Action::RenderFile {
                    from: join(join(self.template_dir.as_str(), "src").as_str(), "main.cpp"),
                    to: join(join(self.project_dir.as_str(), "src").as_str(), "main.cpp"),
                },
            );
        }
        proof {
            assert(plan_view(v@) =~~= spec_cpp_actions(self@));
        }
        v
    }

    /// The language-specific steps of the Go pipeline, or the error that
    /// stops the run when no domain can be resolved.
    pub fn create_go_project(&self, domain_file: Option<&String>) -> (r: Result<
        Vec<Action>,
        ErrorKind,
    >)
        ensures
            match r {
                Ok(v) => spec_domain(self@, opt_view(domain_file)) matches Ok(d) && plan_view(v@)
                    == spec_go_actions(self@, d),
                Err(e) => spec_domain(self@, opt_view(domain_file)) == Err::<Seq<char>, ErrorKind>(
                    e,
                ),
            },
    {
        let domain = match self.get_default_domain(domain_file) {
            Ok(d) => d,
            Err(e) => {
                return Err(e);
            },
        };
        let mut args: Vec<String> = Vec::new();
        args.push("mod".to_owned());
        args.push("init".to_owned());
        args.push(join(domain.as_str(), self.name.as_str()));
        let mut v: Vec<Action> = Vec::new();
        v.push(
            Action::RunTool {
                program: "go".to_owned(),
                args,
                dir: Some(self.project_dir.clone()),
                stdout_to: None,
            },
        );
        if self.kind == ProjectKind::Executable {
            v.push(
                Action::RenderFile {
                    from: join(self.template_dir.as_str(), "main.go"),
                    to: join(self.project_dir.as_str(), "main.go"),
                },
            );
        }
        proof {
            assert(plan_view(v@) =~~= spec_go_actions(self@, domain@));
        }
        Ok(v)
    }

    /// The language-specific steps of the Java pipeline, or the error that
    /// stops the run when no domain can be resolved.
    pub fn create_java_project(&self, domain_file: Option<&String>) -> (r: Result<
        Vec<Action>,
        ErrorKind,
    >)
        ensures
            match r {
                Ok(v) => spec_domain(self@, opt_view(domain_file)) matches Ok(d) && plan_view(v@)
                    == spec_java_actions(self@, d),
                Err(e) => spec_domain(self@, opt_view(domain_file)) == Err::<Seq<char>, ErrorKind>(
                    e,
                ),
            },
    {
        let domain = match self.get_default_domain(domain_file) {
            Ok(d) => d,
            Err(e) => {
                return Err(e);
            },
        };
        let mut group = "-DgroupId=".to_owned();
        group.append(domain.as_str());
        group.append(".");
        group.append(self.name.as_str());
        let mut artifact = "-DartifactId=".to_owned();
        artifact.append(self.name.as_str());
        let mut args: Vec<String> = Vec::new();
        args.push("archetype:generate".to_owned());
        args.push(group);
        args.push(artifact);
        args.push("-DarchetypeArtifactId=maven-archetype-quickstart".to_owned());
        args.push("-DinteractiveMode=false".to_owned());
        let mut v: Vec<Action> = Vec::new();
        v.push(
            Action::RunTool {
                program: "mvn".to_owned(),
                args,
                dir: None,
                stdout_to: None,
            },
        );
        v.push(
            Action::RenderFile {
                from: join(self.template_dir.as_str(), "manifest.txt"),
                to: join(self.project_dir.as_str(), "manifest.txt"),
            },
        );
        proof {
            assert(plan_view(v@) =~~= spec_java_actions(self@, domain@));
        }
        Ok(v)
    }

    /// The language-specific steps of the Rust pipeline.
    pub fn create_rust_project(&self) -> (r: Vec<Action>)
        ensures
            plan_view(r@) == spec_rust_actions(self@),
    {
        let mut args: Vec<String> = Vec::new();
        args.push("new".to_owned());
        args.push(self.name.clone());
        if self.kind == ProjectKind::Library {
            args.push("--lib".to_owned());
        } else {
            args.push("--bin".to_owned());
        }
        let mut v: Vec<Action> = Vec::new();
        v.push(
            Action::RunTool {
                program: "cargo".to_owned(),
                args,
                dir: None,
                stdout_to: None,
            },
        );
        if self.kind == ProjectKind::Executable {
            v.push(
                Action::CopyFile {
                    from: join(join(self.template_dir.as_str(), "src").as_str(), "main.rs"),
                    to: join(join(self.project_dir.as_str(), "src").as_str(), "main.rs"),
                },
            );
        }
        v.push(
            Action::TouchFile {
                path: join(join(self.project_dir.as_str(), "src").as_str(), "lib.rs"),
            },
        );
        proof {
            assert(plan_view(v@) =~~= spec_rust_actions(self@));
        }
        v
    }

    /// The ignore-file step of the common tail.
    pub fn create_gitignore(&self) -> (r: Action)
        ensures
            r@ == spec_gitignore_action(self@),
    {
        Action::CopyFile {
            from: join(self.template_dir.as_str(), ".gitignore"),
            to: join(self.project_dir.as_str(), ".gitignore"),
        }
    }

    /// The build-file step of the common tail.
    pub fn create_makefile(&self) -> (r: Action)
        ensures
            r@ == spec_makefile_action(self@),
    {
        let makefile_name = if self.kind == ProjectKind::Library {
            "Makefile.lib"
        } else {
            "Makefile.bin"
        };
        Action::RenderFile {
            from: join(self.template_dir.as_str(), makefile_name),
            to: join(self.project_dir.as_str(), "Makefile"),
        }
    }

    /// Decides the whole run: the language-specific pipeline followed by the
    /// common tail, or the error that stops it before any step runs.
    /// `domain_file` is the content of the default-domain marker file, if the
    /// shell could read it.
    pub fn generate(&self, domain_file: Option<&String>) -> (r: Result<Vec<Action>, ErrorKind>)
        ensures
            match r {
                Ok(v) => spec_generate(self@, opt_view(domain_file)) == Ok::<
                    Seq<ActionV>,
                    ErrorKind,
                >(plan_view(v@)),
                Err(e) => spec_generate(self@, opt_view(domain_file)) == Err::<
                    Seq<ActionV>,
                    ErrorKind,
                >(e),
            },
    {
        let mut v: Vec<Action> = match self.lang {
            Lang::C => {
                let mut v = self.create_dir();
                let mut rest = self.create_c_project();
                proof {
                    lemma_plan_view_concat(v@, rest@);
                }
                v.append(&mut rest);
                v
            },
            Lang::Cpp => {
                let mut v = self.create_dir();
                let mut rest = self.create_cpp_project();
                proof {
                    lemma_plan_view_concat(v@, rest@);
                }
                v.append(&mut rest);
                v
            },
            Lang::Java => {
                match self.create_java_project(domain_file) {
                    Ok(v) => v,
                    Err(e) => {
                        return Err(e);
                    },
                }
            },
            Lang::Rust => self.create_rust_project(),
            Lang::Go => {
                let mut v = self.create_dir();
                match self.create_go_project(domain_file) {
                    Ok(mut rest) => {
                        proof {
                            lemma_plan_view_concat(v@, rest@);
                        }
                        v.append(&mut rest);
                        v
                    },
                    Err(e) => {
                        return Err(e);
                    },
                }
            },
        };
        let gi = self.create_gitignore();
        v.push(gi);
        let mk = self.create_makefile();
        v.push(mk);
        proof {
            let g = spec_generate(self@, opt_view(domain_file));
            assert(g matches Ok(s) && plan_view(v@) =~~= s);
        }
        Ok(v)
    }
}

} // verus!
