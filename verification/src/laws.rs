//! Laws of the generation plan: what every successful plan contains, what it
//! never contains, and where it writes.

use vstd::prelude::*;

use crate::project::requires_domain;
use crate::project::spec_domain;
use crate::project::spec_generate;
use crate::project::spec_gitignore_action;
use crate::text::spec_join;
use crate::project::spec_makefile_action;
use crate::project::ActionV;
use crate::project::ErrorKind;
use crate::project::Lang;
use crate::project::ProjectKind;
use crate::project::ProjectV;

verus! {

/// The entry-point source files a plan can create: one per language that has
/// an entry-point stub among its templates.
pub open spec fn is_entry_path(q: Seq<char>, p: ProjectV) -> bool {
    ||| q == spec_join(spec_join(p.project_dir, "src"@), "main.c"@)
    ||| q == spec_join(spec_join(p.project_dir, "src"@), "main.cpp"@)
    ||| q == spec_join(spec_join(p.project_dir, "src"@), "main.rs"@)
    ||| q == spec_join(p.project_dir, "main.go"@)
}

/// Whether an action writes an entry-point source file.
pub open spec fn is_entry_point_write(a: ActionV, p: ProjectV) -> bool {
    ||| (a matches ActionV::CopyFile { to, .. } && is_entry_path(to, p))
    ||| (a matches ActionV::RenderFile { to, .. } && is_entry_path(to, p))
    ||| (a matches ActionV::TouchFile { path } && is_entry_path(path, p))
}

proof fn lemma_append_ne(a: Seq<char>, s1: Seq<char>, s2: Seq<char>, k: int)
    requires
        0 <= k < s1.len(),
        0 <= k < s2.len(),
        s1[k] != s2[k] || s1.len() != s2.len(),
    ensures
        a + s1 != a + s2,
{
    if s1.len() != s2.len() {
        assert((a + s1).len() != (a + s2).len());
    } else if a + s1 == a + s2 {
        assert((a + s1)[a.len() + k] == s1[k]);
        assert((a + s2)[a.len() + k] == s2[k]);
        assert(false);
    }
}

proof fn lemma_gitignore_not_entry(p: ProjectV)
    ensures
        !is_entry_path(spec_join(p.project_dir, ".gitignore"@), p),
{
    reveal_strlit("/");
    reveal_strlit("src");
    reveal_strlit(".gitignore");
    reveal_strlit("main.c");
    reveal_strlit("main.cpp");
    reveal_strlit("main.rs");
    reveal_strlit("main.go");
    let proj = p.project_dir;
    let s = "/"@ + ".gitignore"@;
    assert(spec_join(proj, ".gitignore"@) =~= proj + s);
    let e1 = "/"@ + "src"@ + "/"@ + "main.c"@;
    let e2 = "/"@ + "src"@ + "/"@ + "main.cpp"@;
    let e3 = "/"@ + "src"@ + "/"@ + "main.rs"@;
    let e4 = "/"@ + "main.go"@;
    assert(spec_join(spec_join(proj, "src"@), "main.c"@) =~= proj + e1);
    assert(spec_join(spec_join(proj, "src"@), "main.cpp"@) =~= proj + e2);
    assert(spec_join(spec_join(proj, "src"@), "main.rs"@) =~= proj + e3);
    assert(spec_join(proj, "main.go"@) =~= proj + e4);
    lemma_append_ne(proj, s, e1, 1);
    lemma_append_ne(proj, s, e2, 1);
    lemma_append_ne(proj, s, e3, 1);
    lemma_append_ne(proj, s, e4, 1);
}

proof fn lemma_makefile_not_entry(p: ProjectV)
    ensures
        !is_entry_path(spec_join(p.project_dir, "Makefile"@), p),
{
    reveal_strlit("/");
    reveal_strlit("src");
    reveal_strlit("Makefile");
    reveal_strlit("main.c");
    reveal_strlit("main.cpp");
    reveal_strlit("main.rs");
    reveal_strlit("main.go");
    let proj = p.project_dir;
    let s = "/"@ + "Makefile"@;
    assert(spec_join(proj, "Makefile"@) =~= proj + s);
    let e1 = "/"@ + "src"@ + "/"@ + "main.c"@;
    let e2 = "/"@ + "src"@ + "/"@ + "main.cpp"@;
    let e3 = "/"@ + "src"@ + "/"@ + "main.rs"@;
    let e4 = "/"@ + "main.go"@;
    assert(spec_join(spec_join(proj, "src"@), "main.c"@) =~= proj + e1);
    assert(spec_join(spec_join(proj, "src"@), "main.cpp"@) =~= proj + e2);
    assert(spec_join(spec_join(proj, "src"@), "main.rs"@) =~= proj + e3);
    assert(spec_join(proj, "main.go"@) =~= proj + e4);
    lemma_append_ne(proj, s, e1, 1);
    lemma_append_ne(proj, s, e2, 1);
    lemma_append_ne(proj, s, e3, 1);
    lemma_append_ne(proj, s, e4, 1);
}

proof fn lemma_manifest_not_entry(p: ProjectV)
    ensures
        !is_entry_path(spec_join(p.project_dir, "manifest.txt"@), p),
{
    reveal_strlit("/");
    reveal_strlit("src");
    reveal_strlit("manifest.txt");
    reveal_strlit("main.c");
    reveal_strlit("main.cpp");
    reveal_strlit("main.rs");
    reveal_strlit("main.go");
    let proj = p.project_dir;
    let s = "/"@ + "manifest.txt"@;
    assert(spec_join(proj, "manifest.txt"@) =~= proj + s);
    let e1 = "/"@ + "src"@ + "/"@ + "main.c"@;
    let e2 = "/"@ + "src"@ + "/"@ + "main.cpp"@;
    let e3 = "/"@ + "src"@ + "/"@ + "main.rs"@;
    let e4 = "/"@ + "main.go"@;
    assert(spec_join(spec_join(proj, "src"@), "main.c"@) =~= proj + e1);
    assert(spec_join(spec_join(proj, "src"@), "main.cpp"@) =~= proj + e2);
    assert(spec_join(spec_join(proj, "src"@), "main.rs"@) =~= proj + e3);
    assert(spec_join(proj, "main.go"@) =~= proj + e4);
    lemma_append_ne(proj, s, e1, 1);
    lemma_append_ne(proj, s, e2, 1);
    lemma_append_ne(proj, s, e3, 1);
    lemma_append_ne(proj, s, e4, 1);
}

proof fn lemma_librs_not_entry(p: ProjectV)
    ensures
        !is_entry_path(spec_join(spec_join(p.project_dir, "src"@), "lib.rs"@), p),
{
    reveal_strlit("/");
    reveal_strlit("src");
    reveal_strlit("lib.rs");
    reveal_strlit("main.c");
    reveal_strlit("main.cpp");
    reveal_strlit("main.rs");
    reveal_strlit("main.go");
    let proj = p.project_dir;
    let s = "/"@ + "src"@ + "/"@ + "lib.rs"@;
    assert(spec_join(spec_join(proj, "src"@), "lib.rs"@) =~= proj + s);
    let e1 = "/"@ + "src"@ + "/"@ + "main.c"@;
    let e2 = "/"@ + "src"@ + "/"@ + "main.cpp"@;
    let e3 = "/"@ + "src"@ + "/"@ + "main.rs"@;
    let e4 = "/"@ + "main.go"@;
    assert(spec_join(spec_join(proj, "src"@), "main.c"@) =~= proj + e1);
    assert(spec_join(spec_join(proj, "src"@), "main.cpp"@) =~= proj + e2);
    assert(spec_join(spec_join(proj, "src"@), "main.rs"@) =~= proj + e3);
    assert(spec_join(proj, "main.go"@) =~= proj + e4);
    lemma_append_ne(proj, s, e1, 5);
    lemma_append_ne(proj, s, e2, 1);
    lemma_append_ne(proj, s, e3, 1);
    lemma_append_ne(proj, s, e4, 1);
}

/// Law: a successful plan for a Library never writes an entry-point source
/// file; for an Executable in a language whose templates carry an entry-point
/// stub, it writes exactly one.
pub proof fn lemma_entry_point_files(p: ProjectV, file: Option<Seq<char>>)
    ensures
        spec_generate(p, file) matches Ok(plan) ==> (p.kind == ProjectKind::Library
            ==> forall|i: int|
            0 <= i < plan.len() ==> !is_entry_point_write(#[trigger] plan[i], p)),
        spec_generate(p, file) matches Ok(plan) ==> (p.kind == ProjectKind::Executable && p.lang
            != Lang::Java ==> exists|j: int|
            0 <= j < plan.len() && is_entry_point_write(#[trigger] plan[j], p) && (forall|i: int|
                0 <= i < plan.len() && i != j ==> !is_entry_point_write(#[trigger] plan[i], p))),
{
    match spec_generate(p, file) {
        Ok(plan) => {
            lemma_gitignore_not_entry(p);
            lemma_makefile_not_entry(p);
            lemma_manifest_not_entry(p);
            lemma_librs_not_entry(p);
            match p.lang {
                Lang::C => {
                    if p.kind == ProjectKind::Executable {
                        assert(plan.len() == 6);
                        assert(is_entry_point_write(plan[3], p));
                    } else {
                        assert(plan.len() == 5);
                    }
                },
                Lang::Cpp => {
                    if p.kind == ProjectKind::Executable {
                        assert(plan.len() == 6);
                        assert(is_entry_point_write(plan[3], p));
                    } else {
                        assert(plan.len() == 5);
                    }
                },
                Lang::Java => {
                    assert(plan.len() == 4);
                },
                Lang::Rust => {
                    if p.kind == ProjectKind::Executable {
                        assert(plan.len() == 5);
                        assert(is_entry_point_write(plan[1], p));
                    } else {
                        assert(plan.len() == 4);
                    }
                },
                Lang::Go => {
                    if p.kind == ProjectKind::Executable {
                        assert(plan.len() == 5);
                        assert(is_entry_point_write(plan[2], p));
                    } else {
                        assert(plan.len() == 4);
                    }
                },
            }
        },
        Err(_) => {},
    }
}

/// Law: every successful plan ends with the common tail — the ignore-file
/// copy, then the build-file render — whatever the language and kind.
pub proof fn lemma_common_artifacts(p: ProjectV, file: Option<Seq<char>>)
    ensures
        spec_generate(p, file) matches Ok(plan) ==> plan.len() >= 2 && plan[plan.len() - 2]
            == spec_gitignore_action(p) && plan[plan.len() - 1] == spec_makefile_action(p),
{
    match spec_generate(p, file) {
        Ok(plan) => {
            match p.lang {
                Lang::C => {},
                Lang::Cpp => {},
                Lang::Java => {},
                Lang::Rust => {},
                Lang::Go => {},
            }
        },
        Err(_) => {},
    }
}

/// A path that lies strictly inside the project root.
pub open spec fn under_root(q: Seq<char>, p: ProjectV) -> bool {
    &&& q.len() > p.project_dir.len()
    &&& q.subrange(0, p.project_dir.len() as int) == p.project_dir
    &&& q[p.project_dir.len() as int] == '/'
}

/// Every path an action writes is the project root or lies inside it.
pub open spec fn writes_under_root(a: ActionV, p: ProjectV) -> bool {
    match a {
        ActionV::MakeDir { path } => path == p.project_dir || under_root(path, p),
        ActionV::CopyFile { to, .. } => under_root(to, p),
        ActionV::RenderFile { to, .. } => under_root(to, p),
        ActionV::TouchFile { path } => under_root(path, p),
        ActionV::RunTool { stdout_to, .. } => match stdout_to {
            Some(q) => under_root(q, p),
            None => true,
        },
    }
}

proof fn lemma_join_under_root(p: ProjectV, b: Seq<char>)
    ensures
        under_root(spec_join(p.project_dir, b), p),
{
    reveal_strlit("/");
    let proj = p.project_dir;
    let q = spec_join(proj, b);
    assert(q.subrange(0, proj.len() as int) =~= proj);
    assert(q[proj.len() as int] == '/');
}

proof fn lemma_join2_under_root(p: ProjectV, b: Seq<char>, c: Seq<char>)
    ensures
        under_root(spec_join(spec_join(p.project_dir, b), c), p),
{
    reveal_strlit("/");
    let proj = p.project_dir;
    let q = spec_join(spec_join(proj, b), c);
    assert(q.subrange(0, proj.len() as int) =~= proj);
    assert(q[proj.len() as int] == '/');
}

/// Law: a plan writes nothing outside the project root. Together with the
/// pre-flight check that the root does not yet exist, a run leaves every
/// pre-existing file untouched.
pub proof fn lemma_generate_writes_under_root(p: ProjectV, file: Option<Seq<char>>)
    ensures
        spec_generate(p, file) matches Ok(plan) ==> forall|i: int|
            0 <= i < plan.len() ==> writes_under_root(#[trigger] plan[i], p),
{
    match spec_generate(p, file) {
        Ok(plan) => {
            lemma_join_under_root(p, "src"@);
            lemma_join_under_root(p, ".clang-format"@);
            lemma_join_under_root(p, "main.go"@);
            lemma_join_under_root(p, "manifest.txt"@);
            lemma_join_under_root(p, ".gitignore"@);
            lemma_join_under_root(p, "Makefile"@);
            lemma_join_under_root(p, "Makefile.lib"@);
            lemma_join_under_root(p, "Makefile.bin"@);
            lemma_join2_under_root(p, "src"@, "main.c"@);
            lemma_join2_under_root(p, "src"@, "main.cpp"@);
            lemma_join2_under_root(p, "src"@, "main.rs"@);
            lemma_join2_under_root(p, "src"@, "lib.rs"@);
            match p.lang {
                Lang::C => {},
                Lang::Cpp => {},
                Lang::Java => {},
                Lang::Rust => {},
                Lang::Go => {},
            }
        },
        Err(_) => {},
    }
}

/// Law: domain resolution precedence. An explicit domain wins, whatever the
/// default-domain file holds; with neither, resolution fails; and a language
/// that embeds no domain in its manifests generates without consulting one.
pub proof fn lemma_domain_precedence(p: ProjectV, f1: Option<Seq<char>>, f2: Option<Seq<char>>)
    ensures
        p.domain matches Some(d) ==> spec_domain(p, f1) == Ok::<Seq<char>, ErrorKind>(d),
        p.domain is Some ==> spec_domain(p, f1) == spec_domain(p, f2),
        p.domain is None && f1 is None ==> spec_domain(p, f1) == Err::<Seq<char>, ErrorKind>(
            ErrorKind::DomainNotFound,
        ),
        !requires_domain(p.lang) ==> spec_generate(p, f1) is Ok,
{
    match p.lang {
        Lang::C => {},
        Lang::Cpp => {},
        Lang::Java => {},
        Lang::Rust => {},
        Lang::Go => {},
    }
}

/// Law: for a language whose layout the run creates itself, the plan starts
/// by creating the project root, before any file is written.
pub proof fn lemma_root_created_first(p: ProjectV, file: Option<Seq<char>>)
    ensures
        (p.lang == Lang::C || p.lang == Lang::Cpp || p.lang == Lang::Go) ==> (spec_generate(
            p,
            file,
        ) matches Ok(plan) ==> plan.len() > 0 && plan[0] == (ActionV::MakeDir {
            path: p.project_dir,
        })),
{
    match p.lang {
        Lang::C => {},
        Lang::Cpp => {},
        Lang::Java => {},
        Lang::Rust => {},
        Lang::Go => {},
    }
}

} // verus!
