//! Project analysis: what kind of project a directory holds, how many
//! dependencies its manifest declares, and the per-file statistics that the
//! resignation letter complains about.
use vstd::prelude::*;
use vstd::string::StringExecFns;
use crate::text::{
    chars_eq, chars_of, contains, contains_chars, has_char, lemma_lines_of_two,
    lemma_split_newlines_len, lemma_trim_untouched, lines, split_lines, split_newlines,
    starts_with, starts_with_chars, string_of, trim, trim_chars, trim_end, trim_start, views,
};

verus! {

/// The ecosystem a project belongs to.
#[derive(Debug, Clone, Copy, PartialEq, Eq, Structural)]
pub enum ProjectType {
    Node,
    Rust,
    Python,
    Go,
    Unknown,
}

/// The display name of a project type.
pub open spec fn project_type_label(t: ProjectType) -> Seq<char> {
    match t {
        ProjectType::Node => "Node.js"@,
        ProjectType::Rust => "Rust"@,
        ProjectType::Python => "Python"@,
        ProjectType::Go => "Go"@,
        ProjectType::Unknown => "Unknown"@,
    }
}

impl ProjectType {
    /// The name under which the project type is shown.
    pub fn label(&self) -> (s: String)
        ensures
            s@ == project_type_label(*self),
    {
        match self {
            ProjectType::Node => String::from_str("Node.js"),
            ProjectType::Rust => String::from_str("Rust"),
            ProjectType::Python => String::from_str("Python"),
            ProjectType::Go => String::from_str("Go"),
            ProjectType::Unknown => String::from_str("Unknown"),
        }
    }
}

/// Which manifest files are present at the top of a project directory.
#[derive(Debug, Clone, Copy, PartialEq, Eq, Structural)]
pub struct ManifestFiles {
    pub package_json: bool,
    pub cargo_toml: bool,
    pub requirements_txt: bool,
    pub pyproject_toml: bool,
    pub setup_py: bool,
    pub go_mod: bool,
}

/// The project type that the analyzer infers from the manifests present:
/// the first match in the order Node, Rust, Python, Go.
pub open spec fn spec_detect_project_type(m: ManifestFiles) -> ProjectType {
    if m.package_json {
        ProjectType::Node
    } else if m.cargo_toml {
        ProjectType::Rust
    } else if m.requirements_txt || m.pyproject_toml || m.setup_py {
        ProjectType::Python
    } else if m.go_mod {
        ProjectType::Go
    } else {
        ProjectType::Unknown
    }
}

/// Infer the project type from the manifests present.
pub fn detect_project_type(markers: &ManifestFiles) -> (t: ProjectType)
    ensures
        t == spec_detect_project_type(*markers),
{
    if markers.package_json {
        ProjectType::Node
    } else if markers.cargo_toml {
        ProjectType::Rust
    } else if markers.requirements_txt || markers.pyproject_toml || markers.setup_py {
        ProjectType::Python
    } else if markers.go_mod {
        ProjectType::Go
    } else {
        ProjectType::Unknown
    }
}

/// The manifest whose dependencies are counted for a project type.
pub open spec fn spec_manifest_file_name(t: ProjectType) -> Option<Seq<char>> {
    match t {
        ProjectType::Node => Some("package.json"@),
        ProjectType::Rust => Some("Cargo.toml"@),
        ProjectType::Python => Some("requirements.txt"@),
        ProjectType::Go => Some("go.mod"@),
        ProjectType::Unknown => None,
    }
}

/// The file name of the manifest whose dependencies are counted.
pub fn manifest_file_name(t: &ProjectType) -> (r: Option<&'static str>)
    ensures
        r matches Some(n) ==> spec_manifest_file_name(*t) == Some(n@),
        r is None <==> spec_manifest_file_name(*t) is None,
{
    match t {
        ProjectType::Node => Some("package.json"),
        ProjectType::Rust => Some("Cargo.toml"),
        ProjectType::Python => Some("requirements.txt"),
        ProjectType::Go => Some("go.mod"),
        ProjectType::Unknown => None,
    }
}

// ---------------------------------------------------------------------------
// Dependency counting
// ---------------------------------------------------------------------------

/// A line of `Cargo.toml` that opens a dependency table.
pub open spec fn cargo_dependency_header(t: Seq<char>) -> bool {
    t == "[dependencies]"@ || t == "[dev-dependencies]"@ || t == "[build-dependencies]"@
}

/// One line of the `Cargo.toml` scan: (dependencies counted, inside a
/// dependency table).
pub open spec fn cargo_step(st: (nat, bool), line: Seq<char>) -> (nat, bool) {
    let t = trim(line);
    if cargo_dependency_header(t) {
        (st.0, true)
    } else if t.len() > 0 && t[0] == '[' {
        (st.0, false)
    } else if st.1 && t.contains('=') && t.len() > 0 && t[0] != '#' {
        ((st.0 + 1) as nat, st.1)
    } else {
        st
    }
}

pub open spec fn cargo_scan(ls: Seq<Seq<char>>) -> (nat, bool)
    decreases ls.len(),
{
    if ls.len() == 0 {
        (0, false)
    } else {
        cargo_step(cargo_scan(ls.drop_last()), ls.last())
    }
}

/// Dependencies declared in a `Cargo.toml`: `key = value` lines (not
/// comments) inside `[dependencies]`, `[dev-dependencies]` and
/// `[build-dependencies]` tables.
pub open spec fn cargo_dependency_count(content: Seq<char>) -> nat {
    cargo_scan(lines(content)).0
}

/// The markers of the dependency sections in a `package.json`.
pub open spec fn node_section_header(t: Seq<char>) -> bool {
    contains(t, "\"dependencies\""@) || contains(t, "\"devDependencies\""@) || contains(
        t,
        "\"peerDependencies\""@,
    )
}

/// One line of the `package.json` scan: (dependencies counted, inside a
/// dependency section, brace depth). A section header starts the section at
/// depth 0, or at depth 1 where it also opens the section's brace (and
/// closes the section again where it holds the closing brace too).
pub open spec fn node_step(st: (nat, bool, int), line: Seq<char>) -> (nat, bool, int) {
    let t = trim(line);
    if node_section_header(t) {
        let d: int = if t.contains('{') {
            1
        } else {
            0
        };
        if t.contains('}') {
            (st.0, d - 1 > 0, d - 1)
        } else {
            (st.0, true, d)
        }
    } else if st.1 {
        let d = if t.contains('{') {
            st.2 + 1
        } else {
            st.2
        };
        if t.contains('}') {
            (st.0, d - 1 > 0, d - 1)
        } else if t.contains(':') && d > 0 {
            ((st.0 + 1) as nat, true, d)
        } else {
            (st.0, true, d)
        }
    } else {
        st
    }
}

pub open spec fn node_scan(ls: Seq<Seq<char>>) -> (nat, bool, int)
    decreases ls.len(),
{
    if ls.len() == 0 {
        (0, false, 0)
    } else {
        node_step(node_scan(ls.drop_last()), ls.last())
    }
}

/// Dependencies declared in a `package.json`: the `key: value` lines inside
/// the `dependencies`, `devDependencies` and `peerDependencies` sections.
pub open spec fn node_dependency_count(content: Seq<char>) -> nat {
    node_scan(lines(content)).0
}

/// A requirement line of `requirements.txt`: not blank and not a comment.
pub open spec fn python_requirement_line(l: Seq<char>) -> bool {
    trim(l).len() > 0 && !(l.len() > 0 && l[0] == '#')
}

/// A line of `go.mod` counted as a dependency.
pub open spec fn go_module_line(l: Seq<char>) -> bool {
    starts_with(trim(l), "require"@) || (l.contains('/') && l.contains(' '))
}

/// The number of requirement lines among `ls`.
pub open spec fn count_python_lines(ls: Seq<Seq<char>>) -> nat
    decreases ls.len(),
{
    if ls.len() == 0 {
        0
    } else {
        count_python_lines(ls.drop_last()) + if python_requirement_line(ls.last()) {
            1nat
        } else {
            0nat
        }
    }
}

/// The number of module lines among `ls`.
pub open spec fn count_go_lines(ls: Seq<Seq<char>>) -> nat
    decreases ls.len(),
{
    if ls.len() == 0 {
        0
    } else {
        count_go_lines(ls.drop_last()) + if go_module_line(ls.last()) {
            1nat
        } else {
            0nat
        }
    }
}

pub open spec fn python_dependency_count(content: Seq<char>) -> nat {
    count_python_lines(lines(content))
}

pub open spec fn go_dependency_count(content: Seq<char>) -> nat {
    count_go_lines(lines(content))
}

/// The dependency count of a project of type `t` whose manifest reads
/// `manifest` (`None` where it cannot be read).
pub open spec fn spec_count_dependencies(t: ProjectType, manifest: Option<Seq<char>>) -> nat {
    match manifest {
        None => 0,
        Some(c) => match t {
            ProjectType::Node => node_dependency_count(c),
            ProjectType::Rust => cargo_dependency_count(c),
            ProjectType::Python => python_dependency_count(c),
            ProjectType::Go => go_dependency_count(c),
            ProjectType::Unknown => 0,
        },
    }
}

/// A `key = value` line (not a comment, not a table header) that follows a
/// `[dependencies]`, `[dev-dependencies]` or `[build-dependencies]` header
/// line of a `Cargo.toml` adds one to the count, whatever came before.
pub proof fn law_cargo_entry_under_dependency_table_counts(
    before: Seq<Seq<char>>,
    header: Seq<char>,
    entry: Seq<char>,
)
    requires
        trim(header) == "[dependencies]"@ || trim(header) == "[dev-dependencies]"@ || trim(header)
            == "[build-dependencies]"@,
        trim(entry).len() > 0,
        trim(entry)[0] != '#',
        trim(entry)[0] != '[',
        trim(entry).contains('='),
    ensures
        cargo_scan(before + seq![header, entry]).0 == cargo_scan(before).0 + 1,
{
    reveal_strlit("[dependencies]");
    reveal_strlit("[dev-dependencies]");
    reveal_strlit("[build-dependencies]");
    assert(!cargo_dependency_header(trim(entry)));
    let all = before + seq![header, entry];
    assert(all.drop_last() =~= before + seq![header]);
    assert((before + seq![header]).drop_last() =~= before);
    assert(all.last() == entry);
    assert((before + seq![header]).last() == header);
    let mid = cargo_scan(before + seq![header]);
    assert(mid == cargo_step(cargo_scan(before), header));
    assert(mid == (cargo_scan(before).0, true));
    assert(cargo_scan(all) == cargo_step(mid, entry));
}

/// A comment line of a `Cargo.toml` never adds to the count, and neither
/// does any line under a table other than the three dependency tables.
pub proof fn law_cargo_comments_and_other_tables_do_not_count(
    before: Seq<Seq<char>>,
    header: Seq<char>,
    line: Seq<char>,
)
    requires
        trim(header).len() > 0,
        trim(header)[0] == '[',
        trim(header) != "[dependencies]"@,
        trim(header) != "[dev-dependencies]"@,
        trim(header) != "[build-dependencies]"@,
    ensures
        trim(line).len() > 0 && trim(line)[0] == '#' ==> cargo_scan(before.push(line)).0
            == cargo_scan(before).0,
        cargo_scan(before + seq![header, line]).0 == cargo_scan(before).0,
{
    assert(before.push(line).drop_last() =~= before);
    let all = before + seq![header, line];
    assert(all.drop_last() =~= before.push(header));
    assert(before.push(header).drop_last() =~= before);
    let mid = cargo_scan(before.push(header));
    assert(mid == cargo_step(cargo_scan(before), header));
    assert(mid == (cargo_scan(before).0, false));
    assert(cargo_scan(all) == cargo_step(mid, line));
}

/// The manifest of a Rust project that opens with a dependency table header
/// (`[dependencies]`, `[dev-dependencies]` or `[build-dependencies]`) and
/// then holds one `key = value` line declares exactly one dependency.
pub proof fn law_cargo_single_entry_table(header: Seq<char>, entry: Seq<char>)
    requires
        header == "[dependencies]"@ || header == "[dev-dependencies]"@ || header
            == "[build-dependencies]"@,
        !entry.contains('\n'),
        trim(entry).len() > 0,
        trim(entry)[0] != '#',
        trim(entry)[0] != '[',
        trim(entry).contains('='),
    ensures
        spec_count_dependencies(ProjectType::Rust, Some(header + seq!['\n'] + entry)) == 1,
{
    reveal_strlit("[dependencies]");
    reveal_strlit("[dev-dependencies]");
    reveal_strlit("[build-dependencies]");
    assert(!header.contains('\n')) by {
        if header.contains('\n') {
            let i = choose|i: int| 0 <= i < header.len() && header[i] == '\n';
        }
    }
    assert(entry.len() > 0) by {
        if entry.len() == 0 {
            assert(trim_start(entry) == entry);
            assert(trim_end(entry) == entry);
        }
    }
    lemma_lines_of_two(header, entry);
    lemma_trim_untouched(header);
    law_cargo_entry_under_dependency_table_counts(Seq::<Seq<char>>::empty(), header, entry);
    assert(Seq::<Seq<char>>::empty() + seq![header, entry] =~= seq![header, entry]);
}

pub proof fn lemma_scans_bounded(ls: Seq<Seq<char>>)
    ensures
        cargo_scan(ls).0 <= ls.len(),
        node_scan(ls).0 <= ls.len(),
        count_python_lines(ls) <= ls.len(),
        count_go_lines(ls) <= ls.len(),
    decreases ls.len(),
{
    if ls.len() > 0 {
        lemma_scans_bounded(ls.drop_last());
    }
}

/// A manifest never declares more dependencies than it has lines, nor more
/// than it has characters.
pub proof fn law_dependencies_bounded_by_lines(t: ProjectType, content: Seq<char>)
    ensures
        spec_count_dependencies(t, Some(content)) <= lines(content).len(),
        spec_count_dependencies(t, Some(content)) <= content.len(),
{
    lemma_scans_bounded(lines(content));
    lemma_lines_len(content);
}

/// Whether `v` spells out the string slice `lit`.
pub fn chars_are(v: &Vec<char>, lit: &str) -> (r: bool)
    ensures
        r == (v@ == lit@),
{
    let l: Vec<char> = chars_of(lit);
    chars_eq(v, &l)
}

/// Whether the string slice `lit` occurs in `v`.
pub fn chars_contain(v: &Vec<char>, lit: &str) -> (r: bool)
    ensures
        r == contains(v@, lit@),
{
    let l: Vec<char> = chars_of(lit);
    contains_chars(v, &l)
}

/// Count the dependencies of a `Cargo.toml`.
pub fn count_cargo_dependencies(content: &str) -> (n: usize)
    ensures
        n == cargo_dependency_count(content@),
{
    let chars: Vec<char> = chars_of(content);
    let ls: Vec<Vec<char>> = split_lines(&chars);
    let mut count: usize = 0;
    let mut in_deps: bool = false;
    let mut i: usize = 0;
    while i < ls.len()
        invariant
            i <= ls.len(),
            views(ls@) == lines(content@),
            count <= i,
            (count as nat, in_deps) == cargo_scan(views(ls@).take(i as int)),
        decreases ls.len() - i,
    {
        proof {
            assert(views(ls@).take(i + 1).drop_last() =~= views(ls@).take(i as int));
            assert(views(ls@).take(i + 1).last() == ls@[i as int]@);
        }
        let t: Vec<char> = trim_chars(&ls[i]);
        if chars_are(&t, "[dependencies]") || chars_are(&t, "[dev-dependencies]") || chars_are(
            &t,
            "[build-dependencies]",
        ) {
            in_deps = true;
        } else if t.len() > 0 && t[0] == '[' {
            in_deps = false;
        } else if in_deps && has_char(&t, '=') && t.len() > 0 && t[0] != '#' {
            count = count + 1;
        }
        i = i + 1;
    }
    assert(views(ls@).take(ls.len() as int) =~= views(ls@));
    count
}

/// Count the dependencies of a `package.json`.
pub fn count_node_dependencies(content: &str) -> (n: usize)
    ensures
        n == node_dependency_count(content@),
{
    let chars: Vec<char> = chars_of(content);
    let ls: Vec<Vec<char>> = split_lines(&chars);
    let mut count: usize = 0;
    let mut in_deps: bool = false;
    let mut depth: i128 = 0;
    let mut i: usize = 0;
    while i < ls.len()
        invariant
            i <= ls.len(),
            views(ls@) == lines(content@),
            count <= i,
            -(i as int) <= depth <= i,
            (count as nat, in_deps, depth as int) == node_scan(views(ls@).take(i as int)),
        decreases ls.len() - i,
    {
        proof {
            assert(views(ls@).take(i + 1).drop_last() =~= views(ls@).take(i as int));
            assert(views(ls@).take(i + 1).last() == ls@[i as int]@);
        }
        let t: Vec<char> = trim_chars(&ls[i]);
        if chars_contain(&t, "\"dependencies\"") || chars_contain(&t, "\"devDependencies\"")
            || chars_contain(&t, "\"peerDependencies\"") {
            in_deps = true;
            depth = if has_char(&t, '{') {
                1
            } else {
                0
            };
            if has_char(&t, '}') {
                depth = depth - 1;
                if depth <= 0 {
                    in_deps = false;
                }
            }
        } else if in_deps {
            if has_char(&t, '{') {
                depth = depth + 1;
            }
            if has_char(&t, '}') {
                depth = depth - 1;
                if depth <= 0 {
                    in_deps = false;
                }
            } else if has_char(&t, ':') && depth > 0 {
                count = count + 1;
            }
        }
        i = i + 1;
    }
    assert(views(ls@).take(ls.len() as int) =~= views(ls@));
    count
}

/// Whether a `requirements.txt` line names a requirement.
pub fn is_python_requirement_line(l: &Vec<char>) -> (r: bool)
    ensures
        r == python_requirement_line(l@),
{
    let t: Vec<char> = trim_chars(l);
    t.len() > 0 && !(l.len() > 0 && l[0] == '#')
}

/// Whether a `go.mod` line is counted as a dependency.
pub fn is_go_module_line(l: &Vec<char>) -> (r: bool)
    ensures
        r == go_module_line(l@),
{
    let t: Vec<char> = trim_chars(l);
    let req: Vec<char> = chars_of("require");
    starts_with_chars(&t, &req) || (has_char(l, '/') && has_char(l, ' '))
}

/// Count the requirements of a `requirements.txt`.
pub fn count_python_dependencies(content: &str) -> (n: usize)
    ensures
        n == python_dependency_count(content@),
{
    let chars: Vec<char> = chars_of(content);
    let ls: Vec<Vec<char>> = split_lines(&chars);
    let mut count: usize = 0;
    let mut i: usize = 0;
    while i < ls.len()
        invariant
            i <= ls.len(),
            views(ls@) == lines(content@),
            count <= i,
            count == count_python_lines(views(ls@).take(i as int)),
        decreases ls.len() - i,
    {
        proof {
            assert(views(ls@).take(i + 1).drop_last() =~= views(ls@).take(i as int));
            assert(views(ls@).take(i + 1).last() == ls@[i as int]@);
        }
        if is_python_requirement_line(&ls[i]) {
            count = count + 1;
        }
        i = i + 1;
    }
    assert(views(ls@).take(ls.len() as int) =~= views(ls@));
    count
}

/// Count the dependency lines of a `go.mod`.
pub fn count_go_dependencies(content: &str) -> (n: usize)
    ensures
        n == go_dependency_count(content@),
{
    let chars: Vec<char> = chars_of(content);
    let ls: Vec<Vec<char>> = split_lines(&chars);
    let mut count: usize = 0;
    let mut i: usize = 0;
    while i < ls.len()
        invariant
            i <= ls.len(),
            views(ls@) == lines(content@),
            count <= i,
            count == count_go_lines(views(ls@).take(i as int)),
        decreases ls.len() - i,
    {
        proof {
            assert(views(ls@).take(i + 1).drop_last() =~= views(ls@).take(i as int));
            assert(views(ls@).take(i + 1).last() == ls@[i as int]@);
        }
        if is_go_module_line(&ls[i]) {
            count = count + 1;
        }
        i = i + 1;
    }
    assert(views(ls@).take(ls.len() as int) =~= views(ls@));
    count
}

/// The number of dependencies of a project of type `project_type`, given the
/// text of its manifest (see `manifest_file_name`), or `None` where the
/// manifest could not be read.
pub fn count_dependencies(project_type: &ProjectType, manifest: Option<&str>) -> (n: usize)
    ensures
        n == spec_count_dependencies(
            *project_type,
            match manifest {
                Some(c) => Some(c@),
                None => None,
            },
        ),
{
    match manifest {
        None => 0,
        Some(c) => match project_type {
            ProjectType::Node => count_node_dependencies(c),
            ProjectType::Rust => count_cargo_dependencies(c),
            ProjectType::Python => count_python_dependencies(c),
            ProjectType::Go => count_go_dependencies(c),
            ProjectType::Unknown => 0,
        },
    }
}


// ---------------------------------------------------------------------------
// Walking the source tree
// ---------------------------------------------------------------------------

/// The directory names that the walk over a project does not enter.
pub open spec fn skipped_entry_name(n: Seq<char>) -> bool {
    ||| n == "node_modules"@
    ||| n == "target"@
    ||| n == "dist"@
    ||| n == ".next"@
    ||| n == ".git"@
    ||| n == "__pycache__"@
    ||| n == ".turbo"@
    ||| n == "build"@
    ||| n == ".cache"@
    ||| n == "vendor"@
}

/// Whether the walk over a project skips an entry of this name (and
/// everything below it).
pub fn is_skipped_entry(name: &str) -> (r: bool)
    ensures
        r == skipped_entry_name(name@),
{
    let n: Vec<char> = chars_of(name);
    chars_are(&n, "node_modules") || chars_are(&n, "target") || chars_are(&n, "dist")
        || chars_are(&n, ".next") || chars_are(&n, ".git") || chars_are(&n, "__pycache__")
        || chars_are(&n, ".turbo") || chars_are(&n, "build") || chars_are(&n, ".cache")
        || chars_are(&n, "vendor")
}

/// The file extensions whose lines and TODOs are counted.
pub open spec fn source_extension(e: Seq<char>) -> bool {
    ||| e == "js"@
    ||| e == "ts"@
    ||| e == "tsx"@
    ||| e == "jsx"@
    ||| e == "rs"@
    ||| e == "py"@
    ||| e == "go"@
    ||| e == "java"@
    ||| e == "rb"@
    ||| e == "css"@
    ||| e == "html"@
    ||| e == "vue"@
    ||| e == "svelte"@
    ||| e == "c"@
    ||| e == "cpp"@
    ||| e == "h"@
}

/// The source extensions are exactly js, ts, tsx, jsx, rs, py, go, java,
/// rb, css, html, vue, svelte, c, cpp and h: a readable file with one of
/// these extensions, and no other, has its lines and TODOs counted.
pub proof fn law_source_extensions(e: Seq<char>)
    ensures
        source_extension(e) <==> set![
            "js"@,
            "ts"@,
            "tsx"@,
            "jsx"@,
            "rs"@,
            "py"@,
            "go"@,
            "java"@,
            "rb"@,
            "css"@,
            "html"@,
            "vue"@,
            "svelte"@,
            "c"@,
            "cpp"@,
            "h"@,
        ].contains(e),
{
}

/// Whether files with this extension are read as source files.
pub fn is_source_extension(extension: &str) -> (r: bool)
    ensures
        r == source_extension(extension@),
{
    let e: Vec<char> = chars_of(extension);
    chars_are(&e, "js") || chars_are(&e, "ts") || chars_are(&e, "tsx") || chars_are(&e, "jsx")
        || chars_are(&e, "rs") || chars_are(&e, "py") || chars_are(&e, "go") || chars_are(
        &e,
        "java",
    ) || chars_are(&e, "rb") || chars_are(&e, "css") || chars_are(&e, "html") || chars_are(
        &e,
        "vue",
    ) || chars_are(&e, "svelte") || chars_are(&e, "c") || chars_are(&e, "cpp") || chars_are(
        &e,
        "h",
    )
}

/// Name for what `str::to_lowercase` returns on a string.
pub uninterp spec fn lowercase(s: Seq<char>) -> Seq<char>;

/// Name for what `str::to_uppercase` returns on a string.
pub uninterp spec fn uppercase(s: Seq<char>) -> Seq<char>;

/// Calls `str::to_lowercase`; its result is named `lowercase` of the argument.
#[verifier::external_body]
fn to_lowercase(s: &str) -> (r: String)
    ensures
        r@ == lowercase(s@),
{
    s.to_lowercase()
}

/// Calls `str::to_uppercase`; its result is named `uppercase` of the argument.
#[verifier::external_body]
fn to_uppercase(s: &str) -> (r: String)
    ensures
        r@ == uppercase(s@),
{
    s.to_uppercase()
}

/// A lower-cased file name that marks a "utils" file.
pub open spec fn utils_name(lower: Seq<char>) -> bool {
    contains(lower, "util"@)
}

/// An upper-cased line that holds a TODO-like marker.
pub open spec fn todo_marker(upper: Seq<char>) -> bool {
    contains(upper, "TODO"@) || contains(upper, "FIXME"@) || contains(upper, "HACK"@) || contains(
        upper,
        "XXX"@,
    )
}

/// Whether a lower-cased file name counts as a "utils" file.
pub fn is_utils_name(lower_name: &str) -> (r: bool)
    ensures
        r == utils_name(lower_name@),
{
    let n: Vec<char> = chars_of(lower_name);
    chars_contain(&n, "util")
}

/// Whether an upper-cased line holds `TODO`, `FIXME`, `HACK` or `XXX`.
pub fn has_todo_marker(upper_line: &str) -> (r: bool)
    ensures
        r == todo_marker(upper_line@),
{
    let l: Vec<char> = chars_of(upper_line);
    chars_contain(&l, "TODO") || chars_contain(&l, "FIXME") || chars_contain(&l, "HACK")
        || chars_contain(&l, "XXX")
}

/// The number of lines whose upper-cased form holds a TODO-like marker.
pub open spec fn count_todo_lines(ls: Seq<Seq<char>>) -> nat
    decreases ls.len(),
{
    if ls.len() == 0 {
        0
    } else {
        count_todo_lines(ls.drop_last()) + if todo_marker(uppercase(ls.last())) {
            1nat
        } else {
            0nat
        }
    }
}

/// The largest source file so far, as (name, line count).
pub open spec fn largest_view(o: Option<(String, usize)>) -> Option<(Seq<char>, nat)> {
    match o {
        Some((n, c)) => Some((n@, c as nat)),
        None => None,
    }
}

/// The largest file after seeing a file `name` of `n` lines: a file replaces
/// the current one only when strictly longer, and the first file must have
/// more than 50 lines.
pub open spec fn next_largest(cur: Option<(Seq<char>, nat)>, name: Seq<char>, n: nat) -> Option<
    (Seq<char>, nat),
> {
    match cur {
        Some((_, m)) => if n > m {
            Some((name, n))
        } else {
            cur
        },
        None => if n > 50 {
            Some((name, n))
        } else {
            None
        },
    }
}

/// The largest file after seeing `files` in order.
pub open spec fn largest_after(files: Seq<(Seq<char>, nat)>) -> Option<(Seq<char>, nat)>
    decreases files.len(),
{
    if files.len() == 0 {
        None
    } else {
        next_largest(largest_after(files.drop_last()), files.last().0, files.last().1)
    }
}

/// The largest file is the first of the longest source files, and it is
/// reported only when it has more than 50 lines.
pub proof fn law_largest_file_is_first_longest(files: Seq<(Seq<char>, nat)>)
    ensures
        match largest_after(files) {
            None => forall|i: int| 0 <= i < files.len() ==> #[trigger] files[i].1 <= 50,
            Some((name, m)) => {
                &&& m > 50
                &&& exists|i: int|
                    0 <= i < files.len() && #[trigger] files[i] == (name, m) && forall|j: int|
                        0 <= j < i ==> #[trigger] files[j].1 < m
                &&& forall|j: int| 0 <= j < files.len() ==> #[trigger] files[j].1 <= m
            },
        },
    decreases files.len(),
{
    if files.len() > 0 {
        let prev = files.drop_last();
        law_largest_file_is_first_longest(prev);
        let k = files.len() - 1;
        assert forall|j: int| 0 <= j < k implies files[j] == prev[j] by {}
        match largest_after(prev) {
            None => {
                if files.last().1 > 50 {
                    assert(files[k] == (files.last().0, files.last().1));
                    assert forall|j: int| 0 <= j < k implies #[trigger] files[j].1 < files.last().1 by {
                        assert(files[j] == prev[j]);
                    }
                } else {
                    assert forall|i: int| 0 <= i < files.len() implies #[trigger] files[i].1 <= 50 by {
                        if i < k {
                            assert(files[i] == prev[i]);
                        }
                    }
                }
            },
            Some((name, m)) => {
                if files.last().1 > m {
                    assert(files[k] == (files.last().0, files.last().1));
                    assert forall|j: int| 0 <= j < k implies #[trigger] files[j].1 < files.last().1 by {
                        assert(files[j] == prev[j]);
                    }
                } else {
                    let i = choose|i: int|
                        0 <= i < prev.len() && #[trigger] prev[i] == (name, m) && forall|j: int|
                            0 <= j < i ==> #[trigger] prev[j].1 < m;
                    assert(files[i] == (name, m));
                    assert forall|j: int| 0 <= j < i implies #[trigger] files[j].1 < m by {
                        assert(files[j] == prev[j]);
                    }
                }
                let top = largest_after(files)->0;
                assert forall|j: int| 0 <= j < files.len() implies #[trigger] files[j].1
                    <= top.1 by {
                    if j < k {
                        assert(files[j] == prev[j]);
                    }
                }
            },
        }
    }
}

/// A text has no more lines than characters.
pub proof fn lemma_lines_len(s: Seq<char>)
    ensures
        lines(s).len() <= s.len(),
{
    lemma_split_newlines_len(s);
}

/// Running totals over the files of a project.
#[derive(Debug)]
pub struct FileTally {
    pub total_files: usize,
    pub largest_file: Option<(String, usize)>,
    pub utils_file_count: usize,
    pub todo_count: usize,
}

impl FileTally {
    /// A tally that has seen no file.
    pub fn new() -> (t: FileTally)
        ensures
            t.total_files == 0,
            t.largest_file is None,
            t.utils_file_count == 0,
            t.todo_count == 0,
    {
        FileTally { total_files: 0, largest_file: None, utils_file_count: 0, todo_count: 0 }
    }

    /// Count a file of the project. `content` is the text of the file where
    /// its extension marks a source file and it could be read, else `None`.
    pub fn record_file(&mut self, file_name: &str, extension: &str, content: Option<&str>)
        requires
            old(self).total_files < usize::MAX,
            old(self).utils_file_count < usize::MAX,
            content matches Some(c) ==> old(self).todo_count + lines(c@).len() <= usize::MAX,
        ensures
            final(self).total_files == old(self).total_files + 1,
            final(self).utils_file_count == old(self).utils_file_count + if utils_name(
                lowercase(file_name@),
            ) {
                1int
            } else {
                0int
            },
            match content {
                Some(c) if source_extension(extension@) => {
                    &&& final(self).todo_count == old(self).todo_count + count_todo_lines(
                        lines(c@),
                    )
                    &&& largest_view(final(self).largest_file) == next_largest(
                        largest_view(old(self).largest_file),
                        lowercase(file_name@),
                        lines(c@).len(),
                    )
                },
                _ => {
                    &&& final(self).todo_count == old(self).todo_count
                    &&& final(self).largest_file == old(self).largest_file
                },
            },
    {
        self.total_files = self.total_files + 1;
        let lower: String = to_lowercase(file_name);
        if is_utils_name(lower.as_str()) {
            self.utils_file_count = self.utils_file_count + 1;
        }
        if is_source_extension(extension) {
            if let Some(c) = content {
                let chars: Vec<char> = chars_of(c);
                let ls: Vec<Vec<char>> = split_lines(&chars);
                let line_count: usize = ls.len();
                let replace: bool = match &self.largest_file {
                    Some((_, current_max)) => line_count > *current_max,
                    None => line_count > 50,
                };
                if replace {
                    self.largest_file = Some((lower, line_count));
                }
                let mut i: usize = 0;
                proof {
                    lemma_lines_len(c@);
                }
                let ghost files_before = self.total_files;
                let ghost utils_before = self.utils_file_count;
                let ghost largest_before = self.largest_file;
                while i < ls.len()
                    invariant
                        i <= ls.len(),
                        self.total_files == files_before,
                        self.utils_file_count == utils_before,
                        self.largest_file == largest_before,
                        views(ls@) == lines(c@),
                        old(self).todo_count + ls.len() <= usize::MAX,
                        self.todo_count == old(self).todo_count + count_todo_lines(
                            views(ls@).take(i as int),
                        ),
                        count_todo_lines(views(ls@).take(i as int)) <= i,
                    decreases ls.len() - i,
                {
                    proof {
                        assert(views(ls@).take(i + 1).drop_last() =~= views(ls@).take(i as int));
                        assert(views(ls@).take(i + 1).last() == ls@[i as int]@);
                    }
                    let line: String = string_of(&ls[i]);
                    let upper: String = to_uppercase(line.as_str());
                    if has_todo_marker(upper.as_str()) {
                        self.todo_count = self.todo_count + 1;
                    }
                    i = i + 1;
                }
                assert(views(ls@).take(ls.len() as int) =~= views(ls@));
            }
        }
    }
}

// ---------------------------------------------------------------------------
// Git history
// ---------------------------------------------------------------------------

/// An ASCII decimal digit.
pub open spec fn is_digit(c: char) -> bool {
    '0' <= c && c <= '9'
}

pub open spec fn all_digits(d: Seq<char>) -> bool {
    forall|i: int| 0 <= i < d.len() ==> is_digit(#[trigger] d[i])
}

/// The number that a run of decimal digits spells.
pub open spec fn digits_value(d: Seq<char>) -> nat
    decreases d.len(),
{
    if d.len() == 0 {
        0
    } else {
        digits_value(d.drop_last()) * 10 + (d.last() as int - 48) as nat
    }
}

/// The digits after an optional leading `+`.
pub open spec fn unsigned_digits(s: Seq<char>) -> Seq<char> {
    if s.len() > 0 && s[0] == '+' {
        s.drop_first()
    } else {
        s
    }
}

/// `usize::from_str`: an optional `+`, then at least one decimal digit, and a
/// value that fits.
pub open spec fn parse_usize(s: Seq<char>) -> Option<nat> {
    let d = unsigned_digits(s);
    if d.len() > 0 && all_digits(d) && digits_value(d) <= usize::MAX {
        Some(digits_value(d))
    } else {
        None
    }
}

/// `i64::from_str`: an optional sign, then at least one decimal digit, and a
/// value that fits.
pub open spec fn parse_i64(s: Seq<char>) -> Option<int> {
    if s.len() > 0 && s[0] == '-' {
        let d = s.drop_first();
        if d.len() > 0 && all_digits(d) && digits_value(d) <= 0x8000_0000_0000_0000 {
            Some(-(digits_value(d) as int))
        } else {
            None
        }
    } else {
        let d = unsigned_digits(s);
        if d.len() > 0 && all_digits(d) && digits_value(d) <= i64::MAX {
            Some(digits_value(d) as int)
        } else {
            None
        }
    }
}

pub proof fn lemma_digits_value_prefix(d: Seq<char>, k: int)
    requires
        0 <= k <= d.len(),
        all_digits(d),
    ensures
        digits_value(d.take(k)) <= digits_value(d),
    decreases d.len() - k,
{
    if k < d.len() {
        assert(d.take(k + 1).drop_last() =~= d.take(k));
        assert(is_digit(d[k]));
        lemma_digits_value_prefix(d, k + 1);
    } else {
        assert(d.take(k) =~= d);
    }
}

/// Read the digits of `v` from `start` on, as far as their value stays
/// within `limit`.
fn parse_digits(v: &Vec<char>, start: usize, limit: u128) -> (r: Option<u128>)
    requires
        start <= v.len(),
        limit <= 0x1_0000_0000_0000_0000,
    ensures
        ({
            let d = v@.skip(start as int);
            &&& r is Some <==> (d.len() > 0 && all_digits(d) && digits_value(d) <= limit)
            &&& r matches Some(x) ==> x == digits_value(d)
        }),
{
    let ghost d = v@.skip(start as int);
    if start == v.len() {
        return None;
    }
    let mut acc: u128 = 0;
    let mut i: usize = start;
    while i < v.len()
        invariant
            start < v.len(),
            start <= i <= v.len(),
            d == v@.skip(start as int),
            limit <= 0x1_0000_0000_0000_0000,
            acc <= limit,
            all_digits(d.take(i - start)),
            acc == digits_value(d.take(i - start)),
        decreases v.len() - i,
    {
        let c: char = v[i];
        proof {
            assert(d.take(i - start + 1).drop_last() =~= d.take(i - start));
            assert(d.take(i - start + 1).last() == c);
        }
        if !('0' <= c && c <= '9') {
            assert(!is_digit(d[i - start]));
            return None;
        }
        let x: u32 = (c as u32) - 48;
        acc = acc * 10 + (x as u128);
        assert(all_digits(d.take(i - start + 1)));
        if acc > limit {
            proof {
                if all_digits(d) {
                    lemma_digits_value_prefix(d, i - start + 1);
                }
            }
            return None;
        }
        i = i + 1;
    }
    assert(d.take(i - start) =~= d);
    Some(acc)
}

/// The number of commits that `git rev-list --count HEAD` printed.
pub fn parse_commit_count(output: &str) -> (r: Option<usize>)
    ensures
        r matches Some(n) ==> parse_usize(trim(output@)) == Some(n as nat),
        r is None <==> parse_usize(trim(output@)) is None,
{
    let raw: Vec<char> = chars_of(output);
    let t: Vec<char> = trim_chars(&raw);
    let start: usize = if t.len() > 0 && t[0] == '+' {
        1
    } else {
        0
    };
    assert(t@.skip(start as int) =~= unsigned_digits(t@));
    match parse_digits(&t, start, usize::MAX as u128) {
        Some(x) => Some(x as usize),
        None => None,
    }
}

/// The commit timestamp that `git log --format=%ct` printed.
pub fn parse_commit_timestamp(output: &str) -> (r: Option<i64>)
    ensures
        r matches Some(n) ==> parse_i64(trim(output@)) == Some(n as int),
        r is None <==> parse_i64(trim(output@)) is None,
{
    let raw: Vec<char> = chars_of(output);
    let t: Vec<char> = trim_chars(&raw);
    if t.len() > 0 && t[0] == '-' {
        assert(t@.skip(1) =~= t@.drop_first());
        match parse_digits(&t, 1, 0x8000_0000_0000_0000u128) {
            Some(x) => {
                if x == 0x8000_0000_0000_0000u128 {
                    Some(i64::MIN)
                } else {
                    let y: i64 = x as i64;
                    Some(-y)
                }
            },
            None => None,
        }
    } else {
        let start: usize = if t.len() > 0 && t[0] == '+' {
            1
        } else {
            0
        };
        assert(t@.skip(start as int) =~= unsigned_digits(t@));
        match parse_digits(&t, start, i64::MAX as u128) {
            Some(x) => Some(x as i64),
            None => None,
        }
    }
}

/// Rust's integer division, which rounds toward zero.
pub open spec fn div_toward_zero(a: int, b: int) -> int {
    if a >= 0 {
        a / b
    } else {
        -((-a) / b)
    }
}

/// Whole days from timestamp `ts` to `now`, cast to `u64` as the analyzer
/// does (a commit dated in the future wraps around).
pub open spec fn age_days(now: int, ts: int) -> u64 {
    div_toward_zero(now - ts, 86400) as u64
}

/// The age in days of the commit whose timestamp git printed, measured at
/// `now` (seconds since the epoch).
pub fn git_age_days_at(output: &str, now: i64) -> (r: Option<u64>)
    requires
        parse_i64(trim(output@)) matches Some(ts) ==> i64::MIN <= now - ts <= i64::MAX,
    ensures
        r matches Some(d) ==> parse_i64(trim(output@)) matches Some(ts) && d == age_days(
            now as int,
            ts,
        ),
        r is None <==> parse_i64(trim(output@)) is None,
{
    match parse_commit_timestamp(output) {
        Some(ts) => {
            let diff: i64 = now - ts;
            let days: i64 = if diff >= 0 {
                diff / 86400
            } else if diff == i64::MIN {
                -106751991167300
            } else {
                -((-diff) / 86400)
            };
            Some(days as u64)
        },
        None => None,
    }
}

/// The distance from `ts` to `now` fits in an `i64`.
pub open spec fn distance_fits_i64(now: int, ts: int) -> bool {
    i64::MIN <= now - ts <= i64::MAX
}

/// The age in days of the commit whose timestamp git printed, measured at
/// `now` (seconds since the epoch, as the program read the clock): `None`
/// where git printed no timestamp, or where the distance from the timestamp
/// to `now` does not fit in an `i64`.
pub fn git_age_days(output: &str, now: i64) -> (r: Option<u64>)
    ensures
        parse_i64(trim(output@)) is None ==> r is None,
        parse_i64(trim(output@)) matches Some(ts) ==> r == if distance_fits_i64(now as int, ts) {
            Some(age_days(now as int, ts))
        } else {
            None
        },
{
    match parse_commit_timestamp(output) {
        Some(ts) => {
            if (ts < 0 && now > i64::MAX + ts) || (ts > 0 && now < i64::MIN + ts) {
                None
            } else {
                git_age_days_at(output, now)
            }
        },
        None => None,
    }
}


// ---------------------------------------------------------------------------
// Bloat directories and the collected statistics
// ---------------------------------------------------------------------------

/// `std::path::PathBuf`, carried through opaquely.
#[verifier::external_type_specification]
#[verifier::external_body]
pub struct ExPathBuf(std::path::PathBuf);

/// A build or cache directory at the top of the project.
#[derive(Debug)]
pub struct BloatDir {
    pub path: std::path::PathBuf,
    pub label: String,
    pub size_bytes: u64,
    pub destruction_verb: String,
}

/// The number of bloat directory names that are looked for.
pub const BLOAT_CANDIDATE_COUNT: usize = 11;

/// The `i`-th bloat directory name looked for, with the verb that its
/// destruction is announced with.
pub open spec fn bloat_candidate(i: int) -> (Seq<char>, Seq<char>) {
    if i == 0 {
        ("node_modules"@, "Incinerating"@)
    } else if i == 1 {
        (".next"@, "Obliterating"@)
    } else if i == 2 {
        ("dist"@, "Vaporizing"@)
    } else if i == 3 {
        ("build"@, "Demolishing"@)
    } else if i == 4 {
        (".turbo"@, "Annihilating"@)
    } else if i == 5 {
        ("target"@, "Detonating"@)
    } else if i == 6 {
        ("__pycache__"@, "Exterminating"@)
    } else if i == 7 {
        (".cache"@, "Purging"@)
    } else if i == 8 {
        (".parcel-cache"@, "Liquidating"@)
    } else if i == 9 {
        ("coverage"@, "Shredding"@)
    } else {
        (".nyc_output"@, "Disintegrating"@)
    }
}

/// The `i`-th bloat directory name and its destruction verb.
pub fn bloat_candidate_at(i: usize) -> (r: (&'static str, &'static str))
    requires
        i < BLOAT_CANDIDATE_COUNT,
    ensures
        r.0@ == bloat_candidate(i as int).0,
        r.1@ == bloat_candidate(i as int).1,
{
    if i == 0 {
        ("node_modules", "Incinerating")
    } else if i == 1 {
        (".next", "Obliterating")
    } else if i == 2 {
        ("dist", "Vaporizing")
    } else if i == 3 {
        ("build", "Demolishing")
    } else if i == 4 {
        (".turbo", "Annihilating")
    } else if i == 5 {
        ("target", "Detonating")
    } else if i == 6 {
        ("__pycache__", "Exterminating")
    } else if i == 7 {
        (".cache", "Purging")
    } else if i == 8 {
        (".parcel-cache", "Liquidating")
    } else if i == 9 {
        ("coverage", "Shredding")
    } else {
        (".nyc_output", "Disintegrating")
    }
}

/// The names of the bloat directories looked for are exactly node_modules,
/// .next, dist, build, .turbo, target, __pycache__, .cache, .parcel-cache,
/// coverage and .nyc_output.
pub proof fn law_bloat_candidate_names()
    ensures
        Set::new(
            |n: Seq<char>|
                exists|i: int| 0 <= i < BLOAT_CANDIDATE_COUNT && #[trigger] bloat_candidate(i).0 == n,
        ) == set![
            "node_modules"@,
            ".next"@,
            "dist"@,
            "build"@,
            ".turbo"@,
            "target"@,
            "__pycache__"@,
            ".cache"@,
            ".parcel-cache"@,
            "coverage"@,
            ".nyc_output"@,
        ],
{
    let names = Set::new(
        |n: Seq<char>|
            exists|i: int| 0 <= i < BLOAT_CANDIDATE_COUNT && #[trigger] bloat_candidate(i).0 == n,
    );
    let listed = set![
        "node_modules"@,
        ".next"@,
        "dist"@,
        "build"@,
        ".turbo"@,
        "target"@,
        "__pycache__"@,
        ".cache"@,
        ".parcel-cache"@,
        "coverage"@,
        ".nyc_output"@,
    ];
    assert forall|n: Seq<char>| names.contains(n) implies listed.contains(n) by {
        let i = choose|i: int|
            0 <= i < BLOAT_CANDIDATE_COUNT && #[trigger] bloat_candidate(i).0 == n;
        assert(0 <= i < 11);
    }
    assert forall|n: Seq<char>| listed.contains(n) implies names.contains(n) by {
        if n == "node_modules"@ {
            assert(bloat_candidate(0).0 == n);
        } else if n == ".next"@ {
            assert(bloat_candidate(1).0 == n);
        } else if n == "dist"@ {
            assert(bloat_candidate(2).0 == n);
        } else if n == "build"@ {
            assert(bloat_candidate(3).0 == n);
        } else if n == ".turbo"@ {
            assert(bloat_candidate(4).0 == n);
        } else if n == "target"@ {
            assert(bloat_candidate(5).0 == n);
        } else if n == "__pycache__"@ {
            assert(bloat_candidate(6).0 == n);
        } else if n == ".cache"@ {
            assert(bloat_candidate(7).0 == n);
        } else if n == ".parcel-cache"@ {
            assert(bloat_candidate(8).0 == n);
        } else if n == "coverage"@ {
            assert(bloat_candidate(9).0 == n);
        } else {
            assert(bloat_candidate(10).0 == n);
        }
    }
    assert(names =~= listed);
}

/// Each bloat directory name is announced with its own verb: node_modules
/// is incinerated, .next obliterated, dist vaporized, build demolished,
/// .turbo annihilated, target detonated, __pycache__ exterminated, .cache
/// purged, .parcel-cache liquidated, coverage shredded and .nyc_output
/// disintegrated.
pub proof fn law_bloat_candidate_verbs()
    ensures
        Set::new(
            |p: (Seq<char>, Seq<char>)|
                exists|i: int| 0 <= i < BLOAT_CANDIDATE_COUNT && #[trigger] bloat_candidate(i) == p,
        ) == set![
            ("node_modules"@, "Incinerating"@),
            (".next"@, "Obliterating"@),
            ("dist"@, "Vaporizing"@),
            ("build"@, "Demolishing"@),
            (".turbo"@, "Annihilating"@),
            ("target"@, "Detonating"@),
            ("__pycache__"@, "Exterminating"@),
            (".cache"@, "Purging"@),
            (".parcel-cache"@, "Liquidating"@),
            ("coverage"@, "Shredding"@),
            (".nyc_output"@, "Disintegrating"@),
        ],
{
    let found = Set::new(
        |p: (Seq<char>, Seq<char>)|
            exists|i: int| 0 <= i < BLOAT_CANDIDATE_COUNT && #[trigger] bloat_candidate(i) == p,
    );
    let listed = set![
        ("node_modules"@, "Incinerating"@),
        (".next"@, "Obliterating"@),
        ("dist"@, "Vaporizing"@),
        ("build"@, "Demolishing"@),
        (".turbo"@, "Annihilating"@),
        ("target"@, "Detonating"@),
        ("__pycache__"@, "Exterminating"@),
        (".cache"@, "Purging"@),
        (".parcel-cache"@, "Liquidating"@),
        ("coverage"@, "Shredding"@),
        (".nyc_output"@, "Disintegrating"@),
    ];
    assert forall|p: (Seq<char>, Seq<char>)| found.contains(p) implies listed.contains(p) by {
        let i = choose|i: int| 0 <= i < BLOAT_CANDIDATE_COUNT && #[trigger] bloat_candidate(i) == p;
        assert(0 <= i < 11);
    }
    assert forall|p: (Seq<char>, Seq<char>)| listed.contains(p) implies found.contains(p) by {
        if p == ("node_modules"@, "Incinerating"@) {
            assert(bloat_candidate(0) == p);
        } else if p == (".next"@, "Obliterating"@) {
            assert(bloat_candidate(1) == p);
        } else if p == ("dist"@, "Vaporizing"@) {
            assert(bloat_candidate(2) == p);
        } else if p == ("build"@, "Demolishing"@) {
            assert(bloat_candidate(3) == p);
        } else if p == (".turbo"@, "Annihilating"@) {
            assert(bloat_candidate(4) == p);
        } else if p == ("target"@, "Detonating"@) {
            assert(bloat_candidate(5) == p);
        } else if p == ("__pycache__"@, "Exterminating"@) {
            assert(bloat_candidate(6) == p);
        } else if p == (".cache"@, "Purging"@) {
            assert(bloat_candidate(7) == p);
        } else if p == (".parcel-cache"@, "Liquidating"@) {
            assert(bloat_candidate(8) == p);
        } else if p == ("coverage"@, "Shredding"@) {
            assert(bloat_candidate(9) == p);
        } else {
            assert(bloat_candidate(10) == p);
        }
    }
    assert(found =~= listed);
}

/// What a bloat directory records: path, label, size and verb.
pub open spec fn bloat_dir_view(b: BloatDir) -> (std::path::PathBuf, Seq<char>, u64, Seq<char>) {
    (b.path, b.label@, b.size_bytes, b.destruction_verb@)
}

pub open spec fn bloat_dirs_view(v: Seq<BloatDir>) -> Seq<(std::path::PathBuf, Seq<char>, u64, Seq<char>)> {
    v.map_values(|b: BloatDir| bloat_dir_view(b))
}

/// The bloat directories found, in the order of the candidates: entry `i` of
/// `found` is the path and size of the `i`-th candidate where it is a
/// directory.
pub open spec fn detected_bloat(found: Seq<Option<(std::path::PathBuf, u64)>>) -> Seq<
    (std::path::PathBuf, Seq<char>, u64, Seq<char>),
>
    decreases found.len(),
{
    if found.len() == 0 {
        seq![]
    } else {
        let rest = detected_bloat(found.drop_last());
        let i = found.len() - 1;
        match found.last() {
            Some((p, size)) => rest.push((p, bloat_candidate(i).0, size, bloat_candidate(i).1)),
            None => rest,
        }
    }
}

/// Build the list of bloat directories from what was found for each
/// candidate (see `bloat_candidate_at`).
pub fn detect_bloat_dirs(found: Vec<Option<(std::path::PathBuf, u64)>>) -> (dirs: Vec<BloatDir>)
    requires
        found.len() == BLOAT_CANDIDATE_COUNT,
    ensures
        bloat_dirs_view(dirs@) == detected_bloat(found@),
{
    let ghost all = found@;
    let mut rest = found;
    let mut dirs: Vec<BloatDir> = Vec::new();
    let mut i: usize = 0;
    while rest.len() > 0
        invariant
            all.len() == BLOAT_CANDIDATE_COUNT,
            i + rest.len() == all.len(),
            rest@ == all.skip(i as int),
            bloat_dirs_view(dirs@) == detected_bloat(all.take(i as int)),
        decreases rest.len(),
    {
        let item = rest.remove(0);
        proof {
            assert(all.take(i + 1).drop_last() =~= all.take(i as int));
            assert(all.take(i + 1).last() == item);
        }
        let ghost old_dirs = dirs@;
        match item {
            Some((path, size)) => {
                let (name, verb) = bloat_candidate_at(i);
                let b = BloatDir {
                    path,
                    label: String::from_str(name),
                    size_bytes: size,
                    destruction_verb: String::from_str(verb),
                };
                dirs.push(b);
                assert(bloat_dirs_view(dirs@) =~= bloat_dirs_view(old_dirs).push(bloat_dir_view(b)));
            },
            None => {},
        }
        assert(rest@ =~= all.skip(i + 1));
        i = i + 1;
    }
    assert(all.take(i as int) =~= all);
    dirs
}

/// The total size of some bloat directories.
pub open spec fn bloat_total(v: Seq<BloatDir>) -> nat
    decreases v.len(),
{
    if v.len() == 0 {
        0
    } else {
        bloat_total(v.drop_last()) + v.last().size_bytes as nat
    }
}

pub proof fn lemma_bloat_total_prefix(v: Seq<BloatDir>, k: int)
    requires
        0 <= k <= v.len(),
    ensures
        bloat_total(v.take(k)) <= bloat_total(v),
    decreases v.len() - k,
{
    if k < v.len() {
        assert(v.take(k + 1).drop_last() =~= v.take(k));
        lemma_bloat_total_prefix(v, k + 1);
    } else {
        assert(v.take(k) =~= v);
    }
}

/// The total size of the bloat directories.
pub fn total_bloat_bytes(dirs: &Vec<BloatDir>) -> (n: u64)
    requires
        bloat_total(dirs@) <= u64::MAX,
    ensures
        n == bloat_total(dirs@),
{
    let mut total: u64 = 0;
    let mut i: usize = 0;
    while i < dirs.len()
        invariant
            i <= dirs.len(),
            bloat_total(dirs@) <= u64::MAX,
            total == bloat_total(dirs@.take(i as int)),
        decreases dirs.len() - i,
    {
        proof {
            assert(dirs@.take(i + 1).drop_last() =~= dirs@.take(i as int));
            lemma_bloat_total_prefix(dirs@, i + 1);
        }
        total = total + dirs[i].size_bytes;
        i = i + 1;
    }
    assert(dirs@.take(i as int) =~= dirs@);
    total
}

/// The project name used where the directory has none.
pub open spec fn spec_project_name(name: Option<Seq<char>>) -> Seq<char> {
    match name {
        Some(n) => n,
        None => "unnamed-project"@,
    }
}

/// The project's name: the directory's name, or `unnamed-project`.
pub fn project_name(dir_name: Option<&str>) -> (s: String)
    ensures
        s@ == spec_project_name(
            match dir_name {
                Some(n) => Some(n@),
                None => None,
            },
        ),
{
    match dir_name {
        Some(n) => String::from_str(n),
        None => String::from_str("unnamed-project"),
    }
}

/// Everything the analyzer learned about a project.
#[derive(Debug)]
pub struct ProjectStats {
    pub project_name: String,
    pub project_type: ProjectType,
    pub total_files: usize,
    pub git_commits: Option<usize>,
    pub git_age_days: Option<u64>,
    pub dependency_count: usize,
    pub largest_file: Option<(String, usize)>,
    pub utils_file_count: usize,
    pub todo_count: usize,
    pub bloat_dirs: Vec<BloatDir>,
    pub total_bloat_bytes: u64,
}

} // verus!
