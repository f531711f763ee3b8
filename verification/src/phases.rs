//! The decisions and texts of the rage-quit phases: the buildup, the
//! explosion, the cleanup of bloat directories, the exit and the comeback.
use vstd::prelude::*;
use vstd::string::StringExecFns;
use crate::analyzer::{BloatDir, ManifestFiles, ProjectStats, ProjectType};
use crate::animation::{format_bytes, spec_format_bytes};
use crate::sound::SoundEffect;
use crate::text::{chars_of, push_repeat, push_str, repeat_char, string_views, trim, trim_chars};

verus! {

// ---------------------------------------------------------------------------
// Buildup and explosion
// ---------------------------------------------------------------------------

/// The row at which the buildup's text starts: a third of the way down.
pub fn buildup_row(height: u16) -> (r: u16)
    ensures
        r == height / 3,
{
    height / 3
}

/// The height of the fire: the terminal's height, at most 20 rows.
pub fn fire_height(height: u16) -> (h: u16)
    ensures
        h == if height < 20 {
            height
        } else {
            20
        },
{
    if height < 20 {
        height
    } else {
        20
    }
}

// ---------------------------------------------------------------------------
// Cleanup
// ---------------------------------------------------------------------------

/// How the cleanup phase proceeds.
#[derive(Debug, Clone, Copy, PartialEq, Eq, Structural)]
pub enum CleanupMode {
    /// No bloat directory was found: say so and stop.
    NothingToClean,
    /// Show what would be destroyed, delete nothing.
    DryRun,
    /// List the directories and ask before deleting them.
    AskThenNuke,
}

/// How the cleanup proceeds with `found` bloat directories and the `--nuke`
/// flag.
pub open spec fn spec_cleanup_mode(found: nat, nuke: bool) -> CleanupMode {
    if found == 0 {
        CleanupMode::NothingToClean
    } else if nuke {
        CleanupMode::AskThenNuke
    } else {
        CleanupMode::DryRun
    }
}

/// How the cleanup proceeds for the bloat found and the `--nuke` flag.
pub fn cleanup_mode(bloat_dirs: &Vec<BloatDir>, nuke: bool) -> (m: CleanupMode)
    ensures
        m == spec_cleanup_mode(bloat_dirs@.len(), nuke),
{
    if bloat_dirs.len() == 0 {
        CleanupMode::NothingToClean
    } else if nuke {
        CleanupMode::AskThenNuke
    } else {
        CleanupMode::DryRun
    }
}

/// Nothing is ever offered for deletion without `--nuke`: the cleanup then
/// only simulates.
pub proof fn law_no_deletion_without_nuke(found: nat)
    ensures
        spec_cleanup_mode(found, false) != CleanupMode::AskThenNuke,
        found > 0 ==> spec_cleanup_mode(found, false) == CleanupMode::DryRun,
{
}

/// Whether a typed answer confirms the deletion: `y` or `Y`, blanks around it
/// ignored.
pub fn is_confirmation(input: &str) -> (r: bool)
    ensures
        r == (trim(input@) == seq!['y'] || trim(input@) == seq!['Y']),
{
    let raw: Vec<char> = chars_of(input);
    let t: Vec<char> = trim_chars(&raw);
    let r: bool = t.len() == 1 && (t[0] == 'y' || t[0] == 'Y');
    proof {
        if t@.len() == 1 {
            if t@[0] == 'y' {
                assert(t@ =~= seq!['y']);
            }
            if t@[0] == 'Y' {
                assert(t@ =~= seq!['Y']);
            }
        }
    }
    r
}

/// Whether a key read in raw mode confirms the deletion.
pub fn is_confirmation_byte(b: u8) -> (r: bool)
    ensures
        r == (b == 121 || b == 89),
{
    b == 121 || b == 89
}

/// The line that lists a directory about to be nuked.
pub fn nuke_item_line(label: &str, size_bytes: u64) -> (s: String)
    ensures
        s@ == "    • "@ + label@ + " ("@ + spec_format_bytes(size_bytes as nat) + ")\n"@,
{
    let size: String = format_bytes(size_bytes);
    let mut s = String::new();
    push_str(&mut s, "    • ");
    push_str(&mut s, label);
    push_str(&mut s, " (");
    push_str(&mut s, size.as_str());
    push_str(&mut s, ")\n");
    s
}

/// The question asked before nuking.
pub fn nuke_prompt(total_bytes: u64) -> (s: String)
    ensures
        s@ == "  Total: "@ + spec_format_bytes(total_bytes as nat) + ". Proceed? [y/N] "@,
{
    let total: String = format_bytes(total_bytes);
    let mut s = String::new();
    push_str(&mut s, "  Total: ");
    push_str(&mut s, total.as_str());
    push_str(&mut s, ". Proceed? [y/N] ");
    s
}

/// One progress bar of the cleanup: what it shows, the sound after it, and
/// whether its directory is deleted.
#[derive(Debug)]
pub struct ProgressJob {
    pub label: String,
    pub verb: String,
    pub size_str: String,
    pub sound: SoundEffect,
    pub delete: bool,
}

/// The label of a progress bar: marked as a dry run unless deleting.
pub open spec fn progress_label(label: Seq<char>, actually_delete: bool) -> Seq<char> {
    if actually_delete {
        label
    } else {
        label + " [DRY RUN]"@
    }
}

/// The progress bar for one bloat directory.
pub open spec fn progress_job_view(dir: BloatDir, actually_delete: bool) -> (
    Seq<char>,
    Seq<char>,
    Seq<char>,
    SoundEffect,
) {
    (
        progress_label(dir.label@, actually_delete),
        dir.destruction_verb@,
        spec_format_bytes(dir.size_bytes as nat),
        if actually_delete {
            SoundEffect::Success
        } else {
            SoundEffect::Bell
        },
    )
}

/// The progress bars of the cleanup, one per bloat directory in order.
pub fn progress_jobs(stats: &ProjectStats, actually_delete: bool) -> (jobs: Vec<ProgressJob>)
    ensures
        jobs.len() == stats.bloat_dirs.len(),
        forall|i: int|
            0 <= i < jobs.len() ==> ((#[trigger] jobs@[i]).label@, jobs@[i].verb@, jobs@[i].size_str@, jobs@[i].sound)
                == progress_job_view(stats.bloat_dirs@[i], actually_delete),
        forall|i: int| 0 <= i < jobs.len() ==> (#[trigger] jobs@[i]).delete == actually_delete,
{
    let mut jobs: Vec<ProgressJob> = Vec::new();
    let mut i: usize = 0;
    while i < stats.bloat_dirs.len()
        invariant
            i <= stats.bloat_dirs.len(),
            jobs.len() == i,
            forall|k: int|
                0 <= k < i ==> ((#[trigger] jobs@[k]).label@, jobs@[k].verb@, jobs@[k].size_str@, jobs@[k].sound)
                    == progress_job_view(stats.bloat_dirs@[k], actually_delete),
            forall|k: int| 0 <= k < i ==> (#[trigger] jobs@[k]).delete == actually_delete,
        decreases stats.bloat_dirs.len() - i,
    {
        let dir = &stats.bloat_dirs[i];
        let mut label = String::from_str(dir.label.as_str());
        if !actually_delete {
            push_str(&mut label, " [DRY RUN]");
        }
        let job = ProgressJob {
            label,
            verb: String::from_str(dir.destruction_verb.as_str()),
            size_str: format_bytes(dir.size_bytes),
            sound: if actually_delete {
                SoundEffect::Success
            } else {
                SoundEffect::Bell
            },
            delete: actually_delete,
        };
        jobs.push(job);
        i = i + 1;
    }
    jobs
}

/// Whether the cleanup deletes, with `found` bloat directories, the
/// `--nuke` flag, and the answer to the prompt (`confirmed`, which only
/// counts where the prompt was shown).
pub open spec fn spec_cleanup_deletes(found: nat, nuke: bool, confirmed: bool) -> bool {
    spec_cleanup_mode(found, nuke) == CleanupMode::AskThenNuke && confirmed
}

/// The plan of the cleanup: one progress bar per bloat directory, in order,
/// each saying whether its directory is deleted. They are deleted only with
/// `--nuke` and a confirming answer; otherwise every bar is a dry run.
pub fn cleanup_plan(stats: &ProjectStats, nuke: bool, confirmed: bool) -> (jobs: Vec<ProgressJob>)
    ensures
        jobs.len() == stats.bloat_dirs.len(),
        forall|i: int|
            0 <= i < jobs.len() ==> ((#[trigger] jobs@[i]).label@, jobs@[i].verb@, jobs@[i].size_str@, jobs@[i].sound)
                == progress_job_view(
                stats.bloat_dirs@[i],
                spec_cleanup_deletes(stats.bloat_dirs@.len(), nuke, confirmed),
            ),
        forall|i: int|
            0 <= i < jobs.len() ==> (#[trigger] jobs@[i]).delete == spec_cleanup_deletes(
                stats.bloat_dirs@.len(),
                nuke,
                confirmed,
            ),
{
    let mode: CleanupMode = cleanup_mode(&stats.bloat_dirs, nuke);
    let deletes: bool = match mode {
        CleanupMode::AskThenNuke => confirmed,
        _ => false,
    };
    progress_jobs(stats, deletes)
}

/// A directory is deleted only when bloat was found, `--nuke` was given and
/// the answer to the prompt confirmed it; any of the three missing, nothing
/// is deleted.
pub proof fn law_deletion_needs_nuke_and_confirmation(found: nat, nuke: bool, confirmed: bool)
    ensures
        spec_cleanup_deletes(found, nuke, confirmed) <==> (found > 0 && nuke && confirmed),
{
}

/// The closing line of the cleanup.
pub fn cleanup_summary(total_bytes: u64, nuke: bool) -> (s: String)
    ensures
        s@ == if nuke {
            "  💥 Reclaimed "@ + spec_format_bytes(total_bytes as nat) + " of disk space. Freedom.\n"@
        } else {
            "  💭 Would have freed "@ + spec_format_bytes(total_bytes as nat)
                + ". Use --nuke to make it real.\n"@
        },
{
    let total: String = format_bytes(total_bytes);
    let mut s = String::new();
    if nuke {
        push_str(&mut s, "  💥 Reclaimed ");
        push_str(&mut s, total.as_str());
        push_str(&mut s, " of disk space. Freedom.\n");
    } else {
        push_str(&mut s, "  💭 Would have freed ");
        push_str(&mut s, total.as_str());
        push_str(&mut s, ". Use --nuke to make it real.\n");
    }
    s
}

// ---------------------------------------------------------------------------
// Exit
// ---------------------------------------------------------------------------

/// The left margin that centers a text of `len` bytes at the exit, or 4
/// columns where the terminal is too narrow.
pub open spec fn spec_exit_padding(width: nat, len: nat) -> nat {
    if width > len + 4 {
        ((width - len) / 2) as nat
    } else {
        4
    }
}

/// The number of lines of the mic drop.
pub const MIC_ART_LINES: usize = 4;

/// The `i`-th line of the mic drop.
pub open spec fn mic_art(i: int) -> Seq<char> {
    if i == 0 {
        "     🎤     "@
    } else if i == 1 {
        "      \\     "@
    } else if i == 2 {
        "       \\    "@
    } else {
        "        💥  "@
    }
}

/// The `i`-th line of the mic drop.
pub fn mic_art_at(i: usize) -> (s: &'static str)
    requires
        i < MIC_ART_LINES,
    ensures
        s@ == mic_art(i as int),
{
    if i == 0 {
        "     🎤     "
    } else if i == 1 {
        "      \\     "
    } else if i == 2 {
        "       \\    "
    } else {
        "        💥  "
    }
}

/// A line of the exit, centered by its byte length in `width` columns.
pub fn exit_line(text: &str, width: u16) -> (s: String)
    ensures
        s@ == repeat_char(' ', spec_exit_padding(width as nat, text.len() as nat)) + text@,
{
    let len: usize = text.len();
    let pad: usize = if width as usize > 4 && len < width as usize - 4 {
        (width as usize - len) / 2
    } else {
        4
    };
    let mut s = String::new();
    push_repeat(&mut s, ' ', pad);
    push_str(&mut s, text);
    s
}

/// The farewell.
pub fn farewell_text() -> (s: &'static str)
    ensures
        s@ == "rage-quit complete. Touch grass. 🌱"@,
{
    "rage-quit complete. Touch grass. 🌱"
}

// ---------------------------------------------------------------------------
// Comeback
// ---------------------------------------------------------------------------

/// The project type that the comeback reinstalls for: the first match in the
/// order Node, Rust, Python (`requirements.txt` only), Go.
pub open spec fn spec_detect_type(m: ManifestFiles) -> ProjectType {
    if m.package_json {
        ProjectType::Node
    } else if m.cargo_toml {
        ProjectType::Rust
    } else if m.requirements_txt {
        ProjectType::Python
    } else if m.go_mod {
        ProjectType::Go
    } else {
        ProjectType::Unknown
    }
}

/// The comeback reinstalls for the project type that the analyzer detects,
/// except where `pyproject.toml` or `setup.py` is what marks a Python project.
pub proof fn law_comeback_agrees_with_analyzer(m: ManifestFiles)
    ensures
        !m.pyproject_toml && !m.setup_py ==> spec_detect_type(m)
            == crate::analyzer::spec_detect_project_type(m),
        spec_detect_type(m) != crate::analyzer::spec_detect_project_type(m) ==> (
        crate::analyzer::spec_detect_project_type(m) == ProjectType::Python && !m.requirements_txt),
{
}

/// Infer the project type whose dependencies the comeback reinstalls.
pub fn detect_type(markers: &ManifestFiles) -> (t: ProjectType)
    ensures
        t == spec_detect_type(*markers),
{
    if markers.package_json {
        ProjectType::Node
    } else if markers.cargo_toml {
        ProjectType::Rust
    } else if markers.requirements_txt {
        ProjectType::Python
    } else if markers.go_mod {
        ProjectType::Go
    } else {
        ProjectType::Unknown
    }
}

/// A command that reinstalls a project's dependencies.
#[derive(Debug)]
pub struct ReinstallCommand {
    pub program: String,
    pub args: Vec<String>,
    pub label: String,
}

/// The reinstall command for a project type: (program, arguments, label).
pub open spec fn spec_reinstall(t: ProjectType) -> Option<(Seq<char>, Seq<Seq<char>>, Seq<char>)> {
    match t {
        ProjectType::Node => Some(("npm"@, seq!["install"@], "npm install"@)),
        ProjectType::Rust => Some(("cargo"@, seq!["build"@], "cargo build"@)),
        ProjectType::Python => Some(
            ("pip"@, seq!["install"@, "-r"@, "requirements.txt"@], "pip install"@),
        ),
        ProjectType::Go => Some(("go"@, seq!["mod"@, "download"@], "go mod download"@)),
        ProjectType::Unknown => None,
    }
}

/// The command that reinstalls the dependencies of a project of type `t`, or
/// `None` where the type is unknown.
pub fn reinstall_command(t: &ProjectType) -> (c: Option<ReinstallCommand>)
    ensures
        match c {
            Some(c) => spec_reinstall(*t) == Some((c.program@, string_views(c.args@), c.label@)),
            None => spec_reinstall(*t) is None,
        },
{
    let mut args: Vec<String> = Vec::new();
    let c = match t {
        ProjectType::Node => {
            args.push(String::from_str("install"));
            ReinstallCommand {
                program: String::from_str("npm"),
                args,
                label: String::from_str("npm install"),
            }
        },
        ProjectType::Rust => {
            args.push(String::from_str("build"));
            ReinstallCommand {
                program: String::from_str("cargo"),
                args,
                label: String::from_str("cargo build"),
            }
        },
        ProjectType::Python => {
            args.push(String::from_str("install"));
            args.push(String::from_str("-r"));
            args.push(String::from_str("requirements.txt"));
            ReinstallCommand {
                program: String::from_str("pip"),
                args,
                label: String::from_str("pip install"),
            }
        },
        ProjectType::Go => {
            args.push(String::from_str("mod"));
            args.push(String::from_str("download"));
            ReinstallCommand {
                program: String::from_str("go"),
                args,
                label: String::from_str("go mod download"),
            }
        },
        ProjectType::Unknown => {
            return None;
        },
    };
    let ghost expected = spec_reinstall(*t)->0;
    assert(string_views(c.args@) =~= expected.1);
    Some(c)
}

/// Words joined by single spaces.
pub open spec fn words_joined(words: Seq<Seq<char>>) -> Seq<char>
    decreases words.len(),
{
    if words.len() == 0 {
        Seq::empty()
    } else if words.len() == 1 {
        words[0]
    } else {
        words_joined(words.drop_last()) + seq![' '] + words.last()
    }
}

/// The reinstall command runs its program with at least one argument, and
/// its label is the command as typed: the program and its arguments joined
/// by spaces (for Python, the program and its first argument, which name
/// the pip subcommand).
pub proof fn law_reinstall_label_is_the_command(t: ProjectType)
    ensures
        spec_reinstall(t) matches Some((program, args, label)) ==> {
            &&& args.len() >= 1
            &&& if t == ProjectType::Python {
                label == words_joined(seq![program] + args.take(1))
            } else {
                label == words_joined(seq![program] + args)
            }
        },
{
    reveal_with_fuel(words_joined, 4);
    match t {
        ProjectType::Node => {
            reveal_strlit("npm");
            reveal_strlit("install");
            reveal_strlit("npm install");
            assert(seq!["npm"@] + seq!["install"@] =~= seq!["npm"@, "install"@]);
            assert(seq!["npm"@, "install"@].drop_last() =~= seq!["npm"@]);
            assert("npm install"@ =~= "npm"@ + seq![' '] + "install"@);
        },
        ProjectType::Rust => {
            reveal_strlit("cargo");
            reveal_strlit("build");
            reveal_strlit("cargo build");
            assert(seq!["cargo"@] + seq!["build"@] =~= seq!["cargo"@, "build"@]);
            assert(seq!["cargo"@, "build"@].drop_last() =~= seq!["cargo"@]);
            assert("cargo build"@ =~= "cargo"@ + seq![' '] + "build"@);
        },
        ProjectType::Python => {
            reveal_strlit("pip");
            reveal_strlit("install");
            reveal_strlit("pip install");
            let args = seq!["install"@, "-r"@, "requirements.txt"@];
            assert(seq!["pip"@] + args.take(1) =~= seq!["pip"@, "install"@]);
            assert(seq!["pip"@, "install"@].drop_last() =~= seq!["pip"@]);
            assert("pip install"@ =~= "pip"@ + seq![' '] + "install"@);
        },
        ProjectType::Go => {
            reveal_strlit("go");
            reveal_strlit("mod");
            reveal_strlit("download");
            reveal_strlit("go mod download");
            let w = seq!["go"@, "mod"@, "download"@];
            assert(seq!["go"@] + seq!["mod"@, "download"@] =~= w);
            assert(w.drop_last() =~= seq!["go"@, "mod"@]);
            assert(w.drop_last().drop_last() =~= seq!["go"@]);
            assert("go mod download"@ =~= "go"@ + seq![' '] + "mod"@ + seq![' '] + "download"@);
        },
        ProjectType::Unknown => {},
    }
}

/// The number of frames of the crawl back.
pub const CRAWL_FRAME_COUNT: usize = 4;

/// The `i`-th frame of the crawl back: a figure and what it says.
pub open spec fn crawl_frame(i: int) -> (Seq<char>, Seq<char>) {
    if i == 0 {
        ("  _o/     "@, "Wait... I didn't mean it..."@)
    } else if i == 1 {
        ("  _/o\\    "@, "The job market is rough..."@)
    } else if i == 2 {
        ("  /o\\_    "@, "I actually like this codebase..."@)
    } else {
        ("  _o/     "@, "Please take me back..."@)
    }
}

/// The printed `i`-th frame of the crawl back.
pub fn crawl_frame_line(i: usize) -> (s: String)
    requires
        i < CRAWL_FRAME_COUNT,
    ensures
        s@ == "\r  "@ + crawl_frame(i as int).0 + "  "@ + crawl_frame(i as int).1,
{
    let (art, msg) = if i == 0 {
        ("  _o/     ", "Wait... I didn't mean it...")
    } else if i == 1 {
        ("  _/o\\    ", "The job market is rough...")
    } else if i == 2 {
        ("  /o\\_    ", "I actually like this codebase...")
    } else {
        ("  _o/     ", "Please take me back...")
    };
    let mut s = String::new();
    push_str(&mut s, "\r  ");
    push_str(&mut s, art);
    push_str(&mut s, "  ");
    push_str(&mut s, msg);
    s
}

} // verus!
