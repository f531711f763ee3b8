//! The resignation letter: its lines, generated from the project statistics,
//! and the box they are printed in.
use vstd::prelude::*;
use vstd::string::StringExecFns;
use crate::analyzer::{largest_view, project_type_label, ProjectStats};
use crate::animation::{format_bytes, spec_format_bytes};
use crate::entropy::{choose_one, is_permutation, permuted, shuffle};
use crate::text::{
    chars_of, decimal, push_decimal, push_repeat, push_str, repeat_char, split_newlines,
    split_on_newlines, string_of, string_views, views,
};

verus! {

/// The width of the letter's box.
pub const LETTER_BOX_WIDTH: usize = 58;

// ---------------------------------------------------------------------------
// Fitting lines into the box
// ---------------------------------------------------------------------------

/// A line as shown in a box of `box_width` columns: kept when it fits the
/// `box_width - 4` columns of content, else cut and ended with `...`.
pub open spec fn spec_fit_letter_line(line: Seq<char>, box_width: nat) -> Seq<char> {
    let content = if box_width >= 4 {
        (box_width - 4) as nat
    } else {
        0nat
    };
    if line.len() <= content {
        line
    } else {
        let keep = if content >= 3 {
            (content - 3) as nat
        } else {
            0nat
        };
        line.take(keep as int) + "..."@
    }
}

/// Fit a letter line into a box of `box_width` columns, keeping whole
/// characters.
pub fn fit_letter_line(line: &str, box_width: usize) -> (s: String)
    ensures
        s@ == spec_fit_letter_line(line@, box_width as nat),
{
    let content: usize = if box_width >= 4 {
        box_width - 4
    } else {
        0
    };
    let chars: Vec<char> = chars_of(line);
    if chars.len() <= content {
        return String::from_str(line);
    }
    let keep: usize = if content >= 3 {
        content - 3
    } else {
        0
    };
    let mut s = String::new();
    let mut i: usize = 0;
    while i < keep
        invariant
            keep < chars.len(),
            i <= keep,
            s@ == chars@.take(i as int),
        decreases keep - i,
    {
        crate::text::push_char(&mut s, chars[i]);
        assert(s@ =~= chars@.take(i + 1));
        i = i + 1;
    }
    push_str(&mut s, "...");
    s
}

/// The spaces after a line of the box, so that the right border lines up.
pub fn letter_right_padding(line: &str, box_width: usize) -> (n: usize)
    ensures
        n == if 2 + line@.len() <= box_width {
            box_width - 2 - line@.len()
        } else {
            0
        },
{
    let count: usize = line.unicode_len();
    if count < box_width && 2 <= box_width - count {
        box_width - count - 2
    } else {
        0
    }
}

/// A fitted line never exceeds the content width of the box, and a cut line
/// ends with `...`.
pub proof fn law_fitted_lines_fit(line: Seq<char>, box_width: nat)
    requires
        box_width >= 7,
    ensures
        spec_fit_letter_line(line, box_width).len() <= box_width - 4,
        line.len() > box_width - 4 ==> spec_fit_letter_line(line, box_width).skip(
            box_width - 7,
        ) == "..."@,
{
    reveal_strlit("...");
    if line.len() > box_width - 4 {
        let r = spec_fit_letter_line(line, box_width);
        assert(r.skip(box_width - 7) =~= "..."@);
    }
}

/// The left margin of the letter's box on a terminal of `width` columns.
pub fn letter_left_padding(width: u16) -> (n: usize)
    ensures
        n == if width > LETTER_BOX_WIDTH + 4 {
            ((width - LETTER_BOX_WIDTH) / 2) as int
        } else {
            2
        },
{
    if width as usize > LETTER_BOX_WIDTH + 4 {
        (width as usize - LETTER_BOX_WIDTH) / 2
    } else {
        2
    }
}

/// The top border of the box.
pub fn letter_top_border() -> (s: String)
    ensures
        s@ == "┌"@ + repeat_char('─', LETTER_BOX_WIDTH as nat) + "┐"@,
{
    let mut s = String::new();
    push_str(&mut s, "┌");
    push_repeat(&mut s, '─', LETTER_BOX_WIDTH);
    push_str(&mut s, "┐");
    s
}

/// The bottom border of the box.
pub fn letter_bottom_border() -> (s: String)
    ensures
        s@ == "└"@ + repeat_char('─', LETTER_BOX_WIDTH as nat) + "┘"@,
{
    let mut s = String::new();
    push_str(&mut s, "└");
    push_repeat(&mut s, '─', LETTER_BOX_WIDTH);
    push_str(&mut s, "┘");
    s
}

/// The title row of the box: the title centered between the borders.
pub fn letter_title_line() -> (s: String)
    ensures
        s@ == "│"@ + repeat_char(' ', 18) + "LETTER OF RESIGNATION"@ + repeat_char(' ', 19) + "│"@,
{
    let title = "LETTER OF RESIGNATION";
    proof {
        reveal_strlit("LETTER OF RESIGNATION");
    }
    let n: usize = title.unicode_len();
    let title_pad: usize = (LETTER_BOX_WIDTH - n) / 2;
    let mut s = String::new();
    push_str(&mut s, "│");
    push_repeat(&mut s, ' ', title_pad);
    push_str(&mut s, title);
    push_repeat(&mut s, ' ', LETTER_BOX_WIDTH - title_pad - n);
    push_str(&mut s, "│");
    s
}

/// An empty row of the box.
pub fn letter_blank_line() -> (s: String)
    ensures
        s@ == "│"@ + repeat_char(' ', LETTER_BOX_WIDTH as nat) + "│"@,
{
    let mut s = String::new();
    push_str(&mut s, "│");
    push_repeat(&mut s, ' ', LETTER_BOX_WIDTH);
    push_str(&mut s, "│");
    s
}

/// The row of the box that shows a letter line.
pub fn letter_body_line(line: &str) -> (s: String)
    ensures
        ({
            let shown = spec_fit_letter_line(line@, LETTER_BOX_WIDTH as nat);
            s@ == "│ "@ + shown + repeat_char(
                ' ',
                if 2 + shown.len() <= LETTER_BOX_WIDTH {
                    (LETTER_BOX_WIDTH - 2 - shown.len()) as nat
                } else {
                    0
                },
            ) + " │"@
        }),
{
    let shown: String = fit_letter_line(line, LETTER_BOX_WIDTH);
    let pad: usize = letter_right_padding(shown.as_str(), LETTER_BOX_WIDTH);
    let mut s = String::new();
    push_str(&mut s, "│ ");
    push_str(&mut s, shown.as_str());
    push_repeat(&mut s, ' ', pad);
    push_str(&mut s, " │");
    s
}

// ---------------------------------------------------------------------------
// Ages
// ---------------------------------------------------------------------------

/// A number of days, said loosely.
pub open spec fn spec_humanize_days(days: nat) -> Seq<char> {
    if days > 730 {
        decimal(days / 365) + " years"@
    } else if days > 365 {
        "over a year"@
    } else if days > 60 {
        decimal(days / 30) + " months"@
    } else if days > 1 {
        decimal(days) + " days"@
    } else {
        "less than a day"@
    }
}

/// Say a number of days loosely: `3 years`, `over a year`, `4 months`,
/// `12 days`, `less than a day`.
pub fn humanize_days(days: u64) -> (s: String)
    ensures
        s@ == spec_humanize_days(days as nat),
{
    let mut s = String::new();
    if days > 730 {
        push_decimal(&mut s, days / 365);
        push_str(&mut s, " years");
    } else if days > 365 {
        push_str(&mut s, "over a year");
    } else if days > 60 {
        push_decimal(&mut s, days / 30);
        push_str(&mut s, " months");
    } else if days > 1 {
        push_decimal(&mut s, days);
        push_str(&mut s, " days");
    } else {
        push_str(&mut s, "less than a day");
    }
    s
}


// ---------------------------------------------------------------------------
// Grievances
// ---------------------------------------------------------------------------

pub open spec fn utils_grievance(n: nat) -> Seq<Seq<char>> {
    if n > 3 {
        seq![decimal(n) + " files named 'utils'. Peak creativity."@]
    } else if n > 0 {
        seq![decimal(n) + " file(s) named 'utils' — original."@]
    } else {
        seq![]
    }
}

pub open spec fn dependency_grievance(n: nat) -> Seq<Seq<char>> {
    if n > 150 {
        seq![decimal(n) + " dependencies. This isn't a project,"@, "  it's a support group."@]
    } else if n > 50 {
        seq!["A dependency list longer than my will"@, "  to live ("@ + decimal(n) + " packages)."@]
    } else if n > 0 {
        seq![decimal(n) + " dependencies — each one a tiny regret."@]
    } else {
        seq![]
    }
}

pub open spec fn files_grievance(stats: ProjectStats) -> Seq<Seq<char>> {
    if stats.total_files > 0 {
        seq![
            decimal(stats.total_files as nat) + " "@ + project_type_label(stats.project_type)
                + " files, somehow still not enough"@,
            "  abstraction."@,
        ]
    } else {
        seq![]
    }
}

pub open spec fn largest_file_grievance(largest: Option<(Seq<char>, nat)>) -> Seq<Seq<char>> {
    match largest {
        Some((name, lines)) => if lines > 500 {
            seq![
                "A "@ + decimal(lines) + "-line file called '"@ + name + "'. It has"@,
                "  its own weather system."@,
            ]
        } else if lines > 200 {
            seq![
                "'"@ + name + "' at "@ + decimal(lines) + " lines — nobody dares scroll"@,
                "  to the bottom."@,
            ]
        } else {
            seq![]
        },
        None => seq![],
    }
}

pub open spec fn todo_grievance(n: nat) -> Seq<Seq<char>> {
    if n > 20 {
        seq![decimal(n) + " TODOs that will never be done."@, "  They're not TODOs, they're prayers."@]
    } else if n > 0 {
        seq![decimal(n) + " optimistic TODOs from a younger,"@, "  more innocent developer."@]
    } else {
        seq![]
    }
}

pub open spec fn bloat_grievance(bytes: nat) -> Seq<Seq<char>> {
    if bytes > 524_288_000 {
        seq!["Bloat weighing "@ + spec_format_bytes(bytes) + ". Heavier than my"@, "  existential dread."@]
    } else {
        seq![]
    }
}

pub open spec fn commits_grievance(commits: Option<usize>) -> Seq<Seq<char>> {
    match commits {
        Some(c) => if c > 500 {
            seq![decimal(c as nat) + " commits. Stockholm syndrome"@, "  at its finest."@]
        } else {
            seq![]
        },
        None => seq![],
    }
}

/// The grievances that the statistics give rise to, in order.
pub open spec fn stat_grievances(stats: ProjectStats) -> Seq<Seq<char>> {
    utils_grievance(stats.utils_file_count as nat) + dependency_grievance(
        stats.dependency_count as nat,
    ) + files_grievance(stats) + largest_file_grievance(largest_view(stats.largest_file))
        + todo_grievance(stats.todo_count as nat) + bloat_grievance(stats.total_bloat_bytes as nat)
        + commits_grievance(stats.git_commits)
}

/// Top up the grievances to three from the end of `fallbacks`, each fallback
/// split at its newlines.
pub open spec fn fill_grievances(g: Seq<Seq<char>>, fallbacks: Seq<Seq<char>>) -> Seq<Seq<char>>
    decreases fallbacks.len(),
{
    if g.len() >= 3 || fallbacks.len() == 0 {
        g
    } else {
        fill_grievances(g + split_newlines(fallbacks.last()), fallbacks.drop_last())
    }
}

/// The grievances of the letter: those of the statistics, topped up from the
/// fallbacks, and at most ten lines.
pub open spec fn spec_grievances(stats: ProjectStats, fallbacks: Seq<Seq<char>>) -> Seq<Seq<char>> {
    let all = fill_grievances(stat_grievances(stats), fallbacks);
    if all.len() > 10 {
        all.take(10)
    } else {
        all
    }
}

/// The fallback grievances, before they are shuffled.
pub open spec fn default_fallbacks() -> Seq<Seq<char>> {
    seq![
        "That one function everyone's afraid\n  to touch."@,
        "Code that works. Nobody knows why."@,
        "A README that says 'TODO: write\n  README'."@,
        "The config file that is actually\n  load-bearing."@,
    ]
}

pub proof fn lemma_fill_grievances_len(g: Seq<Seq<char>>, fallbacks: Seq<Seq<char>>)
    requires
        g.len() + fallbacks.len() >= 3,
    ensures
        fill_grievances(g, fallbacks).len() >= 3,
    decreases fallbacks.len(),
{
    if !(g.len() >= 3 || fallbacks.len() == 0) {
        crate::text::lemma_split_newlines_len(fallbacks.last());
        lemma_fill_grievances_len(g + split_newlines(fallbacks.last()), fallbacks.drop_last());
    }
}

/// With at least three fallbacks the letter always lists at least three
/// grievance lines, and never more than ten.
pub proof fn law_grievances_between_three_and_ten(stats: ProjectStats, fallbacks: Seq<Seq<char>>)
    requires
        fallbacks.len() >= 3,
    ensures
        3 <= spec_grievances(stats, fallbacks).len() <= 10,
{
    lemma_fill_grievances_len(stat_grievances(stats), fallbacks);
}

/// The grievances topped up from the fallbacks begin with the grievances
/// they started from.
pub proof fn lemma_fill_grievances_prefix(g: Seq<Seq<char>>, fallbacks: Seq<Seq<char>>)
    ensures
        fill_grievances(g, fallbacks).len() >= g.len(),
        forall|i: int| 0 <= i < g.len() ==> #[trigger] fill_grievances(g, fallbacks)[i] == g[i],
    decreases fallbacks.len(),
{
    if !(g.len() >= 3 || fallbacks.len() == 0) {
        let g2 = g + split_newlines(fallbacks.last());
        lemma_fill_grievances_prefix(g2, fallbacks.drop_last());
        assert forall|i: int| 0 <= i < g.len() implies #[trigger] fill_grievances(g, fallbacks)[i]
            == g[i] by {
            assert(fill_grievances(g2, fallbacks.drop_last())[i] == g2[i]);
        }
    }
}

/// Whenever the project has TODOs, the letter's grievances mention how many,
/// on two consecutive lines: as prayers above 20, else as optimism.
pub proof fn law_todos_are_always_a_grievance(stats: ProjectStats, fallbacks: Seq<Seq<char>>)
    requires
        stats.todo_count > 0,
    ensures
        exists|i: int|
            0 <= i && i + 1 < spec_grievances(stats, fallbacks).len() && if stats.todo_count > 20 {
                &&& #[trigger] spec_grievances(stats, fallbacks)[i] == decimal(
                    stats.todo_count as nat,
                ) + " TODOs that will never be done."@
                &&& spec_grievances(stats, fallbacks)[i + 1] == "  They're not TODOs, they're prayers."@
            } else {
                &&& spec_grievances(stats, fallbacks)[i] == decimal(stats.todo_count as nat)
                    + " optimistic TODOs from a younger,"@
                &&& spec_grievances(stats, fallbacks)[i + 1] == "  more innocent developer."@
            },
{
    let before = utils_grievance(stats.utils_file_count as nat) + dependency_grievance(
        stats.dependency_count as nat,
    ) + files_grievance(stats) + largest_file_grievance(largest_view(stats.largest_file));
    let t = todo_grievance(stats.todo_count as nat);
    let g = stat_grievances(stats);
    let k = before.len() as int;
    assert(k <= 7);
    assert(t.len() == 2);
    assert(g[k] == t[0]);
    assert(g[k + 1] == t[1]);
    lemma_fill_grievances_prefix(g, fallbacks);
    let all = fill_grievances(g, fallbacks);
    assert(all[k] == t[0]);
    assert(all[k + 1] == t[1]);
    let out = spec_grievances(stats, fallbacks);
    assert(out[k] == t[0]);
    assert(out[k + 1] == t[1]);
}

/// A string made of a number followed by a text.
fn number_then(n: u64, text: &str) -> (s: String)
    ensures
        s@ == decimal(n as nat) + text@,
{
    let mut s = String::new();
    push_decimal(&mut s, n);
    push_str(&mut s, text);
    s
}

fn utils_lines(n: usize) -> (g: Vec<String>)
    ensures
        string_views(g@) == utils_grievance(n as nat),
{
    let mut g: Vec<String> = Vec::new();
    if n > 3 {
        g.push(number_then(n as u64, " files named 'utils'. Peak creativity."));
    } else if n > 0 {
        g.push(number_then(n as u64, " file(s) named 'utils' — original."));
    }
    assert(string_views(g@) =~= utils_grievance(n as nat));
    g
}

fn dependency_lines(n: usize) -> (g: Vec<String>)
    ensures
        string_views(g@) == dependency_grievance(n as nat),
{
    let mut g: Vec<String> = Vec::new();
    if n > 150 {
        g.push(number_then(n as u64, " dependencies. This isn't a project,"));
        g.push(String::from_str("  it's a support group."));
    } else if n > 50 {
        g.push(String::from_str("A dependency list longer than my will"));
        let mut s = String::new();
        push_str(&mut s, "  to live (");
        push_decimal(&mut s, n as u64);
        push_str(&mut s, " packages).");
        g.push(s);
    } else if n > 0 {
        g.push(number_then(n as u64, " dependencies — each one a tiny regret."));
    }
    assert(string_views(g@) =~= dependency_grievance(n as nat));
    g
}

fn files_lines(stats: &ProjectStats) -> (g: Vec<String>)
    ensures
        string_views(g@) == files_grievance(*stats),
{
    let mut g: Vec<String> = Vec::new();
    if stats.total_files > 0 {
        let mut s = String::new();
        push_decimal(&mut s, stats.total_files as u64);
        push_str(&mut s, " ");
        let label: String = stats.project_type.label();
        push_str(&mut s, label.as_str());
        push_str(&mut s, " files, somehow still not enough");
        g.push(s);
        g.push(String::from_str("  abstraction."));
    }
    assert(string_views(g@) =~= files_grievance(*stats));
    g
}

fn largest_file_lines(largest: &Option<(String, usize)>) -> (g: Vec<String>)
    ensures
        string_views(g@) == largest_file_grievance(largest_view(*largest)),
{
    let mut g: Vec<String> = Vec::new();
    match largest {
        Some((name, lines)) => {
            if *lines > 500 {
                let mut s = String::new();
                push_str(&mut s, "A ");
                push_decimal(&mut s, *lines as u64);
                push_str(&mut s, "-line file called '");
                push_str(&mut s, name.as_str());
                push_str(&mut s, "'. It has");
                g.push(s);
                g.push(String::from_str("  its own weather system."));
            } else if *lines > 200 {
                let mut s = String::new();
                push_str(&mut s, "'");
                push_str(&mut s, name.as_str());
                push_str(&mut s, "' at ");
                push_decimal(&mut s, *lines as u64);
                push_str(&mut s, " lines — nobody dares scroll");
                g.push(s);
                g.push(String::from_str("  to the bottom."));
            }
        },
        None => {},
    }
    assert(string_views(g@) =~= largest_file_grievance(largest_view(*largest)));
    g
}

fn todo_lines(n: usize) -> (g: Vec<String>)
    ensures
        string_views(g@) == todo_grievance(n as nat),
{
    let mut g: Vec<String> = Vec::new();
    if n > 20 {
        g.push(number_then(n as u64, " TODOs that will never be done."));
        g.push(String::from_str("  They're not TODOs, they're prayers."));
    } else if n > 0 {
        g.push(number_then(n as u64, " optimistic TODOs from a younger,"));
        g.push(String::from_str("  more innocent developer."));
    }
    assert(string_views(g@) =~= todo_grievance(n as nat));
    g
}

fn bloat_lines(bytes: u64) -> (g: Vec<String>)
    ensures
        string_views(g@) == bloat_grievance(bytes as nat),
{
    let mut g: Vec<String> = Vec::new();
    if bytes > 524_288_000 {
        let size: String = format_bytes(bytes);
        let mut s = String::new();
        push_str(&mut s, "Bloat weighing ");
        push_str(&mut s, size.as_str());
        push_str(&mut s, ". Heavier than my");
        g.push(s);
        g.push(String::from_str("  existential dread."));
    }
    assert(string_views(g@) =~= bloat_grievance(bytes as nat));
    g
}

fn commits_lines(commits: Option<usize>) -> (g: Vec<String>)
    ensures
        string_views(g@) == commits_grievance(commits),
{
    let mut g: Vec<String> = Vec::new();
    match commits {
        Some(c) => {
            if c > 500 {
                g.push(number_then(c as u64, " commits. Stockholm syndrome"));
                g.push(String::from_str("  at its finest."));
            }
        },
        None => {},
    }
    assert(string_views(g@) =~= commits_grievance(commits));
    g
}

/// Move the strings of `part` to the end of `g`.
fn append_lines(g: &mut Vec<String>, part: Vec<String>)
    ensures
        string_views(final(g)@) == string_views(old(g)@) + string_views(part@),
{
    let mut p = part;
    g.append(&mut p);
    assert(string_views(g@) =~= string_views(old(g)@) + string_views(part@));
}

/// The grievance lines of the statistics.
fn stat_grievance_lines(stats: &ProjectStats) -> (g: Vec<String>)
    ensures
        string_views(g@) == stat_grievances(*stats),
{
    let mut g: Vec<String> = utils_lines(stats.utils_file_count);
    append_lines(&mut g, dependency_lines(stats.dependency_count));
    append_lines(&mut g, files_lines(stats));
    append_lines(&mut g, largest_file_lines(&stats.largest_file));
    append_lines(&mut g, todo_lines(stats.todo_count));
    append_lines(&mut g, bloat_lines(stats.total_bloat_bytes));
    append_lines(&mut g, commits_lines(stats.git_commits));
    g
}

/// The grievances of the letter, with the fallbacks taken from the end of
/// `fallbacks` (the order in which they were shuffled).
pub fn generate_grievances_with(stats: &ProjectStats, fallbacks: Vec<String>) -> (g: Vec<String>)
    ensures
        string_views(g@) == spec_grievances(*stats, string_views(fallbacks@)),
{
    let mut g: Vec<String> = stat_grievance_lines(stats);
    let mut rest = fallbacks;
    while g.len() < 3 && rest.len() > 0
        invariant
            fill_grievances(string_views(g@), string_views(rest@)) == fill_grievances(
                stat_grievances(*stats),
                string_views(fallbacks@),
            ),
        decreases rest.len(),
    {
        let ghost before = string_views(g@);
        let ghost old_rest = string_views(rest@);
        let f: String = rest.pop().unwrap();
        assert(string_views(rest@) =~= old_rest.drop_last());
        assert(old_rest.last() == f@);
        let chars: Vec<char> = chars_of(f.as_str());
        let parts: Vec<Vec<char>> = split_on_newlines(&chars);
        let mut j: usize = 0;
        while j < parts.len()
            invariant
                j <= parts.len(),
                views(parts@) == split_newlines(f@),
                string_views(g@) == before + views(parts@).take(j as int),
            decreases parts.len() - j,
        {
            let piece: String = string_of(&parts[j]);
            let ghost gb = g@;
            g.push(piece);
            assert(string_views(g@) =~= string_views(gb).push(piece@));
            assert(string_views(g@) =~= before + views(parts@).take(j + 1));
            j = j + 1;
        }
        assert(views(parts@).take(parts.len() as int) =~= views(parts@));
        assert(fill_grievances(before, old_rest) == fill_grievances(
            before + split_newlines(f@),
            old_rest.drop_last(),
        ));
    }
    let ghost filled = string_views(g@);
    assert(fill_grievances(filled, string_views(rest@)) == filled);
    if g.len() > 10 {
        g.truncate(10);
        assert(string_views(g@) =~= filled.take(10));
    }
    g
}


/// The fallback grievances, before they are shuffled.
fn default_fallback_lines() -> (v: Vec<String>)
    ensures
        string_views(v@) == default_fallbacks(),
{
    let mut v: Vec<String> = Vec::new();
    v.push(String::from_str("That one function everyone's afraid\n  to touch."));
    v.push(String::from_str("Code that works. Nobody knows why."));
    v.push(String::from_str("A README that says 'TODO: write\n  README'."));
    v.push(String::from_str("The config file that is actually\n  load-bearing."));
    assert(string_views(v@) =~= default_fallbacks());
    v
}

/// The grievances of the letter, with the fallbacks in a random order: one
/// of the orders of the default fallbacks, and between three and ten lines.
pub fn generate_grievances(stats: &ProjectStats) -> (g: Vec<String>)
    ensures
        exists|p: Seq<int>|
            is_permutation(p, 4) && string_views(g@) == spec_grievances(
                *stats,
                #[trigger] permuted(default_fallbacks(), p),
            ),
        3 <= g.len() <= 10,
{
    let mut fallbacks: Vec<String> = default_fallback_lines();
    let ghost before = fallbacks@;
    shuffle(&mut fallbacks);
    let ghost p = choose|p: Seq<int>| is_permutation(p, before.len()) && #[trigger] permuted(before, p) == fallbacks@;
    assert(string_views(fallbacks@) =~= permuted(default_fallbacks(), p));
    let g: Vec<String> = generate_grievances_with(stats, fallbacks);
    proof {
        law_grievances_between_three_and_ten(*stats, permuted(default_fallbacks(), p));
    }
    g
}

// ---------------------------------------------------------------------------
// The letter
// ---------------------------------------------------------------------------

/// The opening of the letter.
pub open spec fn letter_opening(stats: ProjectStats) -> Seq<Seq<char>> {
    match (stats.git_commits, stats.git_age_days) {
        (Some(commits), Some(days)) => seq![
            "After "@ + decimal(commits as nat) + " commits spanning "@ + spec_humanize_days(
                days as nat,
            ) + ", I"@,
            "can no longer pretend this codebase"@,
            "sparks joy."@,
        ],
        _ => seq![
            "I regret to inform you that I am"@,
            "leaving this project, effective"@,
            "immediately."@,
        ],
    }
}

/// The number of sign-offs to choose from.
pub const SIGNOFF_COUNT: usize = 4;

/// The `k`-th sign-off.
pub open spec fn signoff(k: int) -> Seq<Seq<char>> {
    if k == 0 {
        seq!["I wish you nothing but segfaults."@, Seq::<char>::empty(), "Regards,"@, "A dev who tried"@]
    } else if k == 1 {
        seq!["With zero regrets,"@, "The last person who understood"@, "this codebase"@]
    } else if k == 2 {
        seq!["May your builds be green."@, "(They won't be.)"@]
    } else {
        seq!["Sincerely done,"@, "A developer who committed"@, "to the wrong branch of life"@]
    }
}

/// The lines of the letter, given its grievances, sign-off and date.
pub open spec fn letter_lines(
    stats: ProjectStats,
    grievances: Seq<Seq<char>>,
    k: int,
    date: Seq<char>,
) -> Seq<Seq<char>> {
    seq!["Dear "@ + stats.project_name@ + ","@, Seq::<char>::empty()] + letter_opening(stats) + seq![
        Seq::<char>::empty(),
        "Notable grievances:"@,
    ] + grievances.map_values(|g: Seq<char>| "• "@ + g) + seq![Seq::<char>::empty()] + signoff(k)
        + seq![Seq::<char>::empty(), "Date: "@ + date]
}

fn opening_lines(stats: &ProjectStats) -> (v: Vec<String>)
    ensures
        string_views(v@) == letter_opening(*stats),
{
    let mut v: Vec<String> = Vec::new();
    match (stats.git_commits, stats.git_age_days) {
        (Some(commits), Some(days)) => {
            let age: String = humanize_days(days);
            let mut s = String::new();
            push_str(&mut s, "After ");
            push_decimal(&mut s, commits as u64);
            push_str(&mut s, " commits spanning ");
            push_str(&mut s, age.as_str());
            push_str(&mut s, ", I");
            v.push(s);
            v.push(String::from_str("can no longer pretend this codebase"));
            v.push(String::from_str("sparks joy."));
        },
        _ => {
            v.push(String::from_str("I regret to inform you that I am"));
            v.push(String::from_str("leaving this project, effective"));
            v.push(String::from_str("immediately."));
        },
    }
    assert(string_views(v@) =~= letter_opening(*stats));
    v
}

fn signoff_lines(k: usize) -> (v: Vec<String>)
    requires
        k < SIGNOFF_COUNT,
    ensures
        string_views(v@) == signoff(k as int),
{
    let mut v: Vec<String> = Vec::new();
    if k == 0 {
        v.push(String::from_str("I wish you nothing but segfaults."));
        v.push(String::new());
        v.push(String::from_str("Regards,"));
        v.push(String::from_str("A dev who tried"));
    } else if k == 1 {
        v.push(String::from_str("With zero regrets,"));
        v.push(String::from_str("The last person who understood"));
        v.push(String::from_str("this codebase"));
    } else if k == 2 {
        v.push(String::from_str("May your builds be green."));
        v.push(String::from_str("(They won't be.)"));
    } else {
        v.push(String::from_str("Sincerely done,"));
        v.push(String::from_str("A developer who committed"));
        v.push(String::from_str("to the wrong branch of life"));
    }
    assert(string_views(v@) =~= signoff(k as int));
    v
}

/// The letter, given its grievances, the chosen sign-off and the date.
pub fn generate_letter_with(stats: &ProjectStats, grievances: &Vec<String>, signoff_index: usize, date: &str) -> (
    lines: Vec<String>)
    requires
        signoff_index < SIGNOFF_COUNT,
    ensures
        string_views(lines@) == letter_lines(
            *stats,
            string_views(grievances@),
            signoff_index as int,
            date@,
        ),
{
    let mut lines: Vec<String> = Vec::new();
    let mut dear = String::new();
    push_str(&mut dear, "Dear ");
    push_str(&mut dear, stats.project_name.as_str());
    push_str(&mut dear, ",");
    let ghost dear_view = dear@;
    lines.push(dear);
    lines.push(String::new());
    assert(string_views(lines@) =~= seq![dear_view, Seq::<char>::empty()]);
    append_lines(&mut lines, opening_lines(stats));
    let ghost l1 = string_views(lines@);
    lines.push(String::new());
    lines.push(String::from_str("Notable grievances:"));
    assert(string_views(lines@) =~= l1 + seq![Seq::<char>::empty(), "Notable grievances:"@]);
    let ghost head = string_views(lines@);
    let mut i: usize = 0;
    while i < grievances.len()
        invariant
            i <= grievances.len(),
            string_views(lines@) == head + string_views(grievances@).take(i as int).map_values(
                |g: Seq<char>| "• "@ + g,
            ),
        decreases grievances.len() - i,
    {
        let mut s = String::new();
        push_str(&mut s, "• ");
        push_str(&mut s, grievances[i].as_str());
        let ghost lb = lines@;
        lines.push(s);
        assert(string_views(lines@) =~= string_views(lb).push(s@));
        assert(string_views(lines@) =~= head + string_views(grievances@).take(i + 1).map_values(
            |g: Seq<char>| "• "@ + g,
        ));
        i = i + 1;
    }
    assert(string_views(grievances@).take(grievances.len() as int) =~= string_views(grievances@));
    let ghost l2 = string_views(lines@);
    lines.push(String::new());
    assert(string_views(lines@) =~= l2 + seq![Seq::<char>::empty()]);
    let ghost l3 = string_views(lines@);
    append_lines(&mut lines, signoff_lines(signoff_index));
    let ghost l4 = string_views(lines@);
    lines.push(String::new());
    let mut d = String::new();
    push_str(&mut d, "Date: ");
    push_str(&mut d, date);
    let ghost dv = d@;
    lines.push(d);
    assert(string_views(lines@) =~= l4 + seq![Seq::<char>::empty(), dv]);
    assert(string_views(lines@) =~= letter_lines(
        *stats,
        string_views(grievances@),
        signoff_index as int,
        date@,
    ));
    lines
}

/// The resignation letter for a project: its grievances with the fallbacks
/// in a random order, a sign-off chosen at random, and `date` (today's date,
/// as the program read it from the clock) at the foot.
pub fn generate_letter(stats: &ProjectStats, date: &str) -> (lines: Vec<String>)
    ensures
        exists|g: Seq<Seq<char>>, k: int|
            0 <= k < SIGNOFF_COUNT && 3 <= g.len() <= 10 && (exists|p: Seq<int>|
                is_permutation(p, 4) && g == spec_grievances(
                    *stats,
                    #[trigger] permuted(default_fallbacks(), p),
                )) && #[trigger] letter_lines(*stats, g, k, date@) == string_views(lines@),
{
    let grievances: Vec<String> = generate_grievances(stats);
    let choices: [usize; 4] = [0, 1, 2, 3];
    let k: usize = match choose_one(choices.as_slice()) {
        Some(k) => k,
        None => 0,
    };
    assert(choices@.contains(k));
    let lines: Vec<String> = generate_letter_with(stats, &grievances, k, date);
    assert(letter_lines(*stats, string_views(grievances@), k as int, date@) == string_views(lines@));
    lines
}

} // verus!
