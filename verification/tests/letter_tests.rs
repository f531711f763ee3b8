use rage_quit::analyzer::{ProjectStats, ProjectType};
use rage_quit::letter::{
    fit_letter_line, generate_grievances, generate_grievances_with, generate_letter,
    generate_letter_with, humanize_days, letter_blank_line, letter_body_line,
    letter_bottom_border, letter_left_padding, letter_right_padding, letter_title_line,
    letter_top_border, LETTER_BOX_WIDTH,
};

#[test]
fn letter_line_truncation_preserves_utf8_boundaries() {
    let line = format!("{}—{}", "a".repeat(60), "done");
    let fitted = fit_letter_line(&line, LETTER_BOX_WIDTH);

    assert!(fitted.ends_with("..."));
    assert!(fitted.is_char_boundary(fitted.len()));
    assert!(fitted.chars().count() <= LETTER_BOX_WIDTH - 4);
}

#[test]
fn letter_padding_saturates_for_tiny_boxes() {
    assert_eq!(letter_right_padding("long line", 4), 0);
}

#[test]
fn letter_lines_fit_exactly() {
    assert_eq!(fit_letter_line("short", 58), "short");
    let exact = "b".repeat(54);
    assert_eq!(fit_letter_line(&exact, 58), exact);
    let over = "c".repeat(55);
    assert_eq!(fit_letter_line(&over, 58), format!("{}...", "c".repeat(51)));
    assert_eq!(fit_letter_line("abcdef", 5), "...");
    assert_eq!(letter_right_padding("abc", 58), 53);
    assert_eq!(letter_right_padding("é", 3), 0);
}

#[test]
fn letter_box_rows() {
    assert_eq!(letter_left_padding(100), 21);
    assert_eq!(letter_left_padding(62), 2);
    assert_eq!(letter_top_border(), format!("┌{}┐", "─".repeat(58)));
    assert_eq!(letter_bottom_border(), format!("└{}┘", "─".repeat(58)));
    assert_eq!(
        letter_title_line(),
        format!("│{}LETTER OF RESIGNATION{}│", " ".repeat(18), " ".repeat(19))
    );
    assert_eq!(letter_blank_line(), format!("│{}│", " ".repeat(58)));
    assert_eq!(letter_body_line("hi"), format!("│ hi{} │", " ".repeat(54)));
    assert_eq!(letter_body_line("hi").chars().count(), 60);
}

#[test]
fn days_in_words() {
    assert_eq!(humanize_days(0), "less than a day");
    assert_eq!(humanize_days(1), "less than a day");
    assert_eq!(humanize_days(2), "2 days");
    assert_eq!(humanize_days(60), "60 days");
    assert_eq!(humanize_days(61), "2 months");
    assert_eq!(humanize_days(365), "12 months");
    assert_eq!(humanize_days(366), "over a year");
    assert_eq!(humanize_days(730), "over a year");
    assert_eq!(humanize_days(731), "2 years");
}

fn stats() -> ProjectStats {
    ProjectStats {
        project_name: "demo".to_string(),
        project_type: ProjectType::Rust,
        total_files: 12,
        git_commits: Some(600),
        git_age_days: Some(800),
        dependency_count: 3,
        largest_file: Some(("main.rs".to_string(), 700)),
        utils_file_count: 5,
        todo_count: 21,
        bloat_dirs: Vec::new(),
        total_bloat_bytes: 1_073_741_824,
    }
}

fn empty_stats() -> ProjectStats {
    ProjectStats {
        project_name: "quiet".to_string(),
        project_type: ProjectType::Unknown,
        total_files: 0,
        git_commits: None,
        git_age_days: None,
        dependency_count: 0,
        largest_file: None,
        utils_file_count: 0,
        todo_count: 0,
        bloat_dirs: Vec::new(),
        total_bloat_bytes: 0,
    }
}

fn strings(v: &[&str]) -> Vec<String> {
    v.iter().map(|s| s.to_string()).collect()
}

#[test]
fn grievances_from_statistics_are_capped_at_ten() {
    let g = generate_grievances_with(&stats(), strings(&["fallback"]));
    assert_eq!(
        g,
        strings(&[
            "5 files named 'utils'. Peak creativity.",
            "3 dependencies — each one a tiny regret.",
            "12 Rust files, somehow still not enough",
            "  abstraction.",
            "A 700-line file called 'main.rs'. It has",
            "  its own weather system.",
            "21 TODOs that will never be done.",
            "  They're not TODOs, they're prayers.",
            "Bloat weighing 1.0 GB. Heavier than my",
            "  existential dread.",
        ])
    );
}

#[test]
fn grievances_are_topped_up_from_the_last_fallback() {
    let g = generate_grievances_with(&empty_stats(), strings(&["first\n  half", "second", "third\n  part"]));
    assert_eq!(g, strings(&["third", "  part", "second"]));
    let none = generate_grievances_with(&empty_stats(), Vec::new());
    assert!(none.is_empty());
}

#[test]
fn shuffled_grievances_keep_between_three_and_ten_lines() {
    for _ in 0..50 {
        let g = generate_grievances(&empty_stats());
        assert!(g.len() >= 3 && g.len() <= 10);
        let defaults = [
            "That one function everyone's afraid",
            "  to touch.",
            "Code that works. Nobody knows why.",
            "A README that says 'TODO: write",
            "  README'.",
            "The config file that is actually",
            "  load-bearing.",
        ];
        for line in &g {
            assert!(defaults.contains(&line.as_str()), "{:?}", line);
        }
    }
}

#[test]
fn letter_with_chosen_parts() {
    let lines = generate_letter_with(&stats(), &strings(&["one", "two"]), 2, "2024-01-02");
    assert_eq!(
        lines,
        strings(&[
            "Dear demo,",
            "",
            "After 600 commits spanning 2 years, I",
            "can no longer pretend this codebase",
            "sparks joy.",
            "",
            "Notable grievances:",
            "• one",
            "• two",
            "",
            "May your builds be green.",
            "(They won't be.)",
            "",
            "Date: 2024-01-02",
        ])
    );
    let quiet = generate_letter_with(&empty_stats(), &Vec::new(), 0, "d");
    assert_eq!(quiet[2], "I regret to inform you that I am");
    assert_eq!(quiet[6], "Notable grievances:");
    assert_eq!(quiet[8], "I wish you nothing but segfaults.");
    assert_eq!(quiet[9], "");
    assert_eq!(quiet.last().unwrap(), "Date: d");
}

#[test]
fn generated_letter_has_salutation_grievances_and_date() {
    let lines = generate_letter(&stats(), "2024-01-02");
    assert_eq!(lines[0], "Dear demo,");
    assert_eq!(lines[6], "Notable grievances:");
    assert_eq!(lines[7], "• 5 files named 'utils'. Peak creativity.");
    assert_eq!(lines.last().unwrap(), "Date: 2024-01-02");
}
