use rage_quit::analyzer::{
    bloat_candidate_at, count_dependencies, detect_bloat_dirs, detect_project_type,
    git_age_days, git_age_days_at, has_todo_marker, is_skipped_entry, is_source_extension,
    is_utils_name, manifest_file_name, parse_commit_count, parse_commit_timestamp, project_name,
    total_bloat_bytes, FileTally, ManifestFiles, ProjectType, BLOAT_CANDIDATE_COUNT,
};
use rage_quit::text::{chars_of, split_lines, trim_chars};
use std::path::PathBuf;

fn markers() -> ManifestFiles {
    ManifestFiles {
        package_json: false,
        cargo_toml: false,
        requirements_txt: false,
        pyproject_toml: false,
        setup_py: false,
        go_mod: false,
    }
}

#[test]
fn project_type_follows_manifest_priority() {
    let mut m = markers();
    assert_eq!(detect_project_type(&m), ProjectType::Unknown);
    m.go_mod = true;
    assert_eq!(detect_project_type(&m), ProjectType::Go);
    m.setup_py = true;
    assert_eq!(detect_project_type(&m), ProjectType::Python);
    m.cargo_toml = true;
    assert_eq!(detect_project_type(&m), ProjectType::Rust);
    m.package_json = true;
    assert_eq!(detect_project_type(&m), ProjectType::Node);
    let mut p = markers();
    p.pyproject_toml = true;
    assert_eq!(detect_project_type(&p), ProjectType::Python);
}

#[test]
fn project_type_labels_and_manifests() {
    assert_eq!(ProjectType::Node.label(), "Node.js");
    assert_eq!(ProjectType::Unknown.label(), "Unknown");
    assert_eq!(manifest_file_name(&ProjectType::Rust), Some("Cargo.toml"));
    assert_eq!(manifest_file_name(&ProjectType::Unknown), None);
}

#[test]
fn node_dependencies_are_counted_per_section() {
    let pkg = r#"{
  "name": "demo",
  "dependencies": {
    "react": "^18.0.0",
    "lodash": "^4.0.0"
  },
  "devDependencies": {
    "jest": "^29.0.0"
  },
  "peerDependencies": {
    "react-dom": "^18.0.0"
  },
  "scripts": {
    "test": "jest"
  }
}"#;
    assert_eq!(count_dependencies(&ProjectType::Node, Some(pkg)), 4);
    let three = [
        "{",
        "\"dependencies\": {",
        "\"a\": \"1\"",
        "},",
        "\"devDependencies\": {",
        "\"b\": \"2\"",
        "},",
        "\"peerDependencies\": {",
        "\"c\": \"3\"",
        "}",
        "}",
    ]
    .join("\n");
    assert_eq!(count_dependencies(&ProjectType::Node, Some(&three)), 3);
    let only_peer = ["{", "\"peerDependencies\":", "{", "\"c\": \"3\"", "}", "}"].join("\n");
    assert_eq!(count_dependencies(&ProjectType::Node, Some(&only_peer)), 1);
    let only_peer_inline_brace = "{\n  \"peerDependencies\": {\n    \"a\": \"1\"\n  }\n}";
    assert_eq!(count_dependencies(&ProjectType::Node, Some(only_peer_inline_brace)), 1);
    let braces_below = "{\n  \"dependencies\":\n  {\n    \"react\": \"^18.0.0\",\n    \"lodash\": \"^4.0.0\"\n  },\n  \"devDependencies\":\n  {\n    \"jest\": \"^29.0.0\"\n  }\n}";
    assert_eq!(count_dependencies(&ProjectType::Node, Some(braces_below)), 3);
    let empty_section = "{\n\"dependencies\": {},\n\"name\": \"x\"\n}";
    assert_eq!(count_dependencies(&ProjectType::Node, Some(empty_section)), 0);
    assert_eq!(count_dependencies(&ProjectType::Node, Some("{\n\"name\": \"x\"\n}")), 0);
}

#[test]
fn cargo_dependencies_are_counted_per_table() {
    let manifest = "[package]\nname = \"x\"\nversion = \"0.1.0\"\n\n[dependencies]\nserde = \"1\"\n# comment = 1\nrand = { version = \"0.8\" }\n\n[dev-dependencies]\nproptest = \"1\"\n[features]\ndefault = []\n";
    assert_eq!(count_dependencies(&ProjectType::Rust, Some(manifest)), 3);
    assert_eq!(count_dependencies(&ProjectType::Rust, None), 0);
}

#[test]
fn python_and_go_dependencies() {
    let reqs = "requests==2.0\n\n# pinned\nflask\n   \n  # indented comment\n";
    assert_eq!(count_dependencies(&ProjectType::Python, Some(reqs)), 3);
    let gomod = "module example.com/x\n\ngo 1.21\n\nrequire (\n\tgithub.com/a/b v1.0.0\n\tgithub.com/c/d v2.0.0\n)\n";
    assert_eq!(count_dependencies(&ProjectType::Go, Some(gomod)), 4);
    assert_eq!(count_dependencies(&ProjectType::Unknown, Some("anything")), 0);
}

#[test]
fn lines_and_trim_agree_with_std() {
    let cases = [
        "", "\n", "a", "a\n", "a\nb", "a\r\nb\r\n", "a\r", "\r\n", "\n\n", "x\ny\n\nz",
        "  padded \t", "\u{3000}wide\u{2003}", "\u{85}n\u{a0}", "a\r\r\n",
    ];
    for c in cases {
        let chars = chars_of(c);
        let ls: Vec<String> = split_lines(&chars).into_iter().map(|l| l.into_iter().collect()).collect();
        let expected: Vec<String> = c.lines().map(|l| l.to_string()).collect();
        assert_eq!(ls, expected, "lines of {:?}", c);
        let t: String = trim_chars(&chars).into_iter().collect();
        assert_eq!(t, c.trim(), "trim of {:?}", c);
    }
}

#[test]
fn skipped_entries_and_source_extensions() {
    assert!(is_skipped_entry("node_modules"));
    assert!(is_skipped_entry(".git"));
    assert!(!is_skipped_entry("src"));
    assert!(is_source_extension("rs"));
    assert!(is_source_extension("svelte"));
    assert!(!is_source_extension("md"));
    assert!(!is_source_extension(""));
    assert!(is_utils_name("string_utils.rs"));
    assert!(!is_utils_name("main.rs"));
    assert!(has_todo_marker("// FIXME LATER"));
    assert!(has_todo_marker("XXX"));
    assert!(!has_todo_marker("// todo"));
}

#[test]
fn tally_counts_files_utils_todos_and_largest() {
    let mut t = FileTally::new();
    t.record_file("README.md", "md", None);
    assert_eq!(t.total_files, 1);
    assert_eq!(t.largest_file, None);
    t.record_file("StringUTILS.rs", "rs", Some("// todo: fix\nfn a() {}\n// hack\n"));
    assert_eq!(t.utils_file_count, 1);
    assert_eq!(t.todo_count, 2);
    assert_eq!(t.largest_file, None);
    let long: String = "x\n".repeat(60);
    t.record_file("Big.RS", "rs", Some(&long));
    assert_eq!(t.largest_file, Some(("big.rs".to_string(), 60)));
    let same: String = "y\n".repeat(60);
    t.record_file("other.rs", "rs", Some(&same));
    assert_eq!(t.largest_file, Some(("big.rs".to_string(), 60)));
    let longer: String = "z\n".repeat(61);
    t.record_file("longer.py", "py", Some(&longer));
    assert_eq!(t.largest_file, Some(("longer.py".to_string(), 61)));
    t.record_file("skipped.md", "md", Some("TODO\n".repeat(100).as_str()));
    assert_eq!(t.total_files, 6);
    assert_eq!(t.todo_count, 2);
}

#[test]
fn git_output_parsing() {
    assert_eq!(parse_commit_count("42\n"), Some(42));
    assert_eq!(parse_commit_count("  +7 "), Some(7));
    assert_eq!(parse_commit_count("-1"), None);
    assert_eq!(parse_commit_count(""), None);
    assert_eq!(parse_commit_count("+"), None);
    assert_eq!(parse_commit_count("12a"), None);
    assert_eq!(parse_commit_count("18446744073709551615"), Some(usize::MAX));
    assert_eq!(parse_commit_count("18446744073709551616"), None);
    assert_eq!(parse_commit_timestamp("1700000000\n"), Some(1_700_000_000));
    assert_eq!(parse_commit_timestamp("-5"), Some(-5));
    assert_eq!(parse_commit_timestamp("-9223372036854775808"), Some(i64::MIN));
    assert_eq!(parse_commit_timestamp("9223372036854775808"), None);
    assert_eq!(parse_commit_timestamp("-"), None);
    for s in ["0", "+0", "-0", "007", "99999999999999999999", "1 2", " 3\t"] {
        assert_eq!(parse_commit_timestamp(s), s.trim().parse::<i64>().ok(), "{:?}", s);
        assert_eq!(parse_commit_count(s), s.trim().parse::<usize>().ok(), "{:?}", s);
    }
}

#[test]
fn commit_age_in_days() {
    assert_eq!(git_age_days_at("0\n", 86_400 * 3 + 5), Some(3));
    assert_eq!(git_age_days_at("100", 100), Some(0));
    assert_eq!(git_age_days_at("200000", 100), Some(((100i64 - 200_000) / 86_400) as u64));
    assert_eq!(git_age_days_at("garbage", 100), None);
    assert_eq!(git_age_days("0", 86_400 * 2 + 7), Some(2));
    assert_eq!(git_age_days(" 86400\n", 86_400 * 10), Some(9));
    assert_eq!(git_age_days("not a number", 100), None);
    assert_eq!(git_age_days("-9223372036854775808", 1), None);
    assert_eq!(git_age_days("1", i64::MIN), None);
}

#[test]
fn bloat_directories_in_candidate_order() {
    assert_eq!(BLOAT_CANDIDATE_COUNT, 11);
    assert_eq!(bloat_candidate_at(0), ("node_modules", "Incinerating"));
    assert_eq!(bloat_candidate_at(10), (".nyc_output", "Disintegrating"));
    let mut found: Vec<Option<(PathBuf, u64)>> = vec![None; 11];
    found[5] = Some((PathBuf::from("/p/target"), 2048));
    found[0] = Some((PathBuf::from("/p/node_modules"), 100));
    let dirs = detect_bloat_dirs(found);
    assert_eq!(dirs.len(), 2);
    assert_eq!(dirs[0].label, "node_modules");
    assert_eq!(dirs[0].destruction_verb, "Incinerating");
    assert_eq!(dirs[0].path, PathBuf::from("/p/node_modules"));
    assert_eq!(dirs[1].label, "target");
    assert_eq!(dirs[1].destruction_verb, "Detonating");
    assert_eq!(dirs[1].size_bytes, 2048);
    assert_eq!(total_bloat_bytes(&dirs), 2148);
}

#[test]
fn project_names() {
    assert_eq!(project_name(Some("demo")), "demo");
    assert_eq!(project_name(None), "unnamed-project");
}

#[test]
fn dependency_counts_never_exceed_line_counts() {
    let samples = [
        "[dependencies]\na = 1\nb = 2\n",
        "require x\nrequire y",
        "a\nb\n#c\n",
        "{\n\"dependencies\":\n{\n\"a\": 1,\n\"b\": 2\n}\n}",
        "{\n\"dependencies\": {\n\"a\": 1\n}\n}",
    ];
    for s in samples {
        let n = s.lines().count();
        for t in [ProjectType::Node, ProjectType::Rust, ProjectType::Python, ProjectType::Go] {
            assert!(count_dependencies(&t, Some(s)) <= n);
        }
    }
    assert_eq!(count_dependencies(&ProjectType::Node, Some(samples[3])), 2);
}
