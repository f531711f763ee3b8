use rage_quit::analyzer::{BloatDir, ManifestFiles, ProjectStats, ProjectType};
use rage_quit::phases::{
    buildup_row, cleanup_mode, cleanup_plan, cleanup_summary, crawl_frame_line, detect_type, exit_line,
    farewell_text, fire_height, is_confirmation, is_confirmation_byte, mic_art_at, nuke_item_line,
    nuke_prompt, progress_jobs, reinstall_command, CleanupMode,
};
use rage_quit::sound::{create_player, SoundEffect, SoundMode, SoundPlayer, SoundStep};
use rage_quit::sound::SoundStep::{PauseMs, Ring};
use std::path::PathBuf;

#[test]
fn silent_player_plays_nothing() {
    let p = SoundPlayer::new(SoundMode::Silent);
    for e in [
        SoundEffect::Bell,
        SoundEffect::RapidBells,
        SoundEffect::Explosion,
        SoundEffect::MicDrop,
        SoundEffect::Error,
        SoundEffect::Success,
    ] {
        assert!(p.play(e).is_empty());
    }
}

#[test]
fn bell_patterns() {
    let p = SoundPlayer::new(SoundMode::Bell);
    assert_eq!(p.play(SoundEffect::Bell), vec![Ring]);
    assert_eq!(
        p.play(SoundEffect::RapidBells),
        vec![Ring, PauseMs(50), Ring, PauseMs(50), Ring, PauseMs(50), Ring, PauseMs(50), Ring]
    );
    assert_eq!(
        p.play(SoundEffect::Explosion),
        vec![
            Ring, PauseMs(200), Ring, PauseMs(175), Ring, PauseMs(150), Ring, PauseMs(125), Ring,
            PauseMs(100), Ring, PauseMs(75), Ring, PauseMs(50)
        ]
    );
    assert_eq!(p.play(SoundEffect::MicDrop), vec![PauseMs(300), Ring, PauseMs(150), Ring]);
    assert_eq!(p.play(SoundEffect::Error), vec![Ring, PauseMs(80), Ring]);
    assert_eq!(
        p.play(SoundEffect::Success),
        vec![Ring, PauseMs(120), Ring, PauseMs(120), Ring, PauseMs(120)]
    );
}

#[test]
fn player_mode_from_flags() {
    assert_eq!(create_player(true, true, true).mode(), SoundMode::Silent);
    assert_eq!(create_player(false, false, false).mode(), SoundMode::Bell);
    assert_eq!(create_player(false, true, false).mode(), SoundMode::Bell);
    assert_eq!(create_player(false, false, true).mode(), SoundMode::Bell);
}

#[test]
fn comeback_detection_ignores_pyproject() {
    let mut m = ManifestFiles {
        package_json: false,
        cargo_toml: false,
        requirements_txt: false,
        pyproject_toml: true,
        setup_py: true,
        go_mod: false,
    };
    assert_eq!(detect_type(&m), ProjectType::Unknown);
    m.go_mod = true;
    assert_eq!(detect_type(&m), ProjectType::Go);
    m.requirements_txt = true;
    assert_eq!(detect_type(&m), ProjectType::Python);
    m.package_json = true;
    assert_eq!(detect_type(&m), ProjectType::Node);
}

#[test]
fn reinstall_commands() {
    let c = reinstall_command(&ProjectType::Python).unwrap();
    assert_eq!(c.program, "pip");
    assert_eq!(c.args, vec!["install", "-r", "requirements.txt"]);
    assert_eq!(c.label, "pip install");
    let g = reinstall_command(&ProjectType::Go).unwrap();
    assert_eq!(g.args, vec!["mod", "download"]);
    assert_eq!(reinstall_command(&ProjectType::Node).unwrap().label, "npm install");
    assert_eq!(reinstall_command(&ProjectType::Rust).unwrap().program, "cargo");
    assert!(reinstall_command(&ProjectType::Unknown).is_none());
    assert_eq!(crawl_frame_line(0), "\r    _o/       Wait... I didn't mean it...");
}

#[test]
fn confirmation_answers() {
    assert!(is_confirmation("y\n"));
    assert!(is_confirmation("  Y \r\n"));
    assert!(!is_confirmation("yes"));
    assert!(!is_confirmation(""));
    assert!(!is_confirmation("n"));
    assert!(is_confirmation_byte(b'y'));
    assert!(is_confirmation_byte(b'Y'));
    assert!(!is_confirmation_byte(b'n'));
}

fn stats_with(dirs: Vec<BloatDir>) -> ProjectStats {
    ProjectStats {
        project_name: "p".to_string(),
        project_type: ProjectType::Node,
        total_files: 1,
        git_commits: None,
        git_age_days: None,
        dependency_count: 0,
        largest_file: None,
        utils_file_count: 0,
        todo_count: 0,
        bloat_dirs: dirs,
        total_bloat_bytes: 3072,
    }
}

#[test]
fn cleanup_plans_and_texts() {
    let dir = BloatDir {
        path: PathBuf::from("/x/dist"),
        label: "dist".to_string(),
        size_bytes: 3072,
        destruction_verb: "Vaporizing".to_string(),
    };
    let stats = stats_with(vec![dir]);
    assert_eq!(cleanup_mode(&stats.bloat_dirs, true), CleanupMode::AskThenNuke);
    assert_eq!(cleanup_mode(&stats.bloat_dirs, false), CleanupMode::DryRun);
    assert_eq!(cleanup_mode(&Vec::new(), true), CleanupMode::NothingToClean);
    let dry = progress_jobs(&stats, false);
    assert_eq!(dry.len(), 1);
    assert_eq!(dry[0].label, "dist [DRY RUN]");
    assert_eq!(dry[0].verb, "Vaporizing");
    assert_eq!(dry[0].size_str, "3 KB");
    assert_eq!(dry[0].sound, SoundEffect::Bell);
    assert!(!dry[0].delete);
    let real = progress_jobs(&stats, true);
    assert_eq!(real[0].label, "dist");
    assert_eq!(real[0].sound, SoundEffect::Success);
    assert!(real[0].delete);
    assert_eq!(nuke_item_line("dist", 3072), "    • dist (3 KB)\n");
    assert_eq!(nuke_prompt(3072), "  Total: 3 KB. Proceed? [y/N] ");
    assert_eq!(cleanup_summary(3072, true), "  💥 Reclaimed 3 KB of disk space. Freedom.\n");
    assert_eq!(
        cleanup_summary(3072, false),
        "  💭 Would have freed 3 KB. Use --nuke to make it real.\n"
    );
}

#[test]
fn deletion_needs_nuke_and_a_yes() {
    let dir = BloatDir {
        path: PathBuf::from("/x/target"),
        label: "target".to_string(),
        size_bytes: 1024,
        destruction_verb: "Incinerating".to_string(),
    };
    let stats = stats_with(vec![dir]);
    let yes = cleanup_plan(&stats, true, true);
    assert_eq!(yes.len(), 1);
    assert!(yes[0].delete);
    assert_eq!(yes[0].label, "target");
    assert_eq!(yes[0].sound, SoundEffect::Success);
    for (nuke, confirmed) in [(true, false), (false, true), (false, false)] {
        let plan = cleanup_plan(&stats, nuke, confirmed);
        assert_eq!(plan.len(), 1);
        assert!(!plan[0].delete);
        assert_eq!(plan[0].label, "target [DRY RUN]");
        assert_eq!(plan[0].sound, SoundEffect::Bell);
    }
    assert!(cleanup_plan(&stats_with(Vec::new()), true, true).is_empty());
}

#[test]
fn exit_and_buildup_layout() {
    assert_eq!(buildup_row(24), 8);
    assert_eq!(fire_height(50), 20);
    assert_eq!(fire_height(10), 10);
    assert_eq!(mic_art_at(0), "     🎤     ");
    assert_eq!(exit_line("abcd", 20), format!("{}abcd", " ".repeat(8)));
    assert_eq!(exit_line("abcd", 8), format!("{}abcd", " ".repeat(4)));
    let msg = farewell_text();
    assert_eq!(msg, "rage-quit complete. Touch grass. 🌱");
    let pad = (100 - msg.len()) / 2;
    assert_eq!(exit_line(msg, 100), format!("{}{}", " ".repeat(pad), msg));
}

#[test]
fn comeback_and_analyzer_detect_alike_without_pyproject() {
    for bits in 0..16u32 {
        let m = ManifestFiles {
            package_json: bits & 1 != 0,
            cargo_toml: bits & 2 != 0,
            requirements_txt: bits & 4 != 0,
            pyproject_toml: false,
            setup_py: false,
            go_mod: bits & 8 != 0,
        };
        assert_eq!(detect_type(&m), rage_quit::analyzer::detect_project_type(&m));
    }
}
