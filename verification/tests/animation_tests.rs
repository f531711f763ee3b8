use rage_quit::animation::{
    fake_error_line, fake_error_message_at, fake_error_pause, fire_row, fit_error_to_width,
    flame_color_range, format_bytes, meter_fill, progress_color, progress_freed_suffix,
    progress_status, progress_step_delay, rage_bar_width, rage_color, rage_meter_full_line,
    rage_meter_line, scaled_duration_ms, set_speed, typewriter_centered, AnimationSpeed,
    FireColor, MeterColor, ProgressColor, SpeedSetting, FAKE_ERROR_COUNT,
};
use rage_quit::animation;
use rage_quit::animation::{fake_error_steps, fire_frame, fire_frames, FIRE_HOLD_MS};
use rage_quit::sound::SoundEffect;

#[test]
fn fake_error_truncation_handles_narrow_widths() {
    assert_eq!(fit_error_to_width("abcdef", 0), "");
    assert_eq!(fit_error_to_width("abcdef", 3), "");
    assert_eq!(fit_error_to_width("abcdef", 6), "ab");
}

#[test]
fn fake_error_truncation_preserves_utf8_boundaries() {
    assert_eq!(fit_error_to_width("ééé", 5), "é");
}

#[test]
fn animation_speed_scales_durations() {
    let mut setting = SpeedSetting::new();
    set_speed(&mut setting, AnimationSpeed::Slow);
    assert_eq!(scaled_duration_ms(&setting, 10), 20);

    set_speed(&mut setting, AnimationSpeed::Fast);
    assert_eq!(scaled_duration_ms(&setting, 10), 5);
    assert_eq!(scaled_duration_ms(&setting, 1), 1);

    set_speed(&mut setting, AnimationSpeed::Normal);
    assert_eq!(scaled_duration_ms(&setting, 10), 10);
}

#[test]
fn speed_starts_normal_and_saturates_when_slow() {
    let mut setting = SpeedSetting::new();
    assert_eq!(scaled_duration_ms(&setting, 7), 7);
    set_speed(&mut setting, AnimationSpeed::Slow);
    assert_eq!(scaled_duration_ms(&setting, u64::MAX), u64::MAX);
    assert_eq!(scaled_duration_ms(&setting, u64::MAX / 2 + 1), u64::MAX);
    set_speed(&mut setting, AnimationSpeed::Fast);
    assert_eq!(scaled_duration_ms(&setting, 0), 1);
    assert_eq!(scaled_duration_ms(&setting, 3), 1);
}

#[test]
fn fake_error_fits_whole_width() {
    assert_eq!(fit_error_to_width("abc", 100), "abc");
    assert_eq!(fake_error_line("abcdef", 7), "  abc\n");
}

fn float_format_bytes(bytes: u64) -> String {
    if bytes >= 1_073_741_824 {
        format!("{:.1} GB", bytes as f64 / 1_073_741_824.0)
    } else if bytes >= 1_048_576 {
        format!("{:.1} MB", bytes as f64 / 1_048_576.0)
    } else if bytes >= 1024 {
        format!("{:.0} KB", bytes as f64 / 1024.0)
    } else {
        format!("{} B", bytes)
    }
}

#[test]
fn format_bytes_exact_values() {
    assert_eq!(format_bytes(0), "0 B");
    assert_eq!(format_bytes(1023), "1023 B");
    assert_eq!(format_bytes(1024), "1 KB");
    assert_eq!(format_bytes(1536), "2 KB");
    assert_eq!(format_bytes(2560), "2 KB");
    assert_eq!(format_bytes(1_048_575), "1024 KB");
    assert_eq!(format_bytes(1_048_576), "1.0 MB");
    assert_eq!(format_bytes(1_572_864), "1.5 MB");
    assert_eq!(format_bytes(1_073_741_824), "1.0 GB");
    assert_eq!(format_bytes(1_342_177_280), "1.2 GB");
    assert_eq!(format_bytes(u64::MAX), "17179869184.0 GB");
}

#[test]
fn format_bytes_agrees_with_float_formatting() {
    let mut samples: Vec<u64> = Vec::new();
    for b in 0..5000u64 {
        samples.push(b);
    }
    for k in 0..4000u64 {
        samples.push(1_048_576 + k * 104_857 / 2);
        samples.push(1_073_741_824 + k * 53_687_091);
        samples.push((k + 1) * 2_684_354_560 / 2);
    }
    for m in 4..4000u64 {
        samples.push(m * 262_144);
        samples.push(m * 268_435_456);
        samples.push(m * 1024 + 512);
    }
    for shift in 50..64u32 {
        for d in 0..64u64 {
            let base: u64 = 1u64 << shift;
            samples.push(base.wrapping_add(d * 977));
            samples.push(base.wrapping_sub(d * 1031));
            if shift >= 53 {
                let spacing: u64 = 1u64 << (shift - 53);
                samples.push(base + spacing * d + spacing / 2);
                samples.push(base + spacing * (2 * d + 1) / 2);
            }
        }
    }
    samples.push(u64::MAX);
    samples.push(u64::MAX - 1024);
    for b in samples {
        assert_eq!(format_bytes(b), float_format_bytes(b), "bytes = {}", b);
    }
}

#[test]
fn typewriter_centering_pads_by_bytes() {
    assert_eq!(typewriter_centered("abcd", 10), "   abcd");
    assert_eq!(typewriter_centered("abcd", 4), "abcd");
    assert_eq!(typewriter_centered("abcd", 2), "abcd");
    assert_eq!(typewriter_centered("é", 6), "  é");
}

#[test]
fn rage_meter_frames() {
    assert_eq!(rage_bar_width(100), 60);
    assert_eq!(rage_bar_width(40), 40);
    assert_eq!(meter_fill(25, 50, 60), 30);
    assert_eq!(meter_fill(1, 50, 60), 1);
    assert_eq!(rage_meter_line(2, 4, 50), "\r  RAGE LEVEL [██░░] 50%");
    assert_eq!(rage_meter_full_line(3), "\r  RAGE LEVEL [███] 100%");
    assert_eq!(rage_color(30), MeterColor::Green);
    assert_eq!(rage_color(31), MeterColor::Yellow);
    assert_eq!(rage_color(61), MeterColor::Orange);
    assert_eq!(rage_color(86), MeterColor::Red);
}

#[test]
fn progress_bar_frames() {
    assert_eq!(
        progress_status("Vaporizing", 1, 3, 33, "dist"),
        "\r  🔥 Vaporizing [█░░] 33% (dist)"
    );
    assert_eq!(
        progress_status("Vaporizing", 3, 3, 100, "dist"),
        "\r  💀 Vaporizing [███] 100% (OBLITERATED)"
    );
    assert_eq!(progress_freed_suffix("2 KB"), " — 2 KB freed");
    assert_eq!(progress_step_delay(1200), 24);
    assert_eq!(progress_color(49), ProgressColor::Orange);
    assert_eq!(progress_color(50), ProgressColor::Red);
    assert_eq!(progress_color(90), ProgressColor::DarkRed);
}

#[test]
fn flame_ranges_agree_with_float_intensity() {
    for rows in 1..300u64 {
        for y in 0..rows {
            let intensity = y as f64 / rows as f64;
            let expected = if intensity > 0.7 {
                (3, 6)
            } else if intensity > 0.3 {
                (1, 4)
            } else {
                (0, 2)
            };
            assert_eq!(flame_color_range(y, rows), expected, "y = {}, rows = {}", y, rows);
        }
    }
}

fn color_index(c: FireColor) -> u64 {
    match c {
        FireColor::DarkRed => 0,
        FireColor::Red => 1,
        FireColor::OrangeRed => 2,
        FireColor::Orange => 3,
        FireColor::Yellow => 4,
        FireColor::BrightYellow => 5,
    }
}

#[test]
fn fire_rows_stay_in_their_palette() {
    for _ in 0..20 {
        let hot = fire_row(9, 10, 50);
        assert_eq!(hot.len(), 50);
        for cell in &hot {
            assert!(['░', '▒', '▓', '█'].contains(&cell.glyph));
            let c = color_index(cell.color);
            assert!((3..6).contains(&c));
        }
        let cool = fire_row(0, 10, 50);
        for cell in &cool {
            assert!(color_index(cell.color) < 2);
        }
    }
}

#[test]
fn fake_error_messages_and_pauses() {
    assert_eq!(FAKE_ERROR_COUNT, 14);
    assert_eq!(fake_error_message_at(0), "✗ Destroying node_modules singularity...");
    assert_eq!(fake_error_message_at(13), "✗ Reverting the revert of the revert...");
    for _ in 0..200 {
        let p = fake_error_pause();
        assert!((80..250).contains(&p));
    }
}

fn percents(steps: usize) -> Vec<u8> {
    (0..=steps).map(|i| (i as f64 / steps as f64 * 100.0) as u8).collect()
}

#[test]
fn rage_meter_schedule() {
    let frames = animation::rage_meter_frames(100, &percents(50));
    assert_eq!(frames.len(), 57);
    assert_eq!(frames[0].text, format!("\r  RAGE LEVEL [{}] 0%", "░".repeat(60)));
    assert_eq!(frames[0].color, MeterColor::Green);
    assert_eq!(frames[0].pause_ms, 60);
    assert_eq!(frames[50].text, format!("\r  RAGE LEVEL [{}] 100%", "█".repeat(60)));
    assert_eq!(frames[50].color, MeterColor::Red);
    assert_eq!(frames[51].color, MeterColor::DarkRed);
    assert_eq!(frames[52].color, MeterColor::Glow);
    assert_eq!(frames[56].color, MeterColor::Glow);
    assert_eq!(frames[56].pause_ms, 100);
    assert_eq!(frames[53].text, format!("\r  RAGE LEVEL [{}] 100%", "█".repeat(60)));
}

#[test]
fn progress_bar_schedule() {
    let frames = animation::progress_bar_frames("dist", "Vaporizing", 1200, &percents(50));
    assert_eq!(frames.len(), 51);
    assert_eq!(frames[25].text, format!("\r  🔥 Vaporizing [{}{}] 50% (dist)", "█".repeat(15), "░".repeat(15)));
    assert_eq!(frames[25].color, ProgressColor::Red);
    assert_eq!(frames[50].text, format!("\r  💀 Vaporizing [{}] 100% (OBLITERATED)", "█".repeat(30)));
    assert!(frames.iter().all(|f| f.pause_ms == 24));
}

#[test]
fn fire_schedule_grows_one_row_per_frame() {
    let frames = fire_frames(6, 4);
    assert_eq!(frames.len(), 4);
    for (k, frame) in frames.iter().enumerate() {
        assert_eq!(frame.rows.len(), k + 1);
        assert_eq!(frame.blank_rows as usize, 4 - (k + 1));
        assert_eq!(frame.pause_ms, 40);
        assert!(frame.rows.iter().all(|r| r.len() == 6));
    }
    assert!(fire_frames(6, 0).is_empty());
    assert_eq!(FIRE_HOLD_MS, 300);
}

#[test]
fn fire_frames_grow_from_the_bottom() {
    let frame = fire_frame(8, 20, 5);
    assert_eq!(frame.pause_ms, 40);
    assert_eq!(frame.blank_rows, 15);
    assert_eq!(frame.rows.len(), 5);
    for (y, row) in frame.rows.iter().enumerate() {
        assert_eq!(row.len(), 8);
        let (lo, hi) = flame_color_range(y as u64, 5);
        for cell in row {
            let c = color_index(cell.color);
            assert!(lo <= c && c < hi);
        }
    }
}

#[test]
fn fake_error_schedule() {
    let steps = fake_error_steps(20);
    assert_eq!(steps.len(), 14);
    assert_eq!(steps[0].line, "  ✗ Destroying nod\n");
    for s in &steps {
        assert_eq!(s.sound, SoundEffect::Error);
        assert!((80..250).contains(&s.pause_ms));
    }
}
