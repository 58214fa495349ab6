use statusbar::app::{ram_usage_of, App, Sample};
use statusbar::clock::{clock_text, refresh_due, ClockReading};
use statusbar::ui::{percent_text, render, workspace_row, Alignment, Area};
use statusbar::workspace::{parse_workspace_id, workspace_id_from_output};
use std::time::Instant;

fn reading() -> ClockReading {
    ClockReading { year: 2024, month: 2, day: 7, hour: 9, minute: 5, second: 3 }
}

fn sample(cpu: u64, used: u64, total: u64, output: Option<&str>) -> Sample {
    Sample {
        cpu_usage: cpu,
        used_memory: used,
        total_memory: total,
        workspace_output: output.map(|s| s.as_bytes().to_vec()),
    }
}

#[test]
fn parses_workspace_line() {
    assert_eq!(parse_workspace_id("workspace ID 2 (2) on monitor HDMI-A-1:"), Some(2));
}

#[test]
fn parses_only_first_line() {
    let text = "workspace ID 7 (7) on monitor DP-1:\n\tmonitorID: 0\n\twindows: 3\n";
    assert_eq!(parse_workspace_id(text), Some(7));
    assert_eq!(parse_workspace_id("monitor\nworkspace ID 7 (7)"), None);
    assert_eq!(parse_workspace_id("workspace ID 4\r\nrest"), Some(4));
}

#[test]
fn empty_output_gives_none() {
    assert_eq!(parse_workspace_id(""), None);
    assert_eq!(parse_workspace_id("\n"), None);
    assert_eq!(workspace_id_from_output(b""), None);
}

#[test]
fn short_line_gives_none() {
    assert_eq!(parse_workspace_id("workspace ID"), None);
    assert_eq!(parse_workspace_id("   workspace    ID   "), None);
}

#[test]
fn non_numeric_third_word_gives_none() {
    assert_eq!(parse_workspace_id("workspace ID two (2)"), None);
    assert_eq!(parse_workspace_id("workspace ID 2x"), None);
    assert_eq!(parse_workspace_id("workspace ID -2"), None);
    assert_eq!(parse_workspace_id("workspace ID +"), None);
}

#[test]
fn third_word_number_forms() {
    assert_eq!(parse_workspace_id("workspace ID +12 on"), Some(12));
    assert_eq!(parse_workspace_id("a\u{3000}b\u{a0}0042"), Some(42));
    assert_eq!(parse_workspace_id("workspace ID 4294967295"), Some(u32::MAX));
    assert_eq!(parse_workspace_id("workspace ID 4294967296"), None);
    assert_eq!(parse_workspace_id("workspace ID 99999999999999999999"), None);
}

#[test]
fn raw_output_is_decoded() {
    assert_eq!(workspace_id_from_output(b"workspace ID 5 (5) on monitor eDP-1:\n"), Some(5));
    assert_eq!(workspace_id_from_output(&[b'a', b' ', b'b', b' ', b'3', 0xff]), None);
    assert_eq!(workspace_id_from_output(&[0xc0, 0x80]), None);
}

#[test]
fn ram_usage_is_share_in_hundredths() {
    assert_eq!(ram_usage_of(50, 200), Some(2500));
    assert_eq!(ram_usage_of(1, 3), Some(3333));
    assert_eq!(ram_usage_of(2, 3), Some(6667));
    assert_eq!(ram_usage_of(1, 8), Some(1250));
    assert_eq!(ram_usage_of(0, 16), Some(0));
    assert_eq!(ram_usage_of(16, 16), Some(10000));
    assert_eq!(ram_usage_of(u64::MAX, u64::MAX), Some(10000));
    assert_eq!(ram_usage_of(u64::MAX, 1), Some(u64::MAX));
}

#[test]
fn zero_total_memory_gives_no_share() {
    assert_eq!(ram_usage_of(0, 0), None);
    assert_eq!(ram_usage_of(5, 0), None);
}

#[test]
fn refresh_keeps_ram_usage_on_zero_total() {
    let mut app = App::new();
    app.refresh_metrics(sample(1234, 3, 4, Some("workspace ID 3 (3)")));
    assert_eq!(app.cpu_usage, 1234);
    assert_eq!(app.ram_usage, 7500);
    assert_eq!(app.active_workspace_id, Some(3));
    app.refresh_metrics(sample(50, 9, 0, None));
    assert_eq!(app.cpu_usage, 50);
    assert_eq!(app.ram_usage, 7500);
    assert_eq!(app.active_workspace_id, None);
    app.refresh_metrics(sample(50, 1, 2, Some("garbage")));
    assert_eq!(app.ram_usage, 5000);
    assert_eq!(app.active_workspace_id, None);
}

#[test]
fn new_state_is_running_and_empty() {
    let app = App::new();
    assert!(app.running);
    assert_eq!(app.cpu_usage, 0);
    assert_eq!(app.ram_usage, 0);
    assert_eq!(app.active_workspace_id, None);
    let t: Vec<char> = app.current_time.chars().collect();
    assert_eq!(t.len(), 19);
    assert_eq!((t[2], t[5], t[8], t[11], t[14]), (':', ':', ' ', '/', '/'));
}

#[test]
fn default_matches_new() {
    let app = App::default();
    assert!(app.running);
    assert_eq!(app.active_workspace_id, None);
}

#[test]
fn tick_right_after_start_changes_nothing() {
    let mut app = App::new();
    let before = app.current_time.clone();
    let last = app.last_tick;
    assert!(!app.tick());
    assert_eq!(app.current_time, before);
    assert_eq!(app.last_tick, last);
}

#[test]
fn tick_gate_is_one_second() {
    assert!(!refresh_due(0));
    assert!(!refresh_due(999));
    assert!(refresh_due(1000));
    assert!(refresh_due(65000));
}

#[test]
fn tick_at_restamps_after_a_second() {
    let mut app = App::new();
    let now = Instant::now();
    assert!(app.tick_at(1000, now, &reading()));
    assert_eq!(app.current_time, "09:05:03 07/02/2024");
    assert_eq!(app.last_tick, now);
}

#[test]
fn second_tick_within_a_second_changes_nothing() {
    let mut app = App::new();
    let now = Instant::now();
    assert!(app.tick_at(1500, now, &reading()));
    let later = ClockReading { second: 4, ..reading() };
    assert!(!app.tick_at(999, Instant::now(), &later));
    assert_eq!(app.current_time, "09:05:03 07/02/2024");
    assert_eq!(app.last_tick, now);
    assert!(app.running);
}

#[test]
fn quit_is_final() {
    let mut app = App::new();
    app.quit();
    assert!(!app.running);
    app.tick_at(5000, Instant::now(), &reading());
    app.tick();
    app.refresh_metrics(sample(10, 1, 2, None));
    let _ = render(&app, Area { x: 0, y: 0, width: 80, height: 24 });
    assert!(!app.running);
}

#[test]
fn clock_text_pads_fields() {
    assert_eq!(clock_text(&reading()), "09:05:03 07/02/2024");
    let c = ClockReading { year: 987, month: 12, day: 31, hour: 23, minute: 59, second: 59 };
    assert_eq!(clock_text(&c), "23:59:59 31/12/0987");
}

#[test]
fn clock_text_signs_far_years() {
    let c = ClockReading { year: -1, ..reading() };
    assert_eq!(clock_text(&c), "09:05:03 07/02/-0001");
    let c = ClockReading { year: 12345, ..reading() };
    assert_eq!(clock_text(&c), "09:05:03 07/02/+12345");
}

#[test]
fn tracker_marks_focused_workspace() {
    assert_eq!(workspace_row(Some(3)), "● ● ● ○ ● ● ● ● ● ● ");
    assert_eq!(workspace_row(Some(0)), "○ ● ● ● ● ● ● ● ● ● ");
    assert_eq!(workspace_row(Some(9)), "● ● ● ● ● ● ● ● ● ○ ");
}

#[test]
fn tracker_uniform_without_focus_in_range() {
    let uniform = "● ● ● ● ● ● ● ● ● ● ";
    assert_eq!(workspace_row(None), uniform);
    assert_eq!(workspace_row(Some(10)), uniform);
    assert_eq!(workspace_row(Some(u32::MAX)), uniform);
}

#[test]
fn percent_has_two_decimals() {
    assert_eq!(percent_text("CPU Usage: ", 1234), "CPU Usage: 12.34%");
    assert_eq!(percent_text("RAM Usage: ", 5), "RAM Usage: 0.05%");
    assert_eq!(percent_text("RAM Usage: ", 10000), "RAM Usage: 100.00%");
    assert_eq!(percent_text("", 0), "0.00%");
}

#[test]
fn empty_grid_draws_nothing() {
    let app = App::new();
    assert!(render(&app, Area { x: 0, y: 0, width: 0, height: 30 }).is_empty());
    assert!(render(&app, Area { x: 3, y: 4, width: 120, height: 0 }).is_empty());
    assert!(render(&app, Area { x: 0, y: 0, width: 0, height: 0 }).is_empty());
}

#[test]
fn render_lays_out_middle_band() {
    let mut app = App::new();
    app.tick_at(2000, Instant::now(), &reading());
    app.refresh_metrics(sample(1234, 1, 4, Some("workspace ID 3 (3)")));
    let out = render(&app, Area { x: 0, y: 0, width: 100, height: 50 });
    assert_eq!(out.len(), 5);
    assert_eq!(out[0].text, "ʕ•ᴥ•ʔ");
    assert_eq!(out[0].alignment, Alignment::Left);
    assert_eq!(out[0].area, Area { x: 0, y: 24, width: 10, height: 2 });
    assert_eq!(out[1].text, "● ● ● ○ ● ● ● ● ● ● ");
    assert_eq!(out[1].alignment, Alignment::Center);
    assert_eq!(out[1].area, Area { x: 10, y: 24, width: 30, height: 2 });
    assert_eq!(out[2].text, "09:05:03 07/02/2024");
    assert_eq!(out[2].alignment, Alignment::Right);
    assert_eq!(out[2].area, Area { x: 76, y: 24, width: 24, height: 2 });
    assert_eq!(out[3].text, "CPU Usage: 12.34%");
    assert_eq!(out[3].alignment, Alignment::Center);
    assert_eq!(out[3].area, Area { x: 40, y: 24, width: 18, height: 2 });
    assert_eq!(out[4].text, "RAM Usage: 25.00%");
    assert_eq!(out[4].alignment, Alignment::Center);
    assert_eq!(out[4].area, Area { x: 58, y: 24, width: 18, height: 2 });
}

#[test]
fn new_at_stamps_given_reading() {
    let now = Instant::now();
    let app = App::new_at(now, &reading());
    assert!(app.running);
    assert_eq!(app.current_time, "09:05:03 07/02/2024");
    assert_eq!(app.last_tick, now);
    assert_eq!(app.cpu_usage, 0);
    assert_eq!(app.ram_usage, 0);
    assert_eq!(app.active_workspace_id, None);
}

#[test]
fn cpu_usage_held_to_full_share() {
    let mut app = App::new();
    app.refresh_metrics(sample(12000, 1, 2, None));
    assert_eq!(app.cpu_usage, 10000);
    app.refresh_metrics(sample(10000, 1, 2, None));
    assert_eq!(app.cpu_usage, 10000);
    app.refresh_metrics(sample(9999, 1, 2, None));
    assert_eq!(app.cpu_usage, 9999);
}

#[test]
fn non_numeric_workspace_word_clears_id() {
    let mut app = App::new();
    app.refresh_metrics(sample(0, 1, 2, Some("workspace ID 6 (6)")));
    assert_eq!(app.active_workspace_id, Some(6));
    app.refresh_metrics(sample(0, 1, 2, Some("workspace ID abc (x) on monitor DP-1:")));
    assert_eq!(app.active_workspace_id, None);
}
