use floatbar::codex::{codex_window_verdict, is_probable_codex_desktop_title, WindowVerdict};
use floatbar::dock::{
    dock_arithmetic_fits, dock_step, docked_position, DockAction, ForegroundWindow, Rect,
};
use floatbar::layout::{floatbar_url, initial_size, opens_near_bottom, FLOATBAR_LABEL};
use floatbar::opacity::opacity_to_alpha;
use floatbar::style::{
    click_through_style_update, layered_style_update, no_activate_style_update, WS_EX_LAYERED,
    WS_EX_NOACTIVATE, WS_EX_TRANSPARENT,
};
use floatbar::text::{
    ascii_lowercase, chars_of, contains_str, eq_ignore_ascii_case, str_equal,
};

fn applied(style: isize, update: Option<isize>) -> isize {
    update.unwrap_or(style)
}

#[test]
fn alpha_exact_values() {
    assert_eq!(opacity_to_alpha(30), 76);
    assert_eq!(opacity_to_alpha(50), 127);
    assert_eq!(opacity_to_alpha(99), 252);
    assert_eq!(opacity_to_alpha(101), 255);
    assert_eq!(opacity_to_alpha(255), 255);
}

#[test]
fn alpha_never_invisible_and_monotonic_everywhere() {
    let mut previous = opacity_to_alpha(0);
    assert_eq!(previous, 76);
    for opacity in 1..=255u8 {
        let alpha = opacity_to_alpha(opacity);
        assert!(alpha >= 76);
        assert!(alpha >= previous);
        if (31..=100).contains(&opacity) {
            assert!(alpha > previous);
        }
        previous = alpha;
    }
}

#[test]
fn layered_update_sets_only_its_bit() {
    assert_eq!(layered_style_update(0), Some(WS_EX_LAYERED));
    assert_eq!(layered_style_update(0x100), Some(0x100 | WS_EX_LAYERED));
    assert_eq!(layered_style_update(WS_EX_LAYERED | 0x4), None);
    let once = applied(0x11, layered_style_update(0x11));
    assert_eq!(layered_style_update(once), None);
}

#[test]
fn no_activate_update_sets_only_its_bit() {
    assert_eq!(no_activate_style_update(0x20), Some(0x20 | WS_EX_NOACTIVATE));
    assert_eq!(no_activate_style_update(WS_EX_NOACTIVATE), None);
    assert_eq!(no_activate_style_update(-1), None);
}

#[test]
fn click_through_update_toggles_transparent() {
    assert_eq!(
        click_through_style_update(0, true),
        Some(WS_EX_LAYERED | WS_EX_TRANSPARENT)
    );
    assert_eq!(click_through_style_update(0, false), Some(WS_EX_LAYERED));
    assert_eq!(
        click_through_style_update(WS_EX_LAYERED | WS_EX_TRANSPARENT | 0x1, false),
        Some(WS_EX_LAYERED | 0x1)
    );
    assert_eq!(click_through_style_update(WS_EX_LAYERED, false), None);
    assert_eq!(
        click_through_style_update(WS_EX_LAYERED | WS_EX_TRANSPARENT, true),
        None
    );
}

#[test]
fn click_through_last_setting_wins() {
    let start: isize = 0x400;
    let on = applied(start, click_through_style_update(start, true));
    let off = applied(on, click_through_style_update(on, false));
    assert_eq!(off, applied(start, click_through_style_update(start, false)));
    assert_eq!(off, 0x400 | WS_EX_LAYERED);
}

#[test]
fn resize_and_show_reassert_invariants() {
    let start: isize = 0x10;
    let after_no_activate = applied(start, no_activate_style_update(start));
    let after_layered = applied(after_no_activate, layered_style_update(after_no_activate));
    let shown = applied(after_layered, click_through_style_update(after_layered, true));
    assert_eq!(shown, 0x10 | WS_EX_NOACTIVATE | WS_EX_LAYERED | WS_EX_TRANSPARENT);
    let resized_mid = applied(shown, no_activate_style_update(shown));
    let resized = applied(resized_mid, click_through_style_update(resized_mid, false));
    assert_eq!(resized, 0x10 | WS_EX_NOACTIVATE | WS_EX_LAYERED);
}

#[test]
fn dock_centres_beside_window() {
    let rect = Rect { left: 0, top: 100, right: 800, bottom: 700 };
    assert!(dock_arithmetic_fits(rect, 36));
    assert_eq!(docked_position(rect, 36), Some((810, 382)));
    // Odd spare space rounds the top margin down.
    assert_eq!(docked_position(rect, 35), Some((810, 382)));
}

#[test]
fn dock_keeps_minimum_top_offset() {
    let rect = Rect { left: -50, top: 10, right: 150, bottom: 40 };
    assert!(dock_arithmetic_fits(rect, 420));
    assert_eq!(docked_position(rect, 420), Some((160, 22)));
}

#[test]
fn dock_hides_for_empty_window() {
    let flat = Rect { left: 0, top: 100, right: 800, bottom: 100 };
    assert!(dock_arithmetic_fits(flat, 36));
    assert_eq!(docked_position(flat, 36), None);
    let inverted = Rect { left: 800, top: 100, right: 0, bottom: 700 };
    assert_eq!(docked_position(inverted, 36), None);
}

#[test]
fn dock_reports_overflowing_arithmetic() {
    let edge = Rect { left: 0, top: 0, right: i32::MAX, bottom: 100 };
    assert!(!dock_arithmetic_fits(edge, 36));
    let wide = Rect { left: i32::MIN, top: 0, right: 1, bottom: 100 };
    assert!(!dock_arithmetic_fits(wide, 36));
}

#[test]
fn verdict_rejects_unknown_and_own_process() {
    assert_eq!(codex_window_verdict(0, 5, "Codex.exe"), WindowVerdict::NotCodex);
    assert_eq!(codex_window_verdict(5, 5, "Codex.exe"), WindowVerdict::NotCodex);
}

#[test]
fn verdict_rejects_usage_bar_executables() {
    assert_eq!(codex_window_verdict(7, 5, "CodexBar.exe"), WindowVerdict::NotCodex);
    assert_eq!(
        codex_window_verdict(7, 5, "Codex-Usage-Bar.exe"),
        WindowVerdict::NotCodex
    );
}

#[test]
fn verdict_accepts_codex_executables_in_any_case() {
    assert_eq!(codex_window_verdict(7, 5, "CODEX.EXE"), WindowVerdict::Codex);
    assert_eq!(codex_window_verdict(7, 5, "codex"), WindowVerdict::Codex);
    assert_eq!(codex_window_verdict(7, 5, "Codex Desktop.exe"), WindowVerdict::Codex);
}

#[test]
fn verdict_defers_other_processes_to_title() {
    assert_eq!(codex_window_verdict(7, 5, "electron.exe"), WindowVerdict::DecideByTitle);
    assert_eq!(codex_window_verdict(7, 5, ""), WindowVerdict::DecideByTitle);
    assert_eq!(codex_window_verdict(7, 5, "codex.exe.bak"), WindowVerdict::DecideByTitle);
}

#[test]
fn title_match_ignores_ascii_case_and_needs_codex() {
    assert!(is_probable_codex_desktop_title("my CODEX thread"));
    assert!(!is_probable_codex_desktop_title("Visual Studio Code"));
    assert!(!is_probable_codex_desktop_title(""));
    assert!(!is_probable_codex_desktop_title("CODEX QUOTA monitor"));
    assert!(!is_probable_codex_desktop_title("codex bar"));
}

#[test]
fn initial_size_is_exact_about_vertical() {
    assert_eq!(initial_size("Vertical"), (360, 36));
    assert_eq!(initial_size(""), (360, 36));
    assert_eq!(initial_size("vertical"), (195, 420));
}

#[test]
fn url_carries_orientation() {
    assert_eq!(
        floatbar_url("vertical"),
        "index.html?window=floatbar&orientation=vertical"
    );
    assert_eq!(floatbar_url(""), "index.html?window=floatbar&orientation=");
    assert_eq!(FLOATBAR_LABEL, "floatbar");
}

#[test]
fn only_taskbar_style_opens_near_bottom() {
    assert!(opens_near_bottom("taskbar"));
    assert!(!opens_near_bottom("floating"));
    assert!(!opens_near_bottom("Taskbar"));
}

#[test]
fn text_helpers() {
    assert_eq!(chars_of("a余b"), vec!['a', '余', 'b']);
    assert_eq!(ascii_lowercase("AbÇ余Z"), vec!['a', 'b', 'Ç', '余', 'z']);
    assert!(contains_str(&chars_of("abc余量条"), "余量"));
    assert!(!contains_str(&chars_of("ab"), "abc"));
    assert!(contains_str(&chars_of("ab"), ""));
    assert!(eq_ignore_ascii_case("CoDeX.exe", "codex.EXE"));
    assert!(!eq_ignore_ascii_case("Ç", "ç"));
    assert!(str_equal("same", "same"));
    assert!(!str_equal("same", "Same"));
}

fn codex_window(rect: Rect) -> ForegroundWindow {
    ForegroundWindow { visible: true, minimized: false, is_codex: true, rect: Some(rect) }
}

#[test]
fn dock_step_docks_beside_codex() {
    let rect = Rect { left: 0, top: 100, right: 800, bottom: 700 };
    assert_eq!(dock_step(Some(codex_window(rect)), Some(36)), DockAction::MoveTo(810, 382));
}

#[test]
fn dock_step_hides_when_codex_is_not_usable() {
    let rect = Rect { left: 0, top: 100, right: 800, bottom: 700 };
    assert_eq!(dock_step(None, Some(36)), DockAction::Hide);
    let minimized = ForegroundWindow { minimized: true, ..codex_window(rect) };
    assert_eq!(dock_step(Some(minimized), Some(36)), DockAction::Hide);
    let hidden = ForegroundWindow { visible: false, ..codex_window(rect) };
    assert_eq!(dock_step(Some(hidden), Some(36)), DockAction::Hide);
    let other = ForegroundWindow { is_codex: false, ..codex_window(rect) };
    assert_eq!(dock_step(Some(other), Some(36)), DockAction::Hide);
    let unreadable = ForegroundWindow { rect: None, ..codex_window(rect) };
    assert_eq!(dock_step(Some(unreadable), Some(36)), DockAction::Hide);
    let empty = Rect { left: 0, top: 100, right: 0, bottom: 700 };
    assert_eq!(dock_step(Some(codex_window(empty)), Some(36)), DockAction::Hide);
}

#[test]
fn dock_step_keeps_bar_when_its_size_is_unknown() {
    let rect = Rect { left: 0, top: 100, right: 800, bottom: 700 };
    assert_eq!(dock_step(Some(codex_window(rect)), None), DockAction::Keep);
}

#[test]
fn dock_step_reports_overflow() {
    let rect = Rect { left: 0, top: 0, right: i32::MAX, bottom: 100 };
    assert_eq!(dock_step(Some(codex_window(rect)), Some(36)), DockAction::Overflow);
}
