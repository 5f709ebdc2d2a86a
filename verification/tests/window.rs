use floatbar::codex::is_probable_codex_desktop_title;
use floatbar::layout::{
    initial_size, FLOATBAR_DEFAULT_HEIGHT_H, FLOATBAR_DEFAULT_HEIGHT_V, FLOATBAR_DEFAULT_WIDTH_H,
    FLOATBAR_DEFAULT_WIDTH_V,
};
use floatbar::opacity::opacity_to_alpha;

#[test]
fn opacity_to_alpha_clamps_low_values() {
    assert_eq!(opacity_to_alpha(0), opacity_to_alpha(30));
    assert_eq!(opacity_to_alpha(10), opacity_to_alpha(30));
}

#[test]
fn opacity_to_alpha_full_is_255() {
    assert_eq!(opacity_to_alpha(100), 255);
}

#[test]
fn opacity_to_alpha_is_monotonic() {
    let a = opacity_to_alpha(30);
    let b = opacity_to_alpha(60);
    let c = opacity_to_alpha(100);
    assert!(a < b);
    assert!(b < c);
}

#[test]
fn opacity_to_alpha_midpoint() {
    // 50% should be roughly half of 255.
    let alpha = opacity_to_alpha(50);
    assert!((125..=130).contains(&alpha), "got {alpha}");
}

#[test]
fn initial_size_picks_orientation() {
    assert_eq!(
        initial_size("horizontal"),
        (FLOATBAR_DEFAULT_WIDTH_H, FLOATBAR_DEFAULT_HEIGHT_H)
    );
    assert_eq!(
        initial_size("vertical"),
        (FLOATBAR_DEFAULT_WIDTH_V, FLOATBAR_DEFAULT_HEIGHT_V)
    );
    // Unknown values fall through to horizontal so a corrupted setting
    // can't yield an unreadable strip.
    assert_eq!(
        initial_size("diagonal"),
        (FLOATBAR_DEFAULT_WIDTH_H, FLOATBAR_DEFAULT_HEIGHT_H)
    );
}

#[test]
fn codex_title_match_excludes_our_own_windows() {
    assert!(!is_probable_codex_desktop_title("CodexBar"));
    assert!(!is_probable_codex_desktop_title("Codex 余量条"));
    assert!(!is_probable_codex_desktop_title("Codex Usage Bar"));
}

#[test]
fn codex_title_match_allows_desktop_threads() {
    assert!(is_probable_codex_desktop_title("添加 Codex 余量监控插件"));
    assert!(is_probable_codex_desktop_title("Codex"));
}
