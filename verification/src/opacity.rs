use vstd::prelude::*;

verus! {

/// Lowest opacity percentage the bar is ever shown with.
pub const MIN_OPACITY: u8 = 30;

/// Highest opacity percentage.
pub const MAX_OPACITY: u8 = 100;

/// The opacity percentage clamped into `MIN_OPACITY..=MAX_OPACITY`.
pub open spec fn clamped_opacity(opacity: u8) -> int {
    if opacity < MIN_OPACITY {
        MIN_OPACITY as int
    } else if opacity > MAX_OPACITY {
        MAX_OPACITY as int
    } else {
        opacity as int
    }
}

/// The alpha byte for an opacity percentage: the clamped percentage scaled
/// to `0..=255`, rounded down.
pub open spec fn alpha_for(opacity: u8) -> int {
    clamped_opacity(opacity) * 255 / 100
}

/// Convert a 0..=100 opacity value to a layered-window alpha byte (0..=255).
/// Values below 30 are clamped so the bar is never fully invisible.
pub fn opacity_to_alpha(opacity: u8) -> (alpha: u8)
    ensures
        alpha == alpha_for(opacity),
        alpha == (if opacity < 30 {
            30
        } else if opacity > 100 {
            100
        } else {
            opacity as int
        }) * 255 / 100,
{
    let clamped: u8 = if opacity < MIN_OPACITY {
        MIN_OPACITY
    } else if opacity > MAX_OPACITY {
        MAX_OPACITY
    } else {
        opacity
    };
    let scaled: u32 = (clamped as u32) * 255 / 100;
    scaled as u8
}

/// Every opacity at or below the floor gives the floor's alpha.
pub proof fn lemma_low_opacity_clamped(opacity: u8)
    requires
        opacity <= MIN_OPACITY,
    ensures
        alpha_for(opacity) == alpha_for(MIN_OPACITY),
{
}

/// Every opacity at or above full opacity gives the full alpha byte.
pub proof fn lemma_high_opacity_full(opacity: u8)
    requires
        opacity >= MAX_OPACITY,
    ensures
        alpha_for(opacity) == 255,
{
}

/// The bar is never fully invisible: every alpha lies between the floor's
/// alpha, 76, and 255.
pub proof fn lemma_alpha_bounds(opacity: u8)
    ensures
        alpha_for(MIN_OPACITY) == 76,
        alpha_for(MAX_OPACITY) == 255,
        76 <= alpha_for(opacity) <= 255,
{
    let c = clamped_opacity(opacity);
    assert(30 * 255 <= c * 255 <= 100 * 255) by (nonlinear_arith)
        requires
            30 <= c <= 100,
    ;
}

/// A higher opacity never gives a lower alpha.
pub proof fn lemma_alpha_monotonic(low: u8, high: u8)
    requires
        low <= high,
    ensures
        alpha_for(low) <= alpha_for(high),
{
    let a = clamped_opacity(low);
    let b = clamped_opacity(high);
    assert(a * 255 / 100 <= b * 255 / 100) by (nonlinear_arith)
        requires
            0 <= a <= b,
    ;
}

/// Inside the clamped range a higher opacity gives a strictly higher alpha.
pub proof fn lemma_alpha_strictly_increasing(low: u8, high: u8)
    requires
        MIN_OPACITY <= low < high <= MAX_OPACITY,
    ensures
        alpha_for(low) < alpha_for(high),
{
    let a = low as int;
    let b = high as int;
    assert(a * 255 / 100 < b * 255 / 100) by (nonlinear_arith)
        requires
            0 <= a < b,
    ;
}

} // verus!
