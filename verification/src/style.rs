use vstd::prelude::*;

verus! {

/// Extended window style bit that makes a window layered, so that a
/// per-window alpha can be applied.
pub const WS_EX_LAYERED: isize = 0x00080000;

/// Extended window style bit that keeps a window from being activated when
/// it is shown or clicked.
pub const WS_EX_NOACTIVATE: isize = 0x08000000;

/// Extended window style bit that lets mouse input pass through a window to
/// the one beneath.
pub const WS_EX_TRANSPARENT: isize = 0x00000020;

/// `new` is `old` with every bit of `set` turned on, every bit of `clear`
/// turned off, and every other bit left as it was.
pub open spec fn styled(old: isize, new: isize, set: isize, clear: isize) -> bool {
    &&& new & set == set
    &&& new & clear == 0
    &&& new & !(set | clear) == old & !(set | clear)
}

/// The bits that click-through mode turns on.
pub open spec fn click_through_set(click_through: bool) -> isize {
    if click_through {
        WS_EX_LAYERED | WS_EX_TRANSPARENT
    } else {
        WS_EX_LAYERED
    }
}

/// The bits that click-through mode turns off.
pub open spec fn click_through_clear(click_through: bool) -> isize {
    if click_through {
        0
    } else {
        WS_EX_TRANSPARENT
    }
}

/// The style change that makes a window layered: `None` when the layered bit
/// is already set, else the style with that bit turned on and every other
/// bit kept.
pub fn layered_style_update(ex_style: isize) -> (r: Option<isize>)
    ensures
        r is None <==> styled(ex_style, ex_style, WS_EX_LAYERED, 0),
        r matches Some(new_style) ==> styled(ex_style, new_style, WS_EX_LAYERED, 0),
        r is None <==> ex_style & 0x00080000 != 0,
        r matches Some(new_style) ==> new_style & 0x00080000 != 0 && new_style & !0x00080000
            == ex_style & !0x00080000,
{
    if ex_style & WS_EX_LAYERED == 0 {
        let new_style = ex_style | WS_EX_LAYERED;
        assert(styled(ex_style, new_style, WS_EX_LAYERED, 0)) by (bit_vector)
            requires
                new_style == ex_style | WS_EX_LAYERED,
        ;
        assert(!styled(ex_style, ex_style, WS_EX_LAYERED, 0)) by (bit_vector)
            requires
                ex_style & WS_EX_LAYERED == 0,
        ;
        assert(new_style & 0x00080000 != 0 && new_style & !0x00080000 == ex_style & !0x00080000) by (bit_vector)
            requires
                new_style == ex_style | WS_EX_LAYERED,
        ;
        Some(new_style)
    } else {
        assert(styled(ex_style, ex_style, WS_EX_LAYERED, 0)) by (bit_vector)
            requires
                ex_style & WS_EX_LAYERED != 0,
        ;
        None
    }
}

/// The style change that keeps a window from activating: `None` when the
/// no-activate bit is already set, else the style with that bit turned on
/// and every other bit kept.
pub fn no_activate_style_update(ex_style: isize) -> (r: Option<isize>)
    ensures
        r is None <==> styled(ex_style, ex_style, WS_EX_NOACTIVATE, 0),
        r matches Some(new_style) ==> styled(ex_style, new_style, WS_EX_NOACTIVATE, 0),
        r is None <==> ex_style & 0x08000000 != 0,
        r matches Some(new_style) ==> new_style & 0x08000000 != 0 && new_style & !0x08000000
            == ex_style & !0x08000000,
{
    if ex_style & WS_EX_NOACTIVATE == 0 {
        let new_style = ex_style | WS_EX_NOACTIVATE;
        assert(styled(ex_style, new_style, WS_EX_NOACTIVATE, 0)) by (bit_vector)
            requires
                new_style == ex_style | WS_EX_NOACTIVATE,
        ;
        assert(!styled(ex_style, ex_style, WS_EX_NOACTIVATE, 0)) by (bit_vector)
            requires
                ex_style & WS_EX_NOACTIVATE == 0,
        ;
        assert(new_style & 0x08000000 != 0 && new_style & !0x08000000 == ex_style & !0x08000000) by (bit_vector)
            requires
                new_style == ex_style | WS_EX_NOACTIVATE,
        ;
        Some(new_style)
    } else {
        assert(styled(ex_style, ex_style, WS_EX_NOACTIVATE, 0)) by (bit_vector)
            requires
                ex_style & WS_EX_NOACTIVATE != 0,
        ;
        None
    }
}

/// The style change for click-through mode: the window is made layered, and
/// the transparent bit is turned on when `click_through` holds and off when
/// it does not; every other bit is kept. `None` when the style is already so.
pub fn click_through_style_update(ex_style: isize, click_through: bool) -> (r: Option<isize>)
    ensures
        r is None <==> styled(
            ex_style,
            ex_style,
            click_through_set(click_through),
            click_through_clear(click_through),
        ),
        r matches Some(new_style) ==> styled(
            ex_style,
            new_style,
            click_through_set(click_through),
            click_through_clear(click_through),
        ),
        r is None <==> (ex_style & 0x00080000 != 0 && (ex_style & 0x20 != 0) == click_through),
        r matches Some(new_style) ==> new_style & 0x00080000 != 0 && (new_style & 0x20 != 0)
            == click_through && new_style & !0x00080020 == ex_style & !0x00080020,
{
    let mut new_style = ex_style | WS_EX_LAYERED;
    if click_through {
        new_style = new_style | WS_EX_TRANSPARENT;
        assert(styled(ex_style, new_style, WS_EX_LAYERED | WS_EX_TRANSPARENT, 0)) by (bit_vector)
            requires
                new_style == (ex_style | WS_EX_LAYERED) | WS_EX_TRANSPARENT,
        ;
        assert(styled(ex_style, ex_style, WS_EX_LAYERED | WS_EX_TRANSPARENT, 0) <==> new_style
            == ex_style) by (bit_vector)
            requires
                new_style == (ex_style | WS_EX_LAYERED) | WS_EX_TRANSPARENT,
        ;
    } else {
        new_style = new_style & !WS_EX_TRANSPARENT;
        assert(styled(ex_style, new_style, WS_EX_LAYERED, WS_EX_TRANSPARENT)) by (bit_vector)
            requires
                new_style == (ex_style | WS_EX_LAYERED) & !WS_EX_TRANSPARENT,
        ;
        assert(styled(ex_style, ex_style, WS_EX_LAYERED, WS_EX_TRANSPARENT) <==> new_style
            == ex_style) by (bit_vector)
            requires
                new_style == (ex_style | WS_EX_LAYERED) & !WS_EX_TRANSPARENT,
        ;
    }
    assert(new_style & 0x00080000 != 0 && (new_style & 0x20 != 0) == click_through && new_style
        & !0x00080020 == ex_style & !0x00080020 && (new_style == ex_style <==> (ex_style & 0x00080000
        != 0 && (ex_style & 0x20 != 0) == click_through))) by (bit_vector)
        requires
            click_through ==> new_style == (ex_style | 0x00080000) | 0x20,
            !click_through ==> new_style == (ex_style | 0x00080000) & !0x20,
    ;
    if new_style != ex_style {
        Some(new_style)
    } else {
        None
    }
}

/// A style change is determined by the bits it sets and clears: two results
/// of the same change to the same style are equal.
pub proof fn lemma_styled_unique(old: isize, a: isize, b: isize, set: isize, clear: isize)
    requires
        styled(old, a, set, clear),
        styled(old, b, set, clear),
    ensures
        a == b,
{
    assert(a == b) by (bit_vector)
        requires
            a & set == set,
            a & clear == 0,
            a & !(set | clear) == old & !(set | clear),
            b & set == set,
            b & clear == 0,
            b & !(set | clear) == old & !(set | clear),
    ;
}

/// Re-applying a style change to its own result changes nothing, so each
/// update asks for no further change once applied.
pub proof fn lemma_styled_idempotent(old: isize, new: isize, set: isize, clear: isize)
    requires
        styled(old, new, set, clear),
    ensures
        styled(new, new, set, clear),
{
    assert(new & !(set | clear) == new & !(set | clear));
}

/// Of two click-through settings applied in turn, the last one wins: the
/// result is the first style with only the second setting applied.
pub proof fn lemma_click_through_last_wins(
    ex_style: isize,
    first: bool,
    second: bool,
    mid: isize,
    last: isize,
)
    requires
        styled(ex_style, mid, click_through_set(first), click_through_clear(first)),
        styled(mid, last, click_through_set(second), click_through_clear(second)),
    ensures
        styled(ex_style, last, click_through_set(second), click_through_clear(second)),
{
    let s1 = click_through_set(first);
    let c1 = click_through_clear(first);
    let s2 = click_through_set(second);
    let c2 = click_through_clear(second);
    assert(s1 | c1 == WS_EX_LAYERED | WS_EX_TRANSPARENT) by (bit_vector)
        requires
            (s1 == WS_EX_LAYERED | WS_EX_TRANSPARENT && c1 == 0) || (s1 == WS_EX_LAYERED && c1
                == WS_EX_TRANSPARENT),
    ;
    assert(s2 | c2 == WS_EX_LAYERED | WS_EX_TRANSPARENT) by (bit_vector)
        requires
            (s2 == WS_EX_LAYERED | WS_EX_TRANSPARENT && c2 == 0) || (s2 == WS_EX_LAYERED && c2
                == WS_EX_TRANSPARENT),
    ;
    let m = WS_EX_LAYERED | WS_EX_TRANSPARENT;
    assert(last & !m == ex_style & !m);
}

/// The resize step re-asserts the interaction invariants: no-activate
/// followed by the click-through setting leaves the window non-activating,
/// layered, transparent exactly when click-through is on, and every other
/// bit as it was.
pub proof fn lemma_resize_reasserts_invariants(
    ex_style: isize,
    click_through: bool,
    mid: isize,
    last: isize,
)
    requires
        styled(ex_style, mid, WS_EX_NOACTIVATE, 0),
        styled(mid, last, click_through_set(click_through), click_through_clear(click_through)),
    ensures
        styled(
            ex_style,
            last,
            WS_EX_NOACTIVATE | click_through_set(click_through),
            click_through_clear(click_through),
        ),
{
    if click_through {
        assert(styled(ex_style, last, WS_EX_NOACTIVATE | (WS_EX_LAYERED | WS_EX_TRANSPARENT), 0))
            by (bit_vector)
            requires
                mid & WS_EX_NOACTIVATE == WS_EX_NOACTIVATE,
                mid & !(WS_EX_NOACTIVATE | 0) == ex_style & !(WS_EX_NOACTIVATE | 0),
                last & (WS_EX_LAYERED | WS_EX_TRANSPARENT) == WS_EX_LAYERED | WS_EX_TRANSPARENT,
                last & !((WS_EX_LAYERED | WS_EX_TRANSPARENT) | 0) == mid & !((WS_EX_LAYERED
                    | WS_EX_TRANSPARENT) | 0),
        ;
    } else {
        assert(styled(ex_style, last, WS_EX_NOACTIVATE | WS_EX_LAYERED, WS_EX_TRANSPARENT))
            by (bit_vector)
            requires
                mid & WS_EX_NOACTIVATE == WS_EX_NOACTIVATE,
                mid & !(WS_EX_NOACTIVATE | 0) == ex_style & !(WS_EX_NOACTIVATE | 0),
                last & WS_EX_LAYERED == WS_EX_LAYERED,
                last & WS_EX_TRANSPARENT == 0,
                last & !(WS_EX_LAYERED | WS_EX_TRANSPARENT) == mid & !(WS_EX_LAYERED
                    | WS_EX_TRANSPARENT),
        ;
    }
}

/// Showing the bar applies no-activate, the layered bit for its opacity and
/// the click-through setting in turn; the result is non-activating, layered,
/// transparent exactly when click-through is on, with every other bit as it
/// was.
pub proof fn lemma_show_establishes_invariants(
    ex_style: isize,
    click_through: bool,
    first: isize,
    second: isize,
    last: isize,
)
    requires
        styled(ex_style, first, WS_EX_NOACTIVATE, 0),
        styled(first, second, WS_EX_LAYERED, 0),
        styled(second, last, click_through_set(click_through), click_through_clear(click_through)),
    ensures
        styled(
            ex_style,
            last,
            WS_EX_NOACTIVATE | click_through_set(click_through),
            click_through_clear(click_through),
        ),
{
    assert(styled(first, last, click_through_set(click_through), click_through_clear(click_through)))
        by {
        if click_through {
            assert(styled(first, last, WS_EX_LAYERED | WS_EX_TRANSPARENT, 0)) by (bit_vector)
                requires
                    second & WS_EX_LAYERED == WS_EX_LAYERED,
                    second & !(WS_EX_LAYERED | 0) == first & !(WS_EX_LAYERED | 0),
                    last & (WS_EX_LAYERED | WS_EX_TRANSPARENT) == WS_EX_LAYERED | WS_EX_TRANSPARENT,
                    last & !((WS_EX_LAYERED | WS_EX_TRANSPARENT) | 0) == second & !((WS_EX_LAYERED
                        | WS_EX_TRANSPARENT) | 0),
            ;
        } else {
            assert(styled(first, last, WS_EX_LAYERED, WS_EX_TRANSPARENT)) by (bit_vector)
                requires
                    second & WS_EX_LAYERED == WS_EX_LAYERED,
                    second & !(WS_EX_LAYERED | 0) == first & !(WS_EX_LAYERED | 0),
                    last & WS_EX_LAYERED == WS_EX_LAYERED,
                    last & WS_EX_TRANSPARENT == 0,
                    last & !(WS_EX_LAYERED | WS_EX_TRANSPARENT) == second & !(WS_EX_LAYERED
                        | WS_EX_TRANSPARENT),
            ;
        }
    }
    lemma_resize_reasserts_invariants(ex_style, click_through, first, last);
}

} // verus!
