use vstd::prelude::*;

use crate::text::str_equal;

verus! {

/// Label of the floating-bar window; also its key in the geometry store.
pub const FLOATBAR_LABEL: &'static str = "floatbar";

/// Event emitted when the floating-bar configuration changes.
pub const FLOAT_BAR_CONFIG_CHANGED_EVENT: &'static str = "float-bar-config-changed";

/// Default width, in logical pixels, of the horizontal bar.
pub const FLOATBAR_DEFAULT_WIDTH_H: u32 = 360;

/// Default height, in logical pixels, of the horizontal bar.
pub const FLOATBAR_DEFAULT_HEIGHT_H: u32 = 36;

/// Default width, in logical pixels, of the vertical bar.
pub const FLOATBAR_DEFAULT_WIDTH_V: u32 = 195;

/// Default height, in logical pixels, of the vertical bar.
pub const FLOATBAR_DEFAULT_HEIGHT_V: u32 = 420;

/// The initial (width, height) of the bar for an orientation setting: the
/// vertical size for exactly "vertical", the horizontal size for anything
/// else.
pub open spec fn initial_size_for(orientation: Seq<char>) -> (u32, u32) {
    if orientation == "vertical"@ {
        (FLOATBAR_DEFAULT_WIDTH_V, FLOATBAR_DEFAULT_HEIGHT_V)
    } else {
        (FLOATBAR_DEFAULT_WIDTH_H, FLOATBAR_DEFAULT_HEIGHT_H)
    }
}

/// Initial dimensions (logical pixels) of the floating bar for an
/// orientation string. Unknown values fall back to horizontal so callers
/// don't have to pre-validate.
pub fn initial_size(orientation: &str) -> (size: (u32, u32))
    ensures
        size == initial_size_for(orientation@),
        size == (if orientation@ == "vertical"@ {
            (195u32, 420u32)
        } else {
            (360u32, 36u32)
        }),
{
    if str_equal(orientation, "vertical") {
        (FLOATBAR_DEFAULT_WIDTH_V, FLOATBAR_DEFAULT_HEIGHT_V)
    } else {
        (FLOATBAR_DEFAULT_WIDTH_H, FLOATBAR_DEFAULT_HEIGHT_H)
    }
}

/// The page that the bar's webview loads for an orientation setting.
pub open spec fn floatbar_url_for(orientation: Seq<char>) -> Seq<char> {
    "index.html?window=floatbar&orientation="@ + orientation
}

/// The app-relative URL of the bar's page, carrying the orientation.
pub fn floatbar_url(orientation: &str) -> (url: String)
    ensures
        url@ == floatbar_url_for(orientation@),
        url@ == "index.html?window=floatbar&orientation="@ + orientation@,
{
    let mut url = String::from_str("index.html?window=floatbar&orientation=");
    url.append(orientation);
    url
}

/// The page URL is the fixed prefix followed by the whole orientation
/// string: it ends with every character of the orientation, in order, and
/// its length is the prefix's plus the orientation's.
pub proof fn lemma_url_carries_whole_orientation(orientation: Seq<char>)
    ensures
        floatbar_url_for(orientation) == "index.html?window=floatbar&orientation="@ + orientation,
        floatbar_url_for(orientation).len() == "index.html?window=floatbar&orientation="@.len()
            + orientation.len(),
        floatbar_url_for(orientation).subrange(
            "index.html?window=floatbar&orientation="@.len() as int,
            floatbar_url_for(orientation).len() as int,
        ) == orientation,
{
    let prefix = "index.html?window=floatbar&orientation="@;
    assert((prefix + orientation).subrange(prefix.len() as int, (prefix + orientation).len() as int)
        =~= orientation);
}

/// Whether a bar style opens near the bottom of the monitor (the taskbar
/// style) rather than near its top.
pub fn opens_near_bottom(style: &str) -> (r: bool)
    ensures
        r == (style@ == "taskbar"@),
{
    str_equal(style, "taskbar")
}

} // verus!
