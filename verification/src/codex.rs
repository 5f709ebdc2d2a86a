use vstd::prelude::*;

use crate::text::{
    ascii_lower_seq, ascii_lowercase, contains_seq, contains_str, eq_ignore_ascii_case,
    eq_ignore_ascii_case_seq,
};

verus! {

/// A lower-cased title that names one of the usage-bar windows (this app
/// and its relatives) rather than the Codex desktop app.
pub open spec fn names_usage_bar(lowered: Seq<char>) -> bool {
    ||| contains_seq(lowered, "codexbar"@)
    ||| contains_seq(lowered, "codex bar"@)
    ||| contains_seq(lowered, "codex usage bar"@)
    ||| contains_seq(lowered, "codex quota"@)
    ||| contains_seq(lowered, "codex 余量条"@)
}

/// A window title that probably belongs to the Codex desktop app: it mentions
/// "codex" in any ASCII case and names none of the usage-bar windows.
pub open spec fn is_probable_codex_title(title: Seq<char>) -> bool {
    let lowered = ascii_lower_seq(title);
    contains_seq(lowered, "codex"@) && !names_usage_bar(lowered)
}

/// Whether a window title probably belongs to the Codex desktop app.
pub fn is_probable_codex_desktop_title(title: &str) -> (r: bool)
    ensures
        r == is_probable_codex_title(title@),
        r <==> ({
            let lowered = ascii_lower_seq(title@);
            &&& contains_seq(lowered, "codex"@)
            &&& !contains_seq(lowered, "codexbar"@)
            &&& !contains_seq(lowered, "codex bar"@)
            &&& !contains_seq(lowered, "codex usage bar"@)
            &&& !contains_seq(lowered, "codex quota"@)
            &&& !contains_seq(lowered, "codex 余量条"@)
        }),
{
    let normalized = ascii_lowercase(title);
    if !contains_str(&normalized, "codex") {
        return false;
    }
    let blocked = contains_str(&normalized, "codexbar") || contains_str(&normalized, "codex bar")
        || contains_str(&normalized, "codex usage bar") || contains_str(&normalized, "codex quota")
        || contains_str(&normalized, "codex 余量条");
    !blocked
}

/// What the owning process of a foreground window says about whether the
/// window is the Codex desktop app.
#[derive(PartialEq, Eq, Structural, Debug, Clone, Copy)]
pub enum WindowVerdict {
    /// Not the Codex desktop app.
    NotCodex,
    /// The Codex desktop app.
    Codex,
    /// The process is undecided; the window title decides.
    DecideByTitle,
}

/// An executable name that belongs to one of the usage-bar apps.
pub open spec fn exe_names_usage_bar(exe_name: Seq<char>) -> bool {
    let lowered = ascii_lower_seq(exe_name);
    contains_seq(lowered, "codexbar"@) || contains_seq(lowered, "codex-usage-bar"@)
}

/// An executable name of the Codex desktop app, in any ASCII case.
pub open spec fn exe_is_codex(exe_name: Seq<char>) -> bool {
    ||| eq_ignore_ascii_case_seq(exe_name, "codex.exe"@)
    ||| eq_ignore_ascii_case_seq(exe_name, "codex"@)
    ||| eq_ignore_ascii_case_seq(exe_name, "codex desktop.exe"@)
}

/// The verdict for a window owned by process `process_id` whose executable
/// file name is `exe_name`, seen from the process `own_process_id`. No
/// process (0) and our own process never count; then usage-bar executables
/// never count; then the Codex executables always count; any other process
/// leaves the decision to the title.
pub open spec fn process_verdict(process_id: u32, own_process_id: u32, exe_name: Seq<char>) -> WindowVerdict {
    if process_id == 0 || process_id == own_process_id {
        WindowVerdict::NotCodex
    } else if exe_names_usage_bar(exe_name) {
        WindowVerdict::NotCodex
    } else if exe_is_codex(exe_name) {
        WindowVerdict::Codex
    } else {
        WindowVerdict::DecideByTitle
    }
}

/// Whether a window is the Codex desktop app, given its owning process, our
/// own process, the executable file name and the window title.
pub open spec fn is_codex_window(
    process_id: u32,
    own_process_id: u32,
    exe_name: Seq<char>,
    title: Seq<char>,
) -> bool {
    match process_verdict(process_id, own_process_id, exe_name) {
        WindowVerdict::NotCodex => false,
        WindowVerdict::Codex => true,
        WindowVerdict::DecideByTitle => is_probable_codex_title(title),
    }
}

/// Classify the owning process of a foreground window: `process_id` is the
/// window's process (0 when unknown), `own_process_id` is ours, `exe_name`
/// the file name of the process image (empty when it could not be read).
pub fn codex_window_verdict(process_id: u32, own_process_id: u32, exe_name: &str) -> (v: WindowVerdict)
    ensures
        v == process_verdict(process_id, own_process_id, exe_name@),
        ({
            let lowered = ascii_lower_seq(exe_name@);
            process_id != 0 && process_id != own_process_id && !contains_seq(lowered, "codexbar"@)
                && !contains_seq(lowered, "codex-usage-bar"@) ==> if lowered == "codex.exe"@
                || lowered == "codex"@ || lowered == "codex desktop.exe"@ {
                v == WindowVerdict::Codex
            } else {
                v == WindowVerdict::DecideByTitle
            }
        }),
{
    proof {
        lemma_lowered_literals();
    }
    if process_id == 0 {
        return WindowVerdict::NotCodex;
    }
    if process_id == own_process_id {
        return WindowVerdict::NotCodex;
    }
    let exe_lower = ascii_lowercase(exe_name);
    if contains_str(&exe_lower, "codexbar") || contains_str(&exe_lower, "codex-usage-bar") {
        return WindowVerdict::NotCodex;
    }
    if eq_ignore_ascii_case(exe_name, "codex.exe") || eq_ignore_ascii_case(exe_name, "codex")
        || eq_ignore_ascii_case(exe_name, "codex desktop.exe") {
        return WindowVerdict::Codex;
    }
    WindowVerdict::DecideByTitle
}

/// Windows of our own process, and windows whose process is unknown, are
/// never taken for the Codex desktop app, whatever their executable or title.
pub proof fn lemma_own_process_never_codex(own_process_id: u32, exe_name: Seq<char>, title: Seq<char>)
    ensures
        !is_codex_window(own_process_id, own_process_id, exe_name, title),
        !is_codex_window(0, own_process_id, exe_name, title),
{
}

/// A process whose executable names one of the usage bars is never taken for
/// the Codex desktop app, whatever its window title.
pub proof fn lemma_usage_bar_exe_never_codex(
    process_id: u32,
    own_process_id: u32,
    exe_name: Seq<char>,
    title: Seq<char>,
)
    requires
        exe_names_usage_bar(exe_name),
    ensures
        !is_codex_window(process_id, own_process_id, exe_name, title),
{
}

/// Any other process running a Codex executable is the Codex desktop app,
/// whatever its window title.
pub proof fn lemma_codex_exe_any_title(
    process_id: u32,
    own_process_id: u32,
    exe_name: Seq<char>,
    title: Seq<char>,
)
    requires
        process_id != 0,
        process_id != own_process_id,
        !exe_names_usage_bar(exe_name),
        exe_is_codex(exe_name),
    ensures
        is_codex_window(process_id, own_process_id, exe_name, title),
{
}

/// A title that names one of the usage-bar windows, or that does not mention
/// "codex" in any ASCII case, is never taken for the Codex desktop app.
pub proof fn lemma_title_exclusions(title: Seq<char>)
    requires
        names_usage_bar(ascii_lower_seq(title)) || !contains_seq(ascii_lower_seq(title), "codex"@),
    ensures
        !is_probable_codex_title(title),
{
}

/// Title matching ignores ASCII case: titles that agree once lower-cased get
/// the same answer.
pub proof fn lemma_title_ignores_ascii_case(a: Seq<char>, b: Seq<char>)
    requires
        eq_ignore_ascii_case_seq(a, b),
    ensures
        is_probable_codex_title(a) == is_probable_codex_title(b),
{
}

/// A title that mentions "codex" in any ASCII case and contains none of the
/// five usage-bar phrases is a probable Codex title; any other title is not.
pub proof fn lemma_title_match_exact(title: Seq<char>)
    ensures
        is_probable_codex_title(title) <==> ({
            let lowered = ascii_lower_seq(title);
            &&& contains_seq(lowered, "codex"@)
            &&& !contains_seq(lowered, "codexbar"@)
            &&& !contains_seq(lowered, "codex bar"@)
            &&& !contains_seq(lowered, "codex usage bar"@)
            &&& !contains_seq(lowered, "codex quota"@)
            &&& !contains_seq(lowered, "codex 余量条"@)
        }),
{
}

/// For a known process other than our own whose executable names no usage
/// bar, the process alone says Codex exactly for the executables "codex.exe",
/// "codex" and "codex desktop.exe" in any ASCII case; for every other
/// executable the title decides.
pub proof fn lemma_codex_executables_exact(process_id: u32, own_process_id: u32, exe_name: Seq<char>)
    requires
        process_id != 0,
        process_id != own_process_id,
        !contains_seq(ascii_lower_seq(exe_name), "codexbar"@),
        !contains_seq(ascii_lower_seq(exe_name), "codex-usage-bar"@),
    ensures
        ({
            let lowered = ascii_lower_seq(exe_name);
            if lowered == "codex.exe"@ || lowered == "codex"@ || lowered == "codex desktop.exe"@ {
                process_verdict(process_id, own_process_id, exe_name) == WindowVerdict::Codex
            } else {
                process_verdict(process_id, own_process_id, exe_name)
                    == WindowVerdict::DecideByTitle
            }
        }),
{
    lemma_lowered_literals();
}

/// The lower-cased forms of the Codex executable names are the names
/// themselves.
proof fn lemma_lowered_literals()
    ensures
        ascii_lower_seq("codex.exe"@) == "codex.exe"@,
        ascii_lower_seq("codex"@) == "codex"@,
        ascii_lower_seq("codex desktop.exe"@) == "codex desktop.exe"@,
{
    reveal_strlit("codex.exe");
    reveal_strlit("codex");
    reveal_strlit("codex desktop.exe");
    assert(ascii_lower_seq("codex.exe"@) =~= "codex.exe"@);
    assert(ascii_lower_seq("codex"@) =~= "codex"@);
    assert(ascii_lower_seq("codex desktop.exe"@) =~= "codex desktop.exe"@);
}

} // verus!
