//! The browser-tab heuristic: a pure function inferring a probable tab title
//! from a window title and an application display name, plus the extraction
//! of an application display name from a process path.

use vstd::prelude::*;
use vstd::string::StrSliceExecFns;
use vstd::string::StringExecFns;

use crate::focus::FocusedBrowserTab;
use crate::focus::TabModel;
use crate::text::chars_of;
use crate::text::contains_seq;
use crate::text::last_occurrence;
use crate::text::rfind_seq;
use crate::text::seq_contains;

verus! {

/// What `str::to_lowercase` returns for a given character sequence.
pub uninterp spec fn lower_of(s: Seq<char>) -> Seq<char>;

/// Relies on `str::to_lowercase`: the result is the Unicode lowercase
/// equivalent, a function of the characters alone, and an empty string
/// stays empty.
#[verifier::external_body]
pub(crate) fn lowercase(s: &str) -> (r: String)
    ensures
        r@ == lower_of(s@),
        s@.len() == 0 ==> r@.len() == 0,
{
    s.to_lowercase()
}

/// A lowercased application name designates a known desktop browser when it
/// contains one of the fixed identifiers.
pub open spec fn is_known_browser(app_lower: Seq<char>) -> bool {
    ||| seq_contains(app_lower, "chrome"@)
    ||| seq_contains(app_lower, "msedge"@)
    ||| seq_contains(app_lower, "brave"@)
    ||| seq_contains(app_lower, "opera"@)
    ||| seq_contains(app_lower, "firefox"@)
    ||| seq_contains(app_lower, "edge"@)
    ||| seq_contains(app_lower, "google chrome"@)
    ||| seq_contains(app_lower, "microsoft edge"@)
    ||| seq_contains(app_lower, "brave browser"@)
}

/// Decides `is_known_browser` on an already-lowercased name.
pub fn matches_known_browser(lowered_name: &str) -> (r: bool)
    ensures
        r == is_known_browser(lowered_name@),
{
    let hay = chars_of(lowered_name);
    if contains_seq(&hay, &chars_of("chrome")) {
        return true;
    }
    if contains_seq(&hay, &chars_of("msedge")) {
        return true;
    }
    if contains_seq(&hay, &chars_of("brave")) {
        return true;
    }
    if contains_seq(&hay, &chars_of("opera")) {
        return true;
    }
    if contains_seq(&hay, &chars_of("firefox")) {
        return true;
    }
    if contains_seq(&hay, &chars_of("edge")) {
        return true;
    }
    if contains_seq(&hay, &chars_of("google chrome")) {
        return true;
    }
    if contains_seq(&hay, &chars_of("microsoft edge")) {
        return true;
    }
    if contains_seq(&hay, &chars_of("brave browser")) {
        return true;
    }
    false
}

/// The separator between a tab title and the browser name in a window title.
pub open spec fn tab_separator() -> Seq<char> {
    " - "@
}

/// The probable tab title inside a window title: everything before the last
/// separator, or the whole title when no separator occurs; absent when that
/// leaves nothing.
pub open spec fn spec_tab_title(title: Seq<char>) -> Option<Seq<char>> {
    let cut = match last_occurrence(title, tab_separator()) {
        Some(i) => title.subrange(0, i),
        None => title,
    };
    if cut.len() == 0 {
        None
    } else {
        Some(cut)
    }
}

/// The browser tab inferred from a window title and an application name:
/// absent unless the lowercased name designates a known browser; the URL is
/// never resolvable from a title alone and stays absent.
pub open spec fn spec_infer_browser_tab(title: Seq<char>, application_name: Seq<char>) -> Option<
    TabModel,
> {
    if is_known_browser(lower_of(application_name)) {
        Some(
            TabModel {
                title: spec_tab_title(title),
                url: None,
                browser: Some(application_name),
            },
        )
    } else {
        None
    }
}

/// Mathematical model of an optional inferred tab.
pub open spec fn view_opt_tab(r: Option<FocusedBrowserTab>) -> Option<TabModel> {
    match r {
        Some(t) => Some(t@),
        None => None,
    }
}

/// Infer a probable browser tab from a window title and the owning
/// application's display name. Deterministic, no side effects.
pub fn infer_browser_tab(window_title: &str, application_name: &str) -> (r: Option<
    FocusedBrowserTab,
>)
    ensures
        view_opt_tab(r) == spec_infer_browser_tab(window_title@, application_name@),
{
    let lowered = lowercase(application_name);
    if !matches_known_browser(lowered.as_str()) {
        return None;
    }
    let title_chars = chars_of(window_title);
    let sep = chars_of(" - ");
    let title: String = match rfind_seq(&title_chars, &sep) {
        Some(i) => String::from_str(window_title.substring_char(0, i)),
        None => String::from_str(window_title),
    };
    let tab_title: Option<String> = if title.as_str().is_empty() {
        None
    } else {
        Some(title)
    };
    let tab = FocusedBrowserTab {
        title: tab_title,
        url: None,
        browser: Some(String::from_str(application_name)),
    };
    proof {
        assert(tab@ =~= spec_infer_browser_tab(window_title@, application_name@)->Some_0);
    }
    Some(tab)
}

/// A path separator on either platform style.
pub open spec fn is_path_separator(c: char) -> bool {
    c == '/' || c == '\\'
}

/// Index of the first character after the last path separator, or zero when
/// the path has none.
pub open spec fn spec_basename_start(p: Seq<char>) -> int {
    if exists|i: int| 0 <= i < p.len() && is_path_separator(#[trigger] p[i]) {
        (choose|i: int|
            0 <= i < p.len() && is_path_separator(p[i]) && (forall|j: int|
                i < j < p.len() ==> !is_path_separator(p[j]))) + 1
    } else {
        0
    }
}

/// The display name carried by a process path: the file name without its
/// final extension, or the whole path when no file name can be isolated.
/// A dot that opens the file name does not start an extension. The path is
/// read as plain text, with no platform path semantics: a path ending in a
/// separator has no file name to isolate and is kept whole, and a name made
/// only of dots follows the same last-dot rule.
pub open spec fn spec_display_name(p: Seq<char>) -> Seq<char> {
    let b = spec_basename_start(p);
    if b >= p.len() {
        p
    } else if exists|k: int| b < k < p.len() && #[trigger] p[k] == '.' {
        let k = choose|k: int|
            b < k < p.len() && p[k] == '.' && (forall|j: int| k < j < p.len() ==> p[j] != '.');
        p.subrange(b, k)
    } else {
        p.subrange(b, p.len() as int)
    }
}

/// Last path-separator position, if any.
fn rfind_path_separator(v: &Vec<char>) -> (r: Option<usize>)
    ensures
        match r {
            Some(i) => i < v@.len() && is_path_separator(v@[i as int]) && (forall|j: int|
                i < j < v@.len() ==> !is_path_separator(v@[j])),
            None => forall|j: int| 0 <= j < v@.len() ==> !is_path_separator(v@[j]),
        },
{
    let n = v.len();
    if n == 0 {
        return None;
    }
    let mut i: usize = n - 1;
    loop
        invariant
            n == v@.len(),
            i < n,
            forall|j: int| i < j < n ==> !is_path_separator(v@[j]),
        decreases i,
    {
        let c = v[i];
        if c == '/' || c == '\\' {
            return Some(i);
        }
        if i == 0 {
            return None;
        }
        i -= 1;
    }
}

/// Last `'.'` strictly after position `lo`, if any.
fn rfind_dot_after(v: &Vec<char>, lo: usize) -> (r: Option<usize>)
    ensures
        match r {
            Some(k) => lo < k < v@.len() && v@[k as int] == '.' && (forall|j: int|
                k < j < v@.len() ==> v@[j] != '.'),
            None => forall|j: int| lo < j < v@.len() ==> v@[j] != '.',
        },
{
    let n = v.len();
    if n == 0 || lo >= n - 1 {
        return None;
    }
    let mut k: usize = n - 1;
    loop
        invariant
            n == v@.len(),
            lo < n,
            lo < k < n,
            forall|j: int| k < j < n ==> v@[j] != '.',
        decreases k,
    {
        if v[k] == '.' {
            return Some(k);
        }
        if k == lo + 1 {
            return None;
        }
        k -= 1;
    }
}

/// The display name of the application owning a process path: the file stem
/// of its last path component, or the whole path when there is none. The
/// path is read as plain text — see `spec_display_name` for the exact rule
/// on degenerate paths, which real process image paths do not reach.
pub fn get_application_display_name(process_path: &str) -> (r: String)
    ensures
        r@ == spec_display_name(process_path@),
{
    let v = chars_of(process_path);
    let n = v.len();
    let b: usize = match rfind_path_separator(&v) {
        Some(i) => {
            proof {
                let p = process_path@;
                assert(exists|w: int| 0 <= w < p.len() && is_path_separator(#[trigger] p[w]));
                let w = choose|w: int|
                    0 <= w < p.len() && is_path_separator(p[w]) && (forall|j: int|
                        w < j < p.len() ==> !is_path_separator(p[j]));
                assert(w == i as int);
                assert(i < n);
            }
            i + 1
        },
        None => 0,
    };
    proof {
        assert(b as int == spec_basename_start(process_path@));
    }
    if b >= v.len() {
        return String::from_str(process_path);
    }
    match rfind_dot_after(&v, b) {
        Some(k) => {
            proof {
                let p = process_path@;
                assert(exists|w: int| b < w < p.len() && #[trigger] p[w] == '.');
                let w = choose|w: int|
                    b < w < p.len() && p[w] == '.' && (forall|j: int| w < j < p.len() ==> p[j] != '.');
                assert(w == k as int);
            }
            String::from_str(process_path.substring_char(b, k))
        },
        None => String::from_str(process_path.substring_char(b, v.len())),
    }
}

} // verus!
