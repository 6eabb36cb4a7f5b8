use focus_watch::heuristic::get_application_display_name;
use focus_watch::heuristic::infer_browser_tab;
use focus_watch::heuristic::matches_known_browser;

#[test]
fn tab_title_split_on_last_separator() {
    let tab = infer_browser_tab("Example Page - Google Chrome", "chrome").unwrap();
    assert_eq!(tab.title.as_deref(), Some("Example Page"));
    assert_eq!(tab.url, None);
    assert_eq!(tab.browser.as_deref(), Some("chrome"));
}

#[test]
fn non_browser_application_gives_no_tab() {
    assert!(infer_browser_tab("Notepad.exe", "Notepad").is_none());
}

#[test]
fn no_separator_keeps_whole_title() {
    let tab = infer_browser_tab("Chrome", "chrome").unwrap();
    assert_eq!(tab.title.as_deref(), Some("Chrome"));
}

#[test]
fn uppercase_application_name_is_lowercased_before_matching() {
    // fails if the lowercasing step handed its argument back unchanged
    let tab = infer_browser_tab("Example Page - Google Chrome", "CHROME").unwrap();
    assert_eq!(tab.title.as_deref(), Some("Example Page"));
    assert_eq!(tab.browser.as_deref(), Some("CHROME"));
}

#[test]
fn empty_prefix_before_separator_gives_absent_title() {
    let tab = infer_browser_tab(" - Browser", "msedge").unwrap();
    assert_eq!(tab.title, None);
}

#[test]
fn empty_title_gives_absent_title() {
    let tab = infer_browser_tab("", "firefox").unwrap();
    assert_eq!(tab.title, None);
    assert_eq!(tab.browser.as_deref(), Some("firefox"));
}

#[test]
fn last_separator_wins_with_several() {
    let tab = infer_browser_tab("A - B - Chrome", "google chrome").unwrap();
    assert_eq!(tab.title.as_deref(), Some("A - B"));
}

#[test]
fn known_browser_matching_is_substring_based() {
    assert!(matches_known_browser("brave browser"));
    assert!(matches_known_browser("my msedge build"));
    assert!(!matches_known_browser("notepad"));
    assert!(!matches_known_browser(""));
}

#[test]
fn display_name_from_windows_path() {
    assert_eq!(
        get_application_display_name("C:\\Program Files\\Google\\Chrome\\Application\\chrome.exe"),
        "chrome"
    );
}

#[test]
fn display_name_from_unix_path() {
    assert_eq!(get_application_display_name("/usr/bin/firefox"), "firefox");
}

#[test]
fn display_name_without_separator_or_extension() {
    assert_eq!(get_application_display_name("notepad"), "notepad");
}

#[test]
fn display_name_keeps_leading_dot_name() {
    assert_eq!(get_application_display_name("/home/user/.profile"), ".profile");
}

#[test]
fn display_name_strips_only_final_extension() {
    assert_eq!(get_application_display_name("bundle.tar.gz"), "bundle.tar");
}

#[test]
fn display_name_of_path_ending_in_separator_is_whole_path() {
    // the path is read as plain text: nothing follows the last separator,
    // so there is no file name to isolate and the path is kept whole
    assert_eq!(get_application_display_name("C:\\Apps\\"), "C:\\Apps\\");
}
