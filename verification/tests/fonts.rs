use water_bills::css::extract_font_url;
use water_bills::fonts::{
    cache_file_name, fetch_plan, find_thai_font, font_candidates, stylesheet_request_url,
    system_font_candidates, FontChoice, FontStyle,
};

#[test]
fn candidate_families_in_priority_order() {
    let fams = font_candidates();
    assert_eq!(fams, vec!["Sarabun", "Noto Sans Thai", "Prompt", "Kanit"]);
}

#[test]
fn system_table_lists_both_platforms() {
    let entries = system_font_candidates();
    assert_eq!(entries.len(), 6);
    assert_eq!(entries[0].name, "Angsana New");
    assert_eq!(entries[0].regular_path, "C:/Windows/Fonts/ANGSA.TTF");
    assert_eq!(entries[2].bold_path, "C:/Windows/Fonts/TAHOMABD.TTF");
    assert_eq!(entries[2].italic_path, "C:/Windows/Fonts/TAHOMA.TTF");
    assert_eq!(
        entries[5].regular_path,
        "/System/Library/Fonts/Supplemental/NotoSansThai.ttc"
    );
}

#[test]
fn stylesheet_url_escapes_spaces() {
    assert_eq!(
        stylesheet_request_url("Noto Sans Thai"),
        "https://fonts.googleapis.com/css2?family=Noto+Sans+Thai:wght@400;700&display=swap"
    );
    assert_eq!(
        stylesheet_request_url("Sarabun"),
        "https://fonts.googleapis.com/css2?family=Sarabun:wght@400;700&display=swap"
    );
}

#[test]
fn cache_key_is_family_and_style() {
    assert_eq!(cache_file_name("Sarabun", FontStyle::Regular), "Sarabun-Regular.ttf");
    assert_eq!(cache_file_name("Noto Sans Thai", FontStyle::Bold), "Noto Sans Thai-Bold.ttf");
}

#[test]
fn populated_cache_plans_no_fetch() {
    assert_eq!(fetch_plan(true, true), vec![]);
}

#[test]
fn missing_styles_are_planned() {
    assert_eq!(fetch_plan(false, true), vec![FontStyle::Regular]);
    assert_eq!(fetch_plan(true, false), vec![FontStyle::Bold]);
    assert_eq!(fetch_plan(false, false), vec![FontStyle::Regular, FontStyle::Bold]);
}

#[test]
fn first_network_success_wins() {
    let choice = find_thai_font(&vec![false, true, true, false], &vec![false; 6]);
    assert_eq!(choice, FontChoice::Downloaded { family_index: 1 });
}

#[test]
fn system_table_used_when_network_fails() {
    let choice = find_thai_font(&vec![false; 4], &vec![false, false, true, false, true, false]);
    assert_eq!(choice, FontChoice::SystemEntry { entry_index: 2 });
}

#[test]
fn builtin_fallback_when_everything_fails() {
    let choice = find_thai_font(&vec![false; 4], &vec![false; 6]);
    assert_eq!(choice, FontChoice::Builtin);
}

#[test]
fn builtin_fallback_with_no_candidates_at_all() {
    let choice = find_thai_font(&vec![], &vec![]);
    assert_eq!(choice, FontChoice::Builtin);
}

#[test]
fn extracts_quoted_font_url() {
    let css = "@font-face {\n  font-family: 'Sarabun';\n  src: url('https://example.com/f.woff2') format('woff2');\n}\n";
    assert_eq!(
        extract_font_url(css),
        Some("https://example.com/f.woff2".to_string())
    );
}

#[test]
fn extracts_unquoted_font_url() {
    let css = "a\nsrc: url(https://example.com/f.ttf)\nb";
    assert_eq!(extract_font_url(css), Some("https://example.com/f.ttf".to_string()));
}

#[test]
fn extraction_stops_at_line_end_when_unclosed() {
    let css = "src: url(https://example.com/broken\nnext line)";
    assert_eq!(extract_font_url(css), Some("https://example.com/broken".to_string()));
}

#[test]
fn first_reference_wins() {
    let css = "src: url(one) src: url(two)";
    assert_eq!(extract_font_url(css), Some("one".to_string()));
}

#[test]
fn no_marker_gives_none() {
    let css = "@font-face { font-family: 'Sarabun'; }";
    assert_eq!(extract_font_url(css), None);
}

#[test]
fn empty_reference_is_empty_string() {
    let css = "src: url()";
    assert_eq!(extract_font_url(css), Some(String::new()));
}

#[test]
fn double_quotes_are_trimmed() {
    let css = "src: url(\"https://example.com/f.ttf\")";
    assert_eq!(extract_font_url(css), Some("https://example.com/f.ttf".to_string()));
}
