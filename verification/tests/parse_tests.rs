use branch_picker::parse::{clean_line, parse_branches};
use branch_picker::MAX_BRANCHES;

fn names(names: &[&str]) -> Vec<String> {
    names.iter().map(|s| s.to_string()).collect()
}

#[test]
fn clean_strips_the_star_and_whitespace() {
    assert_eq!(clean_line("* main"), "main");
    assert_eq!(clean_line("  feature"), "feature");
    assert_eq!(clean_line("  feature  "), "feature");
    assert_eq!(clean_line("\t* dev\r"), "dev");
    assert_eq!(clean_line("release"), "release");
}

#[test]
fn clean_of_blank_input_is_empty() {
    assert_eq!(clean_line(""), "");
    assert_eq!(clean_line("   "), "");
    assert_eq!(clean_line(" * "), "");
}

#[test]
fn stars_inside_a_name_stay() {
    assert_eq!(clean_line("* wip*2"), "wip*2");
}

#[test]
fn listing_is_split_cleaned_and_filtered() {
    let raw = "* main\n  feat-x\n\n  fix-y\n";
    assert_eq!(parse_branches(raw), names(&["main", "feat-x", "fix-y"]));
}

#[test]
fn listing_with_carriage_returns() {
    let raw = "* main\r\n  feat-x\r\n";
    assert_eq!(parse_branches(raw), names(&["main", "feat-x"]));
}

#[test]
fn empty_listing_yields_no_candidates() {
    assert_eq!(parse_branches(""), Vec::<String>::new());
    assert_eq!(parse_branches("\n\n  \n"), Vec::<String>::new());
}

#[test]
fn listing_is_capped_at_the_maximum() {
    let mut raw = String::new();
    for i in 0..MAX_BRANCHES + 7 {
        raw.push_str(&format!("  b{}\n", i));
    }
    let out = parse_branches(&raw);
    assert_eq!(out.len(), MAX_BRANCHES);
    assert_eq!(out[0], "b0");
    assert_eq!(out[MAX_BRANCHES - 1], format!("b{}", MAX_BRANCHES - 1));
}
