use gitignore::catalog::{
    catalog_from_entries, ends_with_template_suffix, is_template, strip_template_suffix,
    ListingEntry,
};
use gitignore::command::{command_from_args, Command};
use gitignore::error::{status_is_success, GitignoreError};
use gitignore::fetch::{check_listing_status, template_from_response, template_url};
use gitignore::order::{str_eq, str_le};
use gitignore::selector::{
    selection_from_output, selection_from_trimmed, selector_input, selector_start, SelectorStart,
};
use gitignore::writer::{
    action_for_answer, action_for_destination, confirms_overwrite, is_affirmative_answer,
    WriteAction,
};

fn entry(name: &str, kind: &str) -> ListingEntry {
    ListingEntry { name: name.to_string(), file_type: kind.to_string() }
}

fn strings(v: &[&str]) -> Vec<String> {
    v.iter().map(|s| s.to_string()).collect()
}

#[test]
fn catalog_keeps_template_files_only() {
    let entries = vec![
        entry("Go.gitignore", "file"),
        entry("Node.gitignore", "file"),
        entry("README.md", "file"),
        entry("vendor", "dir"),
    ];
    assert_eq!(catalog_from_entries(&entries), strings(&["Go", "Node"]));
}

#[test]
fn catalog_drops_directories_with_the_suffix() {
    let entries = vec![entry("Global.gitignore", "dir"), entry("Rust.gitignore", "file")];
    assert_eq!(catalog_from_entries(&entries), strings(&["Rust"]));
}

#[test]
fn catalog_is_sorted_whatever_the_listing_order() {
    let entries = vec![
        entry("Zig.gitignore", "file"),
        entry("Ada.gitignore", "file"),
        entry("go.gitignore", "file"),
        entry("Go.gitignore", "file"),
        entry("C.gitignore", "file"),
        entry("C++.gitignore", "file"),
    ];
    let expected = strings(&["Ada", "C", "C++", "Go", "Zig", "go"]);
    assert_eq!(catalog_from_entries(&entries), expected);
    let mut reversed = entries;
    reversed.reverse();
    assert_eq!(catalog_from_entries(&reversed), expected);
}

#[test]
fn catalog_matches_std_order() {
    let names = ["b", "ab", "a", "Ä", "Z", "aa", "é", "e"];
    let entries: Vec<ListingEntry> =
        names.iter().map(|n| entry(&format!("{}.gitignore", n), "file")).collect();
    let mut expected = strings(&names);
    expected.sort();
    assert_eq!(catalog_from_entries(&entries), expected);
}

#[test]
fn catalog_of_empty_listing_is_empty() {
    assert_eq!(catalog_from_entries(&Vec::new()), Vec::<String>::new());
}

#[test]
fn catalog_keeps_equal_identifiers() {
    let entries = vec![entry("Go.gitignore", "file"), entry("Go.gitignore", "file")];
    assert_eq!(catalog_from_entries(&entries), strings(&["Go", "Go"]));
}

#[test]
fn bare_suffix_gives_no_identifier() {
    let entries = vec![entry(".gitignore", "file"), entry("Go.gitignore", "file")];
    assert_eq!(catalog_from_entries(&entries), strings(&["Go"]));
    assert!(!is_template(&entry(".gitignore", "file")));
    assert_eq!(catalog_from_entries(&vec![entry(".gitignore", "file")]), Vec::<String>::new());
}

#[test]
fn suffix_round_trip() {
    let entries = vec![entry("Python.gitignore", "file"), entry("a.b.gitignore", "file")];
    for id in catalog_from_entries(&entries) {
        let name = format!("{}.gitignore", id);
        assert!(entries.iter().any(|e| e.name == name));
    }
}

#[test]
fn suffix_checks() {
    assert!(ends_with_template_suffix("Go.gitignore"));
    assert!(ends_with_template_suffix(".gitignore"));
    assert!(!ends_with_template_suffix("gitignore"));
    assert!(!ends_with_template_suffix("Go.gitignore.bak"));
    assert!(!ends_with_template_suffix(""));
    assert_eq!(strip_template_suffix("Go.gitignore"), "Go");
    assert_eq!(strip_template_suffix(".gitignore"), "");
    assert!(is_template(&entry("Go.gitignore", "file")));
    assert!(!is_template(&entry("Go.gitignore", "dir")));
    assert!(!is_template(&entry("Go.gitignore", "File")));
}

#[test]
fn ordinal_comparison() {
    assert!(str_le("a", "b"));
    assert!(!str_le("b", "a"));
    assert!(str_le("a", "ab"));
    assert!(!str_le("ab", "a"));
    assert!(str_le("", ""));
    assert!(str_le("Z", "a"));
    assert!(str_le("z", "é"));
    assert!(str_eq("Go", "Go"));
    assert!(!str_eq("Go", "go"));
    assert!(!str_eq("Go", "Go "));
}

#[test]
fn success_statuses() {
    assert!(!status_is_success(199));
    assert!(status_is_success(200));
    assert!(status_is_success(204));
    assert!(status_is_success(299));
    assert!(!status_is_success(300));
    assert!(!status_is_success(404));
}

#[test]
fn listing_status_errors_carry_the_code() {
    assert_eq!(check_listing_status(200), Ok(()));
    assert_eq!(check_listing_status(403), Err(GitignoreError::Remote(403)));
    assert_eq!(check_listing_status(500), Err(GitignoreError::Remote(500)));
}

#[test]
fn template_url_is_built_from_base_and_suffix() {
    assert_eq!(
        template_url("Go"),
        "https://raw.githubusercontent.com/github/gitignore/main/Go.gitignore"
    );
}

#[test]
fn not_found_names_the_identifier() {
    assert_eq!(
        template_from_response("Bogus", 404, "404: Not Found".to_string()),
        Err(GitignoreError::NotFound("Bogus".to_string()))
    );
    assert_eq!(
        template_from_response("Go", 500, String::new()),
        Err(GitignoreError::NotFound("Go".to_string()))
    );
}

#[test]
fn content_is_returned_verbatim() {
    let body = "# Go\n*.exe\n\n".to_string();
    assert_eq!(template_from_response("Go", 200, body.clone()), Ok(body));
}

#[test]
fn missing_destination_is_written_without_asking() {
    assert_eq!(action_for_destination(false), WriteAction::WriteFile);
}

#[test]
fn existing_destination_is_asked_about() {
    assert_eq!(action_for_destination(true), WriteAction::AskOverwrite);
}

#[test]
fn answer_no_aborts() {
    assert_eq!(action_for_answer("n\n"), WriteAction::Abort);
    assert_eq!(action_for_answer("n"), WriteAction::Abort);
}

#[test]
fn answer_yes_in_any_case_writes() {
    assert_eq!(action_for_answer("Y\n"), WriteAction::WriteFile);
    assert_eq!(action_for_answer("y\n"), WriteAction::WriteFile);
    assert_eq!(action_for_answer("  Yes \n"), WriteAction::WriteFile);
}

#[test]
fn empty_or_other_answers_abort() {
    assert_eq!(action_for_answer("\n"), WriteAction::Abort);
    assert_eq!(action_for_answer(""), WriteAction::Abort);
    assert_eq!(action_for_answer("ok"), WriteAction::Abort);
    assert_eq!(action_for_answer("x y"), WriteAction::Abort);
}

#[test]
fn normalised_answers() {
    assert!(is_affirmative_answer("y"));
    assert!(is_affirmative_answer("yes"));
    assert!(!is_affirmative_answer("Y"));
    assert!(!is_affirmative_answer(""));
    assert!(confirms_overwrite("\tY"));
    assert!(!confirms_overwrite("N"));
}

#[test]
fn missing_selector_ends_without_catalog() {
    assert_eq!(selector_start(false), SelectorStart::ShowGuidance);
    assert_eq!(selector_start(true), SelectorStart::FetchCatalog);
}

#[test]
fn selector_input_joins_lines() {
    assert_eq!(selector_input(&strings(&["Go", "Node", "Rust"])), "Go\nNode\nRust");
    assert_eq!(selector_input(&strings(&["Go"])), "Go");
    assert_eq!(selector_input(&Vec::new()), "");
}

#[test]
fn selection_is_trimmed_output() {
    assert_eq!(selection_from_output(true, "Node\n"), Some("Node".to_string()));
    assert_eq!(selection_from_output(true, "  Go  \n"), Some("Go".to_string()));
    assert_eq!(selection_from_output(true, "\n"), None);
    assert_eq!(selection_from_output(false, "Node\n"), None);
    assert_eq!(selection_from_trimmed(true, "Go"), Some("Go".to_string()));
    assert_eq!(selection_from_trimmed(true, ""), None);
}

#[test]
fn commands_from_arguments() {
    assert_eq!(command_from_args(true, None), Command::List);
    assert_eq!(command_from_args(true, Some("Go".to_string())), Command::List);
    assert_eq!(command_from_args(false, Some("Go".to_string())), Command::Download("Go".to_string()));
    assert_eq!(command_from_args(false, None), Command::Interactive);
}
