use branch_picker::controller::Phase;
use branch_picker::keys::decode;
use branch_picker::model::App;

fn names(names: &[&str]) -> Vec<String> {
    names.iter().map(|s| s.to_string()).collect()
}

fn five() -> Vec<String> {
    names(&["feat-x", "main", "fix-y", "dev", "release"])
}

/// Feeding the byte chunks for "down, down, up, confirm" against a
/// five-item list starting at the top selects the second item.
#[test]
fn round_trip_down_down_up_confirm() {
    let chunks: [&[u8]; 4] = [b"j", b"j", b"k", &[13]];
    let mut app = App::new(five(), String::new());
    let mut phase = Phase::Running;
    for chunk in chunks.iter() {
        assert_eq!(phase, Phase::Running);
        let ev = decode(&chunk.to_vec());
        phase = app.handle_event(ev);
    }
    assert_eq!(phase, Phase::Confirmed);
    assert_eq!(app.selected, 1);
    assert_eq!(app.selected_branch(), "main");
}

#[test]
fn arrows_drive_the_selection_too() {
    let mut app = App::new(five(), String::new());
    assert_eq!(app.handle_event(decode(&vec![27, 91, 66])), Phase::Running);
    assert_eq!(app.selected, 1);
    assert_eq!(app.handle_event(decode(&vec![27, 91, 65])), Phase::Running);
    assert_eq!(app.selected, 0);
}

/// Cancelling leaves the candidate list and the active marker untouched.
#[test]
fn cancel_leaves_the_model_unmodified() {
    let mut app = App::with_window(five(), "main".to_string(), 3);
    app.handle_event(decode(&b"j".to_vec()));
    let phase = app.handle_event(decode(&b"q".to_vec()));
    assert_eq!(phase, Phase::Cancelled);
    assert_eq!(app.branches, five());
    assert_eq!(app.current_branch, "main");
    assert_eq!(app.selected, 1);
}

#[test]
fn ignored_bytes_keep_running_and_change_nothing() {
    let mut app = App::new(five(), String::new());
    let phase = app.handle_event(decode(&b"x".to_vec()));
    assert_eq!(phase, Phase::Running);
    assert_eq!(app.selected, 0);
    assert_eq!(app.offset, 0);
    assert_eq!(app.branches, five());
}

#[test]
fn commit_success_moves_the_choice_to_the_front() {
    let mut app = App::with_window(five(), "main".to_string(), 3);
    app.handle_down();
    app.handle_down();
    assert_eq!(app.selected_branch(), "fix-y");
    app.commit_result(true);
    assert_eq!(app.branches, names(&["fix-y", "feat-x", "main", "dev", "release"]));
    assert_eq!(app.selected, 0);
    assert_eq!(app.offset, 0);
}

/// A failed commit action skips the recency reorder.
#[test]
fn commit_failure_leaves_the_order_unchanged() {
    let mut app = App::with_window(five(), "main".to_string(), 3);
    app.handle_down();
    app.handle_down();
    assert_eq!(app.selected_branch(), "fix-y");
    app.commit_result(false);
    assert_eq!(app.branches, five());
    assert_eq!(app.current_branch, "main");
    assert_eq!(app.selected, 2);
}
