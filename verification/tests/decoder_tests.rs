use branch_picker::keys::{decode, KeyEvent};

fn dec(bytes: &[u8]) -> KeyEvent {
    decode(&bytes.to_vec())
}

#[test]
fn arrow_sequences() {
    assert_eq!(dec(&[27, 91, 65]), KeyEvent::NavigateUp);
    assert_eq!(dec(&[27, 91, 66]), KeyEvent::NavigateDown);
    assert_eq!(dec(&[27, 91, 67]), KeyEvent::Ignore);
    assert_eq!(dec(&[27, 91, 68]), KeyEvent::Ignore);
}

#[test]
fn lone_escape_cancels() {
    assert_eq!(dec(&[27]), KeyEvent::Cancel);
}

#[test]
fn incomplete_escape_is_ignored() {
    assert_eq!(dec(&[27, 91]), KeyEvent::Ignore);
}

#[test]
fn vi_style_navigation() {
    assert_eq!(dec(b"k"), KeyEvent::NavigateUp);
    assert_eq!(dec(b"w"), KeyEvent::NavigateUp);
    assert_eq!(dec(b"j"), KeyEvent::NavigateDown);
    assert_eq!(dec(b"s"), KeyEvent::NavigateDown);
}

#[test]
fn confirm_keys() {
    assert_eq!(dec(&[10]), KeyEvent::Confirm);
    assert_eq!(dec(&[13]), KeyEvent::Confirm);
    assert_eq!(dec(&[32]), KeyEvent::Confirm);
}

#[test]
fn cancel_keys() {
    assert_eq!(dec(b"q"), KeyEvent::Cancel);
    assert_eq!(dec(b"Q"), KeyEvent::Cancel);
}

#[test]
fn closed_stream_cancels() {
    assert_eq!(dec(&[]), KeyEvent::Cancel);
}

#[test]
fn other_bytes_are_ignored() {
    assert_eq!(dec(b"x"), KeyEvent::Ignore);
    assert_eq!(dec(&[0]), KeyEvent::Ignore);
    assert_eq!(dec(&[255]), KeyEvent::Ignore);
}

/// Every byte value as a first byte, with read lengths one, two and three,
/// yields exactly one classification without panicking.
#[test]
fn decoder_is_total() {
    for b0 in 0u8..=255 {
        for len in 1usize..=3 {
            let mut bytes = vec![b0];
            while bytes.len() < len {
                bytes.push(91);
            }
            let ev = decode(&bytes);
            let classified = matches!(
                ev,
                KeyEvent::NavigateUp
                    | KeyEvent::NavigateDown
                    | KeyEvent::Confirm
                    | KeyEvent::Cancel
                    | KeyEvent::Ignore
            );
            assert!(classified);
            if b0 != 27 {
                // The first byte alone decides once it is not an escape.
                assert_eq!(ev, dec(&[b0]));
            }
        }
    }
}
