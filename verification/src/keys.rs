//! The key decoder: classifies one raw input chunk (up to three bytes read
//! from the terminal in a single blocking read) into a logical event.

use vstd::prelude::*;

verus! {

/// A logical input event produced by the key decoder.
#[derive(Clone, Copy, Debug, PartialEq, Eq, Structural)]
pub enum KeyEvent {
    NavigateUp,
    NavigateDown,
    Confirm,
    Cancel,
    Ignore,
}

/// What one raw input chunk means, as a total function over the bytes read.
///
/// An empty chunk (the input stream closed) counts as cancellation. A chunk
/// starting with ESC (27) is an arrow sequence when all three bytes arrived:
/// its third byte picks the direction (65 up, 66 down, anything else is
/// ignored). A lone ESC is a cancellation; a two-byte chunk starting with ESC
/// is an incomplete sequence and is ignored. Otherwise the first byte decides:
/// `k`/`w` move up, `j`/`s` move down, newline/carriage return/space confirm,
/// `q`/`Q` cancel, and every other byte is ignored.
pub open spec fn classify(bytes: Seq<u8>) -> KeyEvent {
    if bytes.len() == 0 {
        KeyEvent::Cancel
    } else if bytes[0] == 27 {
        if bytes.len() >= 3 {
            if bytes[2] == 65 {
                KeyEvent::NavigateUp
            } else if bytes[2] == 66 {
                KeyEvent::NavigateDown
            } else {
                KeyEvent::Ignore
            }
        } else if bytes.len() == 1 {
            KeyEvent::Cancel
        } else {
            KeyEvent::Ignore
        }
    } else if bytes[0] == 107 || bytes[0] == 119 {
        KeyEvent::NavigateUp
    } else if bytes[0] == 106 || bytes[0] == 115 {
        KeyEvent::NavigateDown
    } else if bytes[0] == 10 || bytes[0] == 13 || bytes[0] == 32 {
        KeyEvent::Confirm
    } else if bytes[0] == 113 || bytes[0] == 81 {
        KeyEvent::Cancel
    } else {
        KeyEvent::Ignore
    }
}

/// Decodes one raw input chunk. Total: every chunk, of any length, yields
/// exactly one event, and the event is the one `classify` assigns.
pub fn decode(bytes: &Vec<u8>) -> (ev: KeyEvent)
    ensures
        ev == classify(bytes@),
{
    if bytes.len() == 0 {
        return KeyEvent::Cancel;
    }
    let b0 = bytes[0];
    if b0 == 27 {
        if bytes.len() >= 3 {
            let b2 = bytes[2];
            if b2 == 65 {
                KeyEvent::NavigateUp
            } else if b2 == 66 {
                KeyEvent::NavigateDown
            } else {
                KeyEvent::Ignore
            }
        } else if bytes.len() == 1 {
            KeyEvent::Cancel
        } else {
            KeyEvent::Ignore
        }
    } else if b0 == 107 || b0 == 119 {
        KeyEvent::NavigateUp
    } else if b0 == 106 || b0 == 115 {
        KeyEvent::NavigateDown
    } else if b0 == 10 || b0 == 13 || b0 == 32 {
        KeyEvent::Confirm
    } else if b0 == 113 || b0 == 81 {
        KeyEvent::Cancel
    } else {
        KeyEvent::Ignore
    }
}

} // verus!
