//! The renderer: a pure function from a list-model snapshot to an ordered
//! sequence of display instructions. The instructions carry everything the
//! terminal shell needs — which rows are shown, which is selected, which is
//! the active item, and whether the scroll indicators are lit — and nothing
//! about how the shell styles them.

use vstd::prelude::*;
use crate::model::App;

verus! {

/// One display instruction, in drawing order.
#[derive(Debug, PartialEq)]
pub enum Instr {
    /// Clear the screen and home the cursor.
    ClearScreen,
    /// The fixed title line.
    Title,
    /// The scroll indicator above the list, lit when items are hidden above.
    AboveIndicator { active: bool },
    /// One visible candidate row.
    Item { text: String, is_active: bool, is_selected: bool },
    /// The scroll indicator below the list, lit when items are hidden below.
    BelowIndicator { active: bool },
}

impl App {
    /// Renders this model snapshot: a screen clear, the title, the upper
    /// scroll indicator, one row per visible candidate (marked active when
    /// it equals the active marker, selected when the selection rests on
    /// it), and the lower scroll indicator. Pure: the model is not touched.
    pub fn render(&self) -> (out: Vec<Instr>)
        requires
            self.wf(),
        ensures
            out@.len() == 4 + self.window_end() - self.offset,
            out@[0] == Instr::ClearScreen,
            out@[1] == Instr::Title,
            out@[2] == (Instr::AboveIndicator { active: self.offset > 0 }),
            forall|i: int|
                3 <= i < out@.len() - 1 ==> #[trigger] out@[i] == (Instr::Item {
                    text: self.branches@[self.offset + i - 3],
                    is_active: self.branches@[self.offset + i - 3]@ == self.current_branch@,
                    is_selected: self.offset + i - 3 == self.selected,
                }),
            out@[out@.len() - 1] == (Instr::BelowIndicator {
                active: self.offset + self.window < self.branches@.len(),
            }),
    {
        let mut out: Vec<Instr> = Vec::new();
        out.push(Instr::ClearScreen);
        out.push(Instr::Title);
        out.push(Instr::AboveIndicator { active: self.offset > 0 });
        let end: usize = if self.offset + self.window <= self.branches.len() {
            self.offset + self.window
        } else {
            self.branches.len()
        };
        let mut i: usize = self.offset;
        while i < end
            invariant
                self.wf(),
                self.offset <= i <= end,
                end == self.window_end(),
                end <= self.branches@.len(),
                out@.len() == 3 + i - self.offset,
                out@[0] == Instr::ClearScreen,
                out@[1] == Instr::Title,
                out@[2] == (Instr::AboveIndicator { active: self.offset > 0 }),
                forall|j: int|
                    3 <= j < out@.len() ==> #[trigger] out@[j] == (Instr::Item {
                        text: self.branches@[self.offset + j - 3],
                        is_active: self.branches@[self.offset + j - 3]@ == self.current_branch@,
                        is_selected: self.offset + j - 3 == self.selected,
                    }),
            decreases end - i,
        {
            let text = self.branches[i].clone();
            let is_active = text == self.current_branch;
            let is_selected = i == self.selected;
            out.push(Instr::Item { text, is_active, is_selected });
            i = i + 1;
        }
        out.push(Instr::BelowIndicator { active: self.offset + self.window < self.branches.len() });
        out
    }
}

} // verus!
