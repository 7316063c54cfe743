//! What is shown of a play ground.

use crate::components::play_ground::{cells_text, PlayGround, UnitHolderView};
use crate::entity::unit::Unit;
use vstd::prelude::*;
use vstd::string::StringExecFns;

verus! {

/// Shows a play ground on a console.
pub struct ConsoleDisplayer;

/// What a console shows of a play ground: its cells under a title line and
/// above a closing line.
pub open spec fn console_text(cells: Seq<UnitHolderView<Unit>>) -> Seq<char> {
    "=== PlayGround === \n"@ + cells_text(cells) + "\n ======"@
}

impl ConsoleDisplayer {
    /// The text to show for a play ground.
    pub fn render(play_ground: &PlayGround<Unit>) -> (text: String)
        ensures
            text@ == console_text(play_ground@),
    {
        let mut text = String::from_str("=== PlayGround === \n");
        text.append(play_ground.to_string().as_str());
        text.append("\n ======");
        text
    }
}

} // verus!
