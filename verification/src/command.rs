//! Draw and state commands carried from the interception callbacks to the
//! render tick.

use vstd::prelude::*;
use crate::single::Single;

verus! {

/// What a command says, with its text as a sequence of characters.
pub enum CommandView {
    Text { content: Seq<char>, x: Single, y: Single },
    SetFontSize { size: Single },
    SetTextScale { width_scale: Single, height_scale: Single, font_size: Single },
    ResetTextScale,
}

/// One captured call of the host's text-drawing routines.
#[derive(Debug, PartialEq, Eq)]
pub enum DrawCommand {
    /// A line of text at a host-space coordinate.
    Text(String, Single, Single),
    SetFontSize(Single),
    /// Width scale, height scale and font size.
    SetTextScale(Single, Single, Single),
    ResetTextScale,
}

impl View for DrawCommand {
    type V = CommandView;

    open spec fn view(&self) -> CommandView {
        match *self {
            DrawCommand::Text(content, x, y) => CommandView::Text { content: content@, x, y },
            DrawCommand::SetFontSize(size) => CommandView::SetFontSize { size },
            DrawCommand::SetTextScale(width_scale, height_scale, font_size) => CommandView::SetTextScale {
                width_scale,
                height_scale,
                font_size,
            },
            DrawCommand::ResetTextScale => CommandView::ResetTextScale,
        }
    }
}

} // verus!
