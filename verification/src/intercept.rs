//! The five intercepted entry points of the host: where each one lives,
//! whether the host's own routine still runs, and the commands that one
//! call puts on the channel.

use vstd::prelude::*;
use crate::channel::{after_push, CommandChannel};
use crate::command::{CommandView, DrawCommand};
use crate::single::Single;
use crate::wide_text::{decode_wide, shown_text};

verus! {

/// Offset of the text-render-request routine from the host's load base.
pub const TEXT_RENDER_REQUEST_RVA: u32 = 0x264ef60;

/// Offset of the set-font-size routine.
pub const SET_FONT_SIZE_RVA: u32 = 0xbb6310;

/// Offset of the set-text-scale routine.
pub const SET_TEXT_SCALE_RVA: u32 = 0x1def10;

/// Offset of the reset-text-scale routine.
pub const RESET_TEXT_SCALE_RVA: u32 = 0xbb6290;

/// Offset of the draw-text-with-size routine.
pub const DRAW_TEXT_WITH_SIZE_RVA: u32 = 0x264eec0;

/// Number of intercepted entry points.
pub const ENTRY_POINT_COUNT: usize = 5;

/// An intercepted routine of the host.
#[derive(Clone, Copy, Debug, PartialEq, Eq, Structural)]
pub enum EntryPoint {
    TextRenderRequest,
    SetFontSize,
    SetTextScale,
    ResetTextScale,
    DrawTextWithSize,
}

impl EntryPoint {
    /// Offset of the routine from the host's load base.
    pub open spec fn offset(self) -> u32 {
        match self {
            EntryPoint::TextRenderRequest => TEXT_RENDER_REQUEST_RVA,
            EntryPoint::SetFontSize => SET_FONT_SIZE_RVA,
            EntryPoint::SetTextScale => SET_TEXT_SCALE_RVA,
            EntryPoint::ResetTextScale => RESET_TEXT_SCALE_RVA,
            EntryPoint::DrawTextWithSize => DRAW_TEXT_WITH_SIZE_RVA,
        }
    }

    /// The host's own routine runs before the call is recorded. The two
    /// routines that only draw are not run.
    pub open spec fn forwards(self) -> bool {
        match self {
            EntryPoint::TextRenderRequest => false,
            EntryPoint::SetFontSize => true,
            EntryPoint::SetTextScale => true,
            EntryPoint::ResetTextScale => true,
            EntryPoint::DrawTextWithSize => false,
        }
    }

    /// The entry point installed at place `index`.
    pub open spec fn at(index: int) -> EntryPoint {
        if index == 0 {
            EntryPoint::TextRenderRequest
        } else if index == 1 {
            EntryPoint::SetFontSize
        } else if index == 2 {
            EntryPoint::SetTextScale
        } else if index == 3 {
            EntryPoint::ResetTextScale
        } else {
            EntryPoint::DrawTextWithSize
        }
    }

    /// Offset of the routine from the host's load base.
    pub fn rva(self) -> (rva: u32)
        ensures
            rva == self.offset(),
    {
        match self {
            EntryPoint::TextRenderRequest => TEXT_RENDER_REQUEST_RVA,
            EntryPoint::SetFontSize => SET_FONT_SIZE_RVA,
            EntryPoint::SetTextScale => SET_TEXT_SCALE_RVA,
            EntryPoint::ResetTextScale => RESET_TEXT_SCALE_RVA,
            EntryPoint::DrawTextWithSize => DRAW_TEXT_WITH_SIZE_RVA,
        }
    }

    /// Whether the host's own routine is to run before the call is
    /// recorded.
    pub fn calls_through(self) -> (forward: bool)
        ensures
            forward == self.forwards(),
    {
        match self {
            EntryPoint::TextRenderRequest => false,
            EntryPoint::SetFontSize => true,
            EntryPoint::SetTextScale => true,
            EntryPoint::ResetTextScale => true,
            EntryPoint::DrawTextWithSize => false,
        }
    }

    /// The entry point installed at place `index`, in the order of
    /// installation, or `None` past the last one.
    pub fn nth(index: usize) -> (entry: Option<EntryPoint>)
        ensures
            entry.is_some() <==> index < ENTRY_POINT_COUNT,
            entry matches Some(e) ==> e == EntryPoint::at(index as int),
    {
        if index == 0 {
            Some(EntryPoint::TextRenderRequest)
        } else if index == 1 {
            Some(EntryPoint::SetFontSize)
        } else if index == 2 {
            Some(EntryPoint::SetTextScale)
        } else if index == 3 {
            Some(EntryPoint::ResetTextScale)
        } else if index == 4 {
            Some(EntryPoint::DrawTextWithSize)
        } else {
            None
        }
    }
}

/// Records a text-render request: the text at the captured position.
pub fn on_text_render_request(channel: &mut CommandChannel, x: Single, y: Single, text: &[u16])
    ensures
        final(channel).capacity() == old(channel).capacity(),
        final(channel)@ == after_push(
            old(channel)@,
            old(channel).capacity(),
            CommandView::Text { content: shown_text(text@), x, y },
        ),
{
    let content = decode_wide(text);
    channel.push(DrawCommand::Text(content, x, y));
}

/// Records a change of the font size.
pub fn on_set_font_size(channel: &mut CommandChannel, size: Single)
    ensures
        final(channel).capacity() == old(channel).capacity(),
        final(channel)@ == after_push(
            old(channel)@,
            old(channel).capacity(),
            CommandView::SetFontSize { size },
        ),
{
    channel.push(DrawCommand::SetFontSize(size));
}

/// Records a change of the text scale.
pub fn on_set_text_scale(
    channel: &mut CommandChannel,
    width_scale: Single,
    height_scale: Single,
    font_size: Single,
)
    ensures
        final(channel).capacity() == old(channel).capacity(),
        final(channel)@ == after_push(
            old(channel)@,
            old(channel).capacity(),
            CommandView::SetTextScale { width_scale, height_scale, font_size },
        ),
{
    channel.push(DrawCommand::SetTextScale(width_scale, height_scale, font_size));
}

/// Records a reset of the text scale.
pub fn on_reset_text_scale(channel: &mut CommandChannel)
    ensures
        final(channel).capacity() == old(channel).capacity(),
        final(channel)@ == after_push(
            old(channel)@,
            old(channel).capacity(),
            CommandView::ResetTextScale,
        ),
{
    channel.push(DrawCommand::ResetTextScale);
}

/// Records a draw of text with its own size: first the font size, then the
/// text, so that the size is in force when the text is drawn.
pub fn on_draw_text_with_size(
    channel: &mut CommandChannel,
    x: Single,
    y: Single,
    size: Single,
    text: &[u16],
)
    ensures
        final(channel).capacity() == old(channel).capacity(),
        final(channel)@ == after_push(
            after_push(old(channel)@, old(channel).capacity(), CommandView::SetFontSize { size }),
            old(channel).capacity(),
            CommandView::Text { content: shown_text(text@), x, y },
        ),
{
    let content = decode_wide(text);
    channel.push(DrawCommand::SetFontSize(size));
    channel.push(DrawCommand::Text(content, x, y));
}

/// What one draw of text with its own size leaves on a channel that held
/// `before`.
pub open spec fn after_sized_draw(
    before: Seq<CommandView>,
    capacity: nat,
    x: Single,
    y: Single,
    size: Single,
    content: Seq<char>,
) -> Seq<CommandView> {
    after_push(
        after_push(before, capacity, CommandView::SetFontSize { size }),
        capacity,
        CommandView::Text { content, x, y },
    )
}

/// One draw of text with its own size puts exactly two commands at the end
/// of the channel, the font size right before the text. What was there
/// before keeps its order, less the oldest commands that had to give way.
pub proof fn lemma_sized_draw_enqueues_pair(
    before: Seq<CommandView>,
    capacity: nat,
    x: Single,
    y: Single,
    size: Single,
    content: Seq<char>,
)
    requires
        2 <= capacity,
        before.len() <= capacity,
    ensures
        ({
            let after = after_sized_draw(before, capacity, x, y, size, content);
            let kept = after.len() - 2;
            let dropped = before.len() - kept;
            &&& before.len() + 2 <= capacity ==> after.len() == before.len() + 2
            &&& before.len() + 2 > capacity ==> after.len() == capacity
            &&& after[after.len() - 2] == CommandView::SetFontSize { size }
            &&& after[after.len() - 1] == CommandView::Text { content, x, y }
            &&& 0 <= dropped <= 2
            &&& forall|i: int| 0 <= i < kept ==> after[i] == before[i + dropped]
        }),
{
}

} // verus!
