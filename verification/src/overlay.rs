//! The overlay coordinator: the scaling state of the overlay and the
//! render tick, written as a machine that asks its caller for the drawing
//! and the arithmetic it cannot do itself.

use vstd::prelude::*;
use crate::channel::CommandChannel;
use crate::command::{CommandView, DrawCommand};
use crate::single::Single;
use crate::geometry::{get_screen_size, screen_of, window_of, window_size, Extent, WindowInfo};
use crate::single::ONE_BITS;
use crate::surface::{surface_id, surface_id_of};

verus! {

/// Encoding of the font size the overlay starts with, 24.
pub const DEFAULT_FONT_SIZE_BITS: u32 = 0x41C0_0000;

/// Encoding of the pixel size the overlay's font was loaded at, 13.
pub const BASE_FONT_SIZE_BITS: u32 = 0x4150_0000;

/// Encoding of the smallest aspect factor that correction lets through,
/// the single-precision number nearest to 0.8.
pub const ASPECT_FLOOR_BITS: u32 = 0x3F4C_CCCD;

/// A horizontal and a vertical factor.
#[derive(Clone, Copy, Debug, PartialEq, Eq, Structural)]
pub struct Scale {
    pub width: Single,
    pub height: Single,
}

/// A position.
#[derive(Clone, Copy, Debug, PartialEq, Eq, Structural)]
pub struct Point {
    pub x: Single,
    pub y: Single,
}

/// The scaling state that draw commands are shown under.
#[derive(Clone, Copy, Debug, PartialEq, Eq, Structural)]
pub struct OverlayState {
    /// Multiplier applied to captured coordinates.
    pub text_scale: Scale,
    /// Display font size in overlay points.
    pub font_size: Single,
}

/// What the caller reports to the coordinator.
#[derive(Clone, Copy, Debug, PartialEq, Eq, Structural)]
pub enum RenderEvent {
    /// The host is about to show a frame.
    FrameStart,
    /// The surface asked for has been drawn.
    Drawn,
    /// Screen size divided by window size, per axis.
    Ratio(Scale),
    /// Scale times aspect factor, per axis.
    Product(Scale),
    /// The scaled position, wrapped onto the screen.
    Placed(Point),
}

/// What the coordinator asks of its caller.
#[derive(Debug, PartialEq, Eq)]
pub enum RenderAction {
    /// Draw the invisible one-pixel surface that keeps a frame from being
    /// empty, then report `Drawn`.
    DrawPlaceholder,
    /// Divide `screen` by `window` per axis and report the `Ratio`.
    Divide { screen: Extent, window: Extent },
    /// Multiply `scale` by `aspect` per axis and report the `Product`.
    Multiply { scale: Scale, aspect: Scale },
    /// Multiply `captured` by `scale` per axis, wrap the result into
    /// `screen` with a floored remainder, and report where it was `Placed`.
    Place { captured: Point, scale: Scale, screen: Extent },
    /// Draw `content` at `at` on the borderless, inert surface `surface` of
    /// the size of `screen`, the font scaled by `font_size` over
    /// `base_font_size`, then report `Drawn`.
    DrawText {
        surface: u64,
        content: String,
        captured: Point,
        at: Point,
        font_size: Single,
        base_font_size: Single,
        screen: Extent,
    },
    /// The channel is drained; the tick is over.
    Finished,
    /// The event answers nothing the coordinator asked for; nothing changed.
    Rejected,
}

/// A request of the coordinator, with its text as a sequence of characters.
pub enum ActionView {
    DrawPlaceholder,
    Divide { screen: Extent, window: Extent },
    Multiply { scale: Scale, aspect: Scale },
    Place { captured: Point, scale: Scale, screen: Extent },
    DrawText {
        surface: u64,
        content: Seq<char>,
        captured: Point,
        at: Point,
        font_size: Single,
        base_font_size: Single,
        screen: Extent,
    },
    Finished,
    Rejected,
}

impl View for RenderAction {
    type V = ActionView;

    open spec fn view(&self) -> ActionView {
        match *self {
            RenderAction::DrawPlaceholder => ActionView::DrawPlaceholder,
            RenderAction::Divide { screen, window } => ActionView::Divide { screen, window },
            RenderAction::Multiply { scale, aspect } => ActionView::Multiply { scale, aspect },
            RenderAction::Place { captured, scale, screen } => ActionView::Place { captured, scale, screen },
            RenderAction::DrawText { surface, content, captured, at, font_size, base_font_size, screen } => {
                ActionView::DrawText {
                    surface,
                    content: content@,
                    captured,
                    at,
                    font_size,
                    base_font_size,
                    screen,
                }
            },
            RenderAction::Finished => ActionView::Finished,
            RenderAction::Rejected => ActionView::Rejected,
        }
    }
}

/// What the coordinator is waiting for.
#[derive(Debug)]
pub enum Pending {
    /// The start of a frame.
    Idle,
    /// The placeholder to be drawn.
    Placeholder,
    /// The aspect ratio for a reset of the text scale.
    ResetRatio,
    /// The aspect ratio for a new text scale.
    ScaleRatio { width_scale: Single, height_scale: Single, font_size: Single },
    /// The corrected text scale.
    Product { font_size: Single },
    /// The place of a text on the screen.
    Placement { content: String, captured: Point },
    /// A text to be drawn.
    Drawing,
}

/// What the coordinator is waiting for, with its text as a sequence of
/// characters.
pub enum PendingView {
    Idle,
    Placeholder,
    ResetRatio,
    ScaleRatio { width_scale: Single, height_scale: Single, font_size: Single },
    Product { font_size: Single },
    Placement { content: Seq<char>, captured: Point },
    Drawing,
}

impl View for Pending {
    type V = PendingView;

    open spec fn view(&self) -> PendingView {
        match *self {
            Pending::Idle => PendingView::Idle,
            Pending::Placeholder => PendingView::Placeholder,
            Pending::ResetRatio => PendingView::ResetRatio,
            Pending::ScaleRatio { width_scale, height_scale, font_size } => PendingView::ScaleRatio {
                width_scale,
                height_scale,
                font_size,
            },
            Pending::Product { font_size } => PendingView::Product { font_size },
            Pending::Placement { content, captured } => PendingView::Placement { content: content@, captured },
            Pending::Drawing => PendingView::Drawing,
        }
    }
}

/// The coordinator as a value: its scaling state and what it waits for.
pub struct Model {
    pub state: OverlayState,
    pub pending: PendingView,
}

/// One step of the coordinator: what it becomes, what is left on the
/// channel, and what it asks for.
pub struct Outcome {
    pub model: Model,
    pub queue: Seq<CommandView>,
    pub action: ActionView,
}

/// The state a coordinator starts in: scale one by one, font size 24.
pub open spec fn initial_state() -> OverlayState {
    OverlayState {
        text_scale: Scale { width: Single { bits: ONE_BITS }, height: Single { bits: ONE_BITS } },
        font_size: Single { bits: DEFAULT_FONT_SIZE_BITS },
    }
}

/// `factor` raised to the aspect floor where it is below it.
pub open spec fn floored(factor: Single) -> Single {
    if factor.lt(Single { bits: ASPECT_FLOOR_BITS }) {
        Single { bits: ASPECT_FLOOR_BITS }
    } else {
        factor
    }
}

/// The aspect factors for a new text scale: each ratio, but no less than
/// the aspect floor.
pub open spec fn corrected(ratio: Scale) -> Scale {
    Scale { width: floored(ratio.width), height: floored(ratio.height) }
}

/// The text scale after `product` was computed for it: `product` where it
/// differs from `current` as a pair of numbers, else `current`.
pub open spec fn replaced(current: Scale, product: Scale) -> Scale {
    if !product.width.same_number(current.width) || !product.height.same_number(current.height) {
        product
    } else {
        current
    }
}

/// Takes commands off `queue` until one needs the caller: font sizes are
/// applied on the way; a text asks for its place, a new or reset text scale
/// for the aspect ratio; the empty queue ends the tick.
pub open spec fn advance(state: OverlayState, queue: Seq<CommandView>, window: Option<WindowInfo>) -> Outcome
    decreases queue.len(),
{
    if queue.len() == 0 {
        Outcome { model: Model { state, pending: PendingView::Idle }, queue, action: ActionView::Finished }
    } else {
        let rest = queue.drop_first();
        match queue.first() {
            CommandView::SetFontSize { size } => advance(
                OverlayState { text_scale: state.text_scale, font_size: size },
                rest,
                window,
            ),
            CommandView::Text { content, x, y } => Outcome {
                model: Model { state, pending: PendingView::Placement { content, captured: Point { x, y } } },
                queue: rest,
                action: ActionView::Place {
                    captured: Point { x, y },
                    scale: state.text_scale,
                    screen: screen_of(window),
                },
            },
            CommandView::SetTextScale { width_scale, height_scale, font_size } => Outcome {
                model: Model { state, pending: PendingView::ScaleRatio { width_scale, height_scale, font_size } },
                queue: rest,
                action: ActionView::Divide { screen: screen_of(window), window: window_of(window) },
            },
            CommandView::ResetTextScale => Outcome {
                model: Model { state, pending: PendingView::ResetRatio },
                queue: rest,
                action: ActionView::Divide { screen: screen_of(window), window: window_of(window) },
            },
        }
    }
}

/// What the coordinator does on `event`.
pub open spec fn react(
    model: Model,
    queue: Seq<CommandView>,
    event: RenderEvent,
    window: Option<WindowInfo>,
) -> Outcome {
    let state = model.state;
    match (model.pending, event) {
        (PendingView::Idle, RenderEvent::FrameStart) => Outcome {
            model: Model { state, pending: PendingView::Placeholder },
            queue,
            action: ActionView::DrawPlaceholder,
        },
        (PendingView::Placeholder, RenderEvent::Drawn) => advance(state, queue, window),
        (PendingView::Drawing, RenderEvent::Drawn) => advance(state, queue, window),
        (PendingView::ResetRatio, RenderEvent::Ratio(ratio)) => advance(
            OverlayState { text_scale: ratio, font_size: state.font_size },
            queue,
            window,
        ),
        (PendingView::ScaleRatio { width_scale, height_scale, font_size }, RenderEvent::Ratio(ratio)) => Outcome {
            model: Model { state, pending: PendingView::Product { font_size } },
            queue,
            action: ActionView::Multiply {
                scale: Scale { width: width_scale, height: height_scale },
                aspect: corrected(ratio),
            },
        },
        (PendingView::Product { font_size }, RenderEvent::Product(product)) => advance(
            OverlayState { text_scale: replaced(state.text_scale, product), font_size },
            queue,
            window,
        ),
        (PendingView::Placement { content, captured }, RenderEvent::Placed(at)) => Outcome {
            model: Model { state, pending: PendingView::Drawing },
            queue,
            action: ActionView::DrawText {
                surface: surface_id_of(captured.x, captured.y, at.x, at.y, content),
                content,
                captured,
                at,
                font_size: state.font_size,
                base_font_size: Single { bits: BASE_FONT_SIZE_BITS },
                screen: screen_of(window),
            },
        },
        _ => Outcome { model, queue, action: ActionView::Rejected },
    }
}

/// The overlay coordinator.
#[derive(Debug)]
pub struct DebugTextRender {
    state: OverlayState,
    pending: Pending,
}

impl View for DebugTextRender {
    type V = Model;

    closed spec fn view(&self) -> Model {
        Model { state: self.state, pending: self.pending@ }
    }
}

impl DebugTextRender {
    /// A coordinator in its initial state, waiting for the first frame.
    pub fn new() -> (render: DebugTextRender)
        ensures
            render@ == (Model { state: initial_state(), pending: PendingView::Idle }),
    {
        DebugTextRender {
            state: OverlayState {
                text_scale: Scale { width: Single { bits: ONE_BITS }, height: Single { bits: ONE_BITS } },
                font_size: Single { bits: DEFAULT_FONT_SIZE_BITS },
            },
            pending: Pending::Idle,
        }
    }

    /// The current scaling state.
    pub fn state(&self) -> (state: OverlayState)
        ensures
            state == self@.state,
    {
        self.state
    }

    /// The aspect factors for a new text scale: `ratio`, each axis raised
    /// to the aspect floor where it is below it.
    pub fn get_aspect_ratios(ratio: Scale) -> (aspect: Scale)
        ensures
            aspect == corrected(ratio),
    {
        let floor = Single { bits: ASPECT_FLOOR_BITS };
        Scale { width: ratio.width.at_least(floor), height: ratio.height.at_least(floor) }
    }

    /// Makes `ratio` the text scale as it is, with no floor.
    pub fn reset_size(&mut self, ratio: Scale)
        ensures
            final(self)@ == (Model {
                state: OverlayState { text_scale: ratio, font_size: old(self)@.state.font_size },
                pending: old(self)@.pending,
            }),
    {
        self.state.text_scale = ratio;
    }

    /// Takes commands off the channel until one needs the caller.
    fn drain(&mut self, channel: &mut CommandChannel, window: Option<WindowInfo>) -> (action: RenderAction)
        ensures
            final(channel).capacity() == old(channel).capacity(),
            ({
                let next = advance(old(self)@.state, old(channel)@, window);
                final(self)@ == next.model && final(channel)@ == next.queue && action@ == next.action
            }),
    {
        loop
            invariant
                channel.capacity() == old(channel).capacity(),
                advance(self.state, channel@, window) == advance(old(self)@.state, old(channel)@, window),
            decreases channel@.len(),
        {
            match channel.pop() {
                None => {
                    self.pending = Pending::Idle;
                    return RenderAction::Finished;
                },
                Some(DrawCommand::SetFontSize(size)) => {
                    self.state.font_size = size;
                },
                Some(DrawCommand::Text(content, x, y)) => {
                    let captured = Point { x, y };
                    self.pending = Pending::Placement { content, captured };
                    return RenderAction::Place {
                        captured,
                        scale: self.state.text_scale,
                        screen: get_screen_size(window),
                    };
                },
                Some(DrawCommand::SetTextScale(width_scale, height_scale, font_size)) => {
                    self.pending = Pending::ScaleRatio { width_scale, height_scale, font_size };
                    return RenderAction::Divide { screen: get_screen_size(window), window: window_size(window) };
                },
                Some(DrawCommand::ResetTextScale) => {
                    self.pending = Pending::ResetRatio;
                    return RenderAction::Divide { screen: get_screen_size(window), window: window_size(window) };
                },
            }
        }
    }

    /// One step of the render tick. A frame starts with `FrameStart`; each
    /// action but `Finished` and `Rejected` is answered with the event it
    /// names, until `Finished` comes back. Between two actions the
    /// coordinator takes off the channel every command that it can settle
    /// alone.
    pub fn render(
        &mut self,
        channel: &mut CommandChannel,
        event: RenderEvent,
        window: Option<WindowInfo>,
    ) -> (action: RenderAction)
        ensures
            final(channel).capacity() == old(channel).capacity(),
            ({
                let next = react(old(self)@, old(channel)@, event, window);
                final(self)@ == next.model && final(channel)@ == next.queue && action@ == next.action
            }),
    {
        let mut pending = Pending::Idle;
        core::mem::swap(&mut self.pending, &mut pending);
        match (pending, event) {
            (Pending::Idle, RenderEvent::FrameStart) => {
                self.pending = Pending::Placeholder;
                RenderAction::DrawPlaceholder
            },
            (Pending::Placeholder, RenderEvent::Drawn) => self.drain(channel, window),
            (Pending::Drawing, RenderEvent::Drawn) => self.drain(channel, window),
            (Pending::ResetRatio, RenderEvent::Ratio(ratio)) => {
                self.reset_size(ratio);
                self.drain(channel, window)
            },
            (Pending::ScaleRatio { width_scale, height_scale, font_size }, RenderEvent::Ratio(ratio)) => {
                self.pending = Pending::Product { font_size };
                RenderAction::Multiply {
                    scale: Scale { width: width_scale, height: height_scale },
                    aspect: Self::get_aspect_ratios(ratio),
                }
            },
            (Pending::Product { font_size }, RenderEvent::Product(product)) => {
                let current = self.state.text_scale;
                if product.width.differs(current.width) || product.height.differs(current.height) {
                    self.state.text_scale = product;
                }
                self.state.font_size = font_size;
                self.drain(channel, window)
            },
            (Pending::Placement { content, captured }, RenderEvent::Placed(at)) => {
                let surface = surface_id(captured.x, captured.y, at.x, at.y, content.as_str());
                self.pending = Pending::Drawing;
                RenderAction::DrawText {
                    surface,
                    content,
                    captured,
                    at,
                    font_size: self.state.font_size,
                    base_font_size: Single { bits: BASE_FONT_SIZE_BITS },
                    screen: get_screen_size(window),
                }
            },
            (unanswered, _) => {
                self.pending = unanswered;
                RenderAction::Rejected
            },
        }
    }
}

/// Aspect-ratio correction returns exactly the floor for a factor below
/// it, and every other factor unchanged.
pub proof fn lemma_correction_floors(ratio: Scale)
    ensures
        ratio.width.lt(Single { bits: ASPECT_FLOOR_BITS }) ==> corrected(ratio).width.bits == ASPECT_FLOOR_BITS,
        !ratio.width.lt(Single { bits: ASPECT_FLOOR_BITS }) ==> corrected(ratio).width == ratio.width,
        ratio.height.lt(Single { bits: ASPECT_FLOOR_BITS }) ==> corrected(ratio).height.bits
            == ASPECT_FLOOR_BITS,
        !ratio.height.lt(Single { bits: ASPECT_FLOOR_BITS }) ==> corrected(ratio).height == ratio.height,
        !corrected(ratio).width.lt(Single { bits: ASPECT_FLOOR_BITS }),
        !corrected(ratio).height.lt(Single { bits: ASPECT_FLOOR_BITS }),
{
}

/// A reset takes the text scale from the geometry as it is, with no floor;
/// a new text scale is multiplied by floored factors. `after_reset` and
/// `after_scale` are what the coordinator does with the same `ratio` while
/// it waits for it on account of a reset and of a new scale.
pub proof fn lemma_reset_without_floor_scale_with_floor(
    state: OverlayState,
    ratio: Scale,
    width_scale: Single,
    height_scale: Single,
    font_size: Single,
    window: Option<WindowInfo>,
)
    ensures
        ({
            let after_reset = react(
                Model { state, pending: PendingView::ResetRatio },
                Seq::empty(),
                RenderEvent::Ratio(ratio),
                window,
            );
            let after_scale = react(
                Model { state, pending: PendingView::ScaleRatio { width_scale, height_scale, font_size } },
                Seq::empty(),
                RenderEvent::Ratio(ratio),
                window,
            );
            &&& after_reset.model.state.text_scale == ratio
            &&& after_reset.model.state.font_size == state.font_size
            &&& after_scale.model.state == state
            &&& after_scale.action == ActionView::Multiply {
                scale: Scale { width: width_scale, height: height_scale },
                aspect: corrected(ratio),
            }
            &&& !corrected(ratio).width.lt(Single { bits: ASPECT_FLOOR_BITS })
            &&& !corrected(ratio).height.lt(Single { bits: ASPECT_FLOOR_BITS })
        }),
{
}

/// A tick on an empty channel draws the placeholder and ends: nothing is
/// taken off, nothing is asked for, and the scaling state stays.
pub proof fn lemma_empty_channel_ends_tick(state: OverlayState, window: Option<WindowInfo>)
    ensures
        react(
            Model { state, pending: PendingView::Idle },
            Seq::empty(),
            RenderEvent::FrameStart,
            window,
        ) == (Outcome {
            model: Model { state, pending: PendingView::Placeholder },
            queue: Seq::empty(),
            action: ActionView::DrawPlaceholder,
        }),
        react(
            Model { state, pending: PendingView::Placeholder },
            Seq::empty(),
            RenderEvent::Drawn,
            window,
        ) == (Outcome {
            model: Model { state, pending: PendingView::Idle },
            queue: Seq::empty(),
            action: ActionView::Finished,
        }),
{
}

/// The coordinator never takes a command off the channel without settling
/// it or asking for it: what it leaves is a tail of what it found.
pub proof fn lemma_advance_leaves_tail(state: OverlayState, queue: Seq<CommandView>, window: Option<WindowInfo>)
    ensures
        advance(state, queue, window).queue.len() <= queue.len(),
        advance(state, queue, window).queue == queue.skip(
            queue.len() - advance(state, queue, window).queue.len(),
        ),
        advance(state, queue, window).action is Finished <==> advance(state, queue, window).model.pending
            is Idle,
        advance(state, queue, window).action is Finished ==> advance(state, queue, window).queue.len() == 0,
    decreases queue.len(),
{
    if queue.len() == 0 {
        assert(queue.skip(0) =~= queue);
    } else {
        let rest = queue.drop_first();
        match queue.first() {
            CommandView::SetFontSize { size } => {
                let inner = OverlayState { text_scale: state.text_scale, font_size: size };
                lemma_advance_leaves_tail(inner, rest, window);
                let left = advance(inner, rest, window).queue;
                assert(rest.skip(rest.len() - left.len()) =~= queue.skip(queue.len() - left.len()));
            },
            _ => {
                assert(rest =~= queue.skip(1));
            },
        }
    }
}

} // verus!
