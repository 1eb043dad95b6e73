use debug_text_view::channel::CommandChannel;
use debug_text_view::command::DrawCommand;
use debug_text_view::single::Single;
use debug_text_view::intercept::{
    on_draw_text_with_size, on_reset_text_scale, on_set_font_size, on_set_text_scale, on_text_render_request,
    EntryPoint, DRAW_TEXT_WITH_SIZE_RVA, ENTRY_POINT_COUNT, RESET_TEXT_SCALE_RVA, SET_FONT_SIZE_RVA,
    SET_TEXT_SCALE_RVA, TEXT_RENDER_REQUEST_RVA,
};

fn num(value: f32) -> Single {
    Single::from_bits(value.to_bits())
}

fn wide(text: &str) -> Vec<u16> {
    text.encode_utf16().chain([0u16]).collect()
}

#[test]
fn offsets_are_the_fixed_ones() {
    assert_eq!(TEXT_RENDER_REQUEST_RVA, 0x264ef60);
    assert_eq!(SET_FONT_SIZE_RVA, 0xbb6310);
    assert_eq!(SET_TEXT_SCALE_RVA, 0x1def10);
    assert_eq!(RESET_TEXT_SCALE_RVA, 0xbb6290);
    assert_eq!(DRAW_TEXT_WITH_SIZE_RVA, 0x264eec0);
    assert_eq!(EntryPoint::TextRenderRequest.rva(), 0x264ef60);
    assert_eq!(EntryPoint::SetFontSize.rva(), 0xbb6310);
    assert_eq!(EntryPoint::SetTextScale.rva(), 0x1def10);
    assert_eq!(EntryPoint::ResetTextScale.rva(), 0xbb6290);
    assert_eq!(EntryPoint::DrawTextWithSize.rva(), 0x264eec0);
}

#[test]
fn only_the_state_changing_routines_call_through() {
    assert!(!EntryPoint::TextRenderRequest.calls_through());
    assert!(EntryPoint::SetFontSize.calls_through());
    assert!(EntryPoint::SetTextScale.calls_through());
    assert!(EntryPoint::ResetTextScale.calls_through());
    assert!(!EntryPoint::DrawTextWithSize.calls_through());
}

#[test]
fn entry_points_come_in_installation_order() {
    assert_eq!(ENTRY_POINT_COUNT, 5);
    assert_eq!(EntryPoint::nth(0), Some(EntryPoint::TextRenderRequest));
    assert_eq!(EntryPoint::nth(1), Some(EntryPoint::SetFontSize));
    assert_eq!(EntryPoint::nth(2), Some(EntryPoint::SetTextScale));
    assert_eq!(EntryPoint::nth(3), Some(EntryPoint::ResetTextScale));
    assert_eq!(EntryPoint::nth(4), Some(EntryPoint::DrawTextWithSize));
    assert_eq!(EntryPoint::nth(5), None);
    assert_eq!(EntryPoint::nth(usize::MAX), None);
}

#[test]
fn text_render_request_enqueues_the_text() {
    let mut channel = CommandChannel::new();
    on_text_render_request(&mut channel, num(12.5), num(-3.0), &wide("HP 100"));
    assert_eq!(channel.pop(), Some(DrawCommand::Text(String::from("HP 100"), num(12.5), num(-3.0))));
    assert_eq!(channel.pop(), None);
}

#[test]
fn text_render_request_with_bad_text_enqueues_the_sentinel() {
    let mut channel = CommandChannel::new();
    on_text_render_request(&mut channel, num(1.0), num(2.0), &[0x48, 0xDC00, 0]);
    assert_eq!(
        channel.pop(),
        Some(DrawCommand::Text(String::from("?EncodingError?"), num(1.0), num(2.0)))
    );
}

#[test]
fn set_font_size_enqueues_the_size() {
    let mut channel = CommandChannel::new();
    on_set_font_size(&mut channel, num(18.0));
    assert_eq!(channel.pop(), Some(DrawCommand::SetFontSize(num(18.0))));
    assert_eq!(channel.pop(), None);
}

#[test]
fn set_text_scale_enqueues_all_three() {
    let mut channel = CommandChannel::new();
    on_set_text_scale(&mut channel, num(1.25), num(0.75), num(20.0));
    assert_eq!(channel.pop(), Some(DrawCommand::SetTextScale(num(1.25), num(0.75), num(20.0))));
    assert_eq!(channel.pop(), None);
}

#[test]
fn reset_text_scale_enqueues_the_reset() {
    let mut channel = CommandChannel::new();
    on_reset_text_scale(&mut channel);
    assert_eq!(channel.pop(), Some(DrawCommand::ResetTextScale));
    assert_eq!(channel.pop(), None);
}

#[test]
fn draw_text_with_size_enqueues_size_then_text() {
    let mut channel = CommandChannel::new();
    on_draw_text_with_size(&mut channel, num(100.0), num(200.0), num(32.0), &wide("boss"));
    assert_eq!(channel.pop(), Some(DrawCommand::SetFontSize(num(32.0))));
    assert_eq!(channel.pop(), Some(DrawCommand::Text(String::from("boss"), num(100.0), num(200.0))));
    assert_eq!(channel.pop(), None);
}

#[test]
fn draw_text_with_size_on_a_full_channel_still_ends_with_the_pair() {
    let mut channel = CommandChannel::with_capacity(3).unwrap();
    on_set_font_size(&mut channel, num(1.0));
    on_set_font_size(&mut channel, num(2.0));
    on_set_font_size(&mut channel, num(3.0));
    on_draw_text_with_size(&mut channel, num(5.0), num(6.0), num(9.0), &wide("x"));
    assert_eq!(channel.pop(), Some(DrawCommand::SetFontSize(num(3.0))));
    assert_eq!(channel.pop(), Some(DrawCommand::SetFontSize(num(9.0))));
    assert_eq!(channel.pop(), Some(DrawCommand::Text(String::from("x"), num(5.0), num(6.0))));
    assert_eq!(channel.pop(), None);
}

#[test]
fn calls_of_one_site_keep_their_order() {
    let mut channel = CommandChannel::new();
    on_set_font_size(&mut channel, num(10.0));
    on_text_render_request(&mut channel, num(0.0), num(0.0), &wide("first"));
    on_reset_text_scale(&mut channel);
    on_text_render_request(&mut channel, num(0.0), num(16.0), &wide("second"));
    assert_eq!(channel.pop(), Some(DrawCommand::SetFontSize(num(10.0))));
    assert_eq!(channel.pop(), Some(DrawCommand::Text(String::from("first"), num(0.0), num(0.0))));
    assert_eq!(channel.pop(), Some(DrawCommand::ResetTextScale));
    assert_eq!(channel.pop(), Some(DrawCommand::Text(String::from("second"), num(0.0), num(16.0))));
}
