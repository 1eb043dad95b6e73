use debug_text_view::geometry::{
    get_screen_size, window_size, DisplayMode, Extent, WindowInfo, FALLBACK_HEIGHT, FALLBACK_WIDTH,
};

fn window(mode: DisplayMode) -> WindowInfo {
    WindowInfo {
        screen: Extent { width: 2560, height: 1440 },
        mode,
        windowed: Extent { width: 1280, height: 720 },
        fullscreen: Extent { width: 1920, height: 1080 },
        borderless: Extent { width: 2560, height: 1440 },
    }
}

#[test]
fn missing_window_gives_the_fallback_for_both() {
    assert_eq!(get_screen_size(None), Extent { width: 1920, height: 1080 });
    assert_eq!(window_size(None), Extent { width: 1920, height: 1080 });
    assert_eq!([get_screen_size(None).width as f32, get_screen_size(None).height as f32], [1920.0, 1080.0]);
    assert_eq!([window_size(None).width as f32, window_size(None).height as f32], [1920.0, 1080.0]);
    assert_eq!((FALLBACK_WIDTH, FALLBACK_HEIGHT), (1920, 1080));
}

#[test]
fn screen_size_is_the_hosts() {
    assert_eq!(get_screen_size(Some(window(DisplayMode::Windowed))), Extent { width: 2560, height: 1440 });
}

#[test]
fn window_size_follows_the_display_mode() {
    assert_eq!(window_size(Some(window(DisplayMode::Windowed))), Extent { width: 1280, height: 720 });
    assert_eq!(window_size(Some(window(DisplayMode::Fullscreen))), Extent { width: 1920, height: 1080 });
    assert_eq!(window_size(Some(window(DisplayMode::Borderless))), Extent { width: 2560, height: 1440 });
}

#[test]
fn zero_and_negative_sizes_pass_through() {
    let mut info = window(DisplayMode::Windowed);
    info.windowed = Extent { width: 0, height: -1 };
    assert_eq!(window_size(Some(info)), Extent { width: 0, height: -1 });
}
