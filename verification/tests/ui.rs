//! The widget tree: renders, layout, window framing and the manager.

use crossterm::style::Stylize;
use unicode_segmentation::UnicodeSegmentation;

use lowfi::context::{ComponentEvent, EventResult, PlaybackState, RenderContext, TrackInfo};
use lowfi::control::PlaybackInfo;
use lowfi::extras::{
    ConnectionStatus, EqualizerPreset, LyricsDisplay, NetworkStatus, PlaylistView,
    SpectrumAnalyzer,
};
use lowfi::layout::{create_advanced_layout, Component, ComponentFactory, DynamicComponent,
    HStack, VStack, Widget};
use lowfi::manager::{flash_audio, UIManager};
use lowfi::text::format_duration;
use lowfi::widgets::{ControlBar, Label, ProgressBar, StatusBar, TextStyle, VolumeBar};
use lowfi::window::ComponentWindow;

fn context(width: usize) -> RenderContext {
    RenderContext {
        width,
        playback_state: PlaybackState::Playing,
        track_info: None,
        volume: 50,
        position_secs: 0,
        is_bookmarked: false,
        borderless: false,
    }
}

fn track_info(name: &str, width: usize, duration_secs: Option<u64>) -> TrackInfo {
    TrackInfo {
        name: name.to_string(),
        display_name: name.to_string(),
        width,
        duration_secs,
    }
}

#[test]
fn test_custom_component_creation() {
    // Create a custom layout
    let layout = create_advanced_layout();

    // Create a render context
    let context = RenderContext {
        width: 80,
        playback_state: PlaybackState::Playing,
        track_info: Some(TrackInfo {
            name: "test_track".to_string(),
            display_name: "Test Track".to_string(),
            width: 10,
            duration_secs: Some(180),
        }),
        volume: 75,
        position_secs: 45,
        is_bookmarked: false,
        borderless: false,
    };

    // Render the layout
    let output = layout.render(&context);
    assert!(!output.is_empty());
}

#[test]
fn test_dynamic_component_switching() {
    let mut dynamic = DynamicComponent::new();

    // Add different states
    let progress_idx = dynamic.add_state(Widget::Progress(ProgressBar::new()));
    let volume_idx = dynamic.add_state(Widget::Volume(VolumeBar::new()));
    let spectrum_idx = dynamic.add_state(Widget::Spectrum(SpectrumAnalyzer::new(10)));

    // Switch between states
    dynamic.set_state(progress_idx);
    assert_eq!(dynamic.current_state(), progress_idx);

    dynamic.set_state(volume_idx);
    assert_eq!(dynamic.current_state(), volume_idx);

    dynamic.set_state(spectrum_idx);
    assert_eq!(dynamic.current_state(), spectrum_idx);
}

#[test]
fn format_duration_exact() {
    assert_eq!(format_duration(0), "00:00");
    assert_eq!(format_duration(59), "00:59");
    assert_eq!(format_duration(125), "02:05");
    assert_eq!(format_duration(3599), "59:59");
    assert_eq!(format_duration(3600), "60:00");
    assert_eq!(format_duration(6543), "109:03");
    assert_eq!(ProgressBar::format_duration(125), "02:05");
}

#[test]
fn label_renders_with_style() {
    let ctx = context(20);
    let plain = Label::new("hi".to_string());
    assert_eq!(plain.render(&ctx), "hi");
    let bold = Label::new("hi".to_string()).with_style(TextStyle::Bold);
    assert_eq!(bold.render(&ctx), format!("{}", "hi".bold()));
    let italic = Label::new("hi".to_string()).with_style(TextStyle::Italic);
    assert_eq!(italic.render(&ctx), format!("{}", "hi".italic()));
    let underline = Label::new("hi".to_string()).with_style(TextStyle::Underline);
    assert_eq!(underline.render(&ctx), format!("{}", "hi".underlined()));
}

#[test]
fn label_min_width_counts_graphemes() {
    // A combining accent joins its base character into one cluster.
    let label = Label::new("e\u{301}!".to_string());
    assert_eq!(label.min_width(), 2);
    assert_eq!(Label::new(String::new()).min_width(), 0);
}

#[test]
fn volume_bar_exact_render() {
    let ctx = context(27);
    let bar = VolumeBar::new();
    assert_eq!(bar.render(&ctx), " volume: [/////     ]  50% ");
    assert_eq!(bar.min_width(), 20);

    let full = RenderContext { volume: 100, ..context(27) };
    assert_eq!(bar.render(&full), " volume: [//////////] 100% ");
}

#[test]
fn progress_bar_exact_render() {
    let mut ctx = context(26);
    ctx.track_info = Some(track_info("t", 1, Some(100)));
    ctx.position_secs = 50;
    let bar = ProgressBar::new();
    assert_eq!(bar.render(&ctx), " [/////     ] 00:50/01:40 ");
    assert_eq!(bar.min_width(), 20);

    // No known duration: an empty bar and a zero total.
    ctx.track_info = Some(track_info("t", 1, None));
    assert_eq!(bar.render(&ctx), " [          ] 00:50/00:00 ");

    // Custom characters without the time display: the bar takes the
    // whole width.
    let plain = ProgressBar::new().with_chars('#', '.').with_time_display(false);
    let mut ctx2 = context(12);
    ctx2.track_info = Some(track_info("t", 1, Some(100)));
    ctx2.position_secs = 100;
    assert_eq!(plain.render(&ctx2), " [############] ");
    assert_eq!(plain.min_width(), 5);
}

#[test]
fn status_bar_render_and_padding() {
    let mut ctx = context(30);
    ctx.track_info = Some(track_info("Test Track", 10, Some(180)));
    let bar = StatusBar::new();
    let mut expected = String::from("playing ");
    expected.push_str(&format!("{}", "Test Track".bold()));
    expected.push_str(&" ".repeat(12));
    assert_eq!(bar.render(&ctx), expected);

    // Bookmarked: the mark costs one padding cell.
    ctx.is_bookmarked = true;
    let mut expected = String::from("playing *");
    expected.push_str(&format!("{}", "Test Track".bold()));
    expected.push_str(&" ".repeat(11));
    assert_eq!(bar.render(&ctx), expected);

    // No track: the bare status word, padded — its claimed width counts
    // the word twice, so it needs twice the room.
    let loading = RenderContext { playback_state: PlaybackState::Loading, ..context(16) };
    assert_eq!(bar.render(&loading), format!("loading{}", " ".repeat(2)));
    let paused = RenderContext { playback_state: PlaybackState::Paused, ..context(16) };
    assert_eq!(bar.render(&paused), format!("paused{}", " ".repeat(4)));
    // Too narrow: the word is cut with an ellipsis.
    let narrow = RenderContext { playback_state: PlaybackState::Loading, ..context(10) };
    assert_eq!(bar.render(&narrow), "loading...");
}

#[test]
fn status_bar_truncates_on_overflow() {
    let mut ctx = context(12);
    ctx.track_info = Some(track_info("Quite A Long Name", 17, None));
    let bar = StatusBar::new();
    let full = format!("playing {}", "Quite A Long Name".bold());
    let expected: String =
        full.graphemes(true).take(9).collect::<String>() + "...";
    assert_eq!(bar.render(&ctx), expected);
}

#[test]
fn control_bar_spacing_and_even_width() {
    let bar = ControlBar::new();
    // Width 21, hints total 19, two gaps: one space each; odd width.
    let expected = format!(
        "{}kip {}ause {}uit",
        "[s]".bold(),
        "[p]".bold(),
        "[q]".bold()
    );
    assert_eq!(bar.render(&context(21)), expected);
    // An even width gets one trailing space.
    let expected_even = format!(
        "{}kip  {}ause  {}uit ",
        "[s]".bold(),
        "[p]".bold(),
        "[q]".bold()
    );
    assert_eq!(bar.render(&context(24)), expected_even);

    let custom = ControlBar::new().with_controls(vec![(
        "[x]".to_string(),
        "it".to_string(),
    )]);
    assert_eq!(custom.render(&context(21)), format!("{}it", "[x]".bold()));
}

#[test]
fn playlist_view_window_and_marker() {
    let mut view = PlaylistView::new(3);
    let ctx = context(20);
    assert_eq!(view.render(&ctx), "No tracks in playlist");

    view.set_tracks(vec![
        "alpha".to_string(),
        "beta".to_string(),
        "gamma".to_string(),
        "delta".to_string(),
    ]);
    view.set_current(1);
    let expected = format!("  alpha\n{}beta\n  gamma", "\u{25b6} ".bold());
    assert_eq!(view.render(&ctx), expected);
    assert_eq!(view.height(), 3);

    // Long names are cut to the width with an ellipsis.
    let mut narrow = PlaylistView::new(1);
    narrow.set_tracks(vec!["abcdefghij".to_string()]);
    narrow.set_current(0);
    let ctx9 = context(9);
    assert_eq!(narrow.render(&ctx9), format!("{}abc...", "\u{25b6} ".bold()));
}

#[test]
fn lyrics_display_follows_position() {
    let mut lyrics = LyricsDisplay::new();
    let ctx = context(30);
    assert_eq!(lyrics.render(&ctx), format!("{}", "No lyrics available".italic()));

    lyrics.load_lyrics(vec![(0, "first".to_string()), (10, "second".to_string())]);
    let mut at5 = context(30);
    at5.position_secs = 5;
    assert_eq!(lyrics.render(&at5), format!("{}", "first".bold()));

    let timed = LyricsDisplay::new();
    let mut timed = timed.with_timestamps(true);
    timed.load_lyrics(vec![(0, "first".to_string()), (10, "second".to_string())]);
    let mut at12 = context(30);
    at12.position_secs = 12;
    assert_eq!(timed.render(&at12), format!("[00:10] {}", "second".bold()));

    // Before the first line starts.
    let mut late = LyricsDisplay::new();
    late.load_lyrics(vec![(3, "later".to_string())]);
    let mut at1 = context(30);
    at1.position_secs = 1;
    assert_eq!(late.render(&at1), "\u{266a} \u{266a} \u{266a}");
}

#[test]
fn lyrics_events_redraw_only_on_line_change() {
    let mut lyrics = LyricsDisplay::new();
    lyrics.load_lyrics(vec![(0, "first".to_string()), (10, "second".to_string())]);
    assert_eq!(
        lyrics.handle_event(ComponentEvent::ProgressUpdate(12, None)),
        EventResult::Redraw
    );
    assert_eq!(
        lyrics.handle_event(ComponentEvent::ProgressUpdate(13, None)),
        EventResult::Ignored
    );
    assert_eq!(
        lyrics.handle_event(ComponentEvent::VolumeChanged(50)),
        EventResult::Ignored
    );
}

#[test]
fn network_status_icons() {
    let mut status = NetworkStatus::new();
    let ctx = context(10);
    assert_eq!(status.render(&ctx), "\u{25cf}");
    status.update_status(ConnectionStatus::Disconnected);
    assert_eq!(status.render(&ctx), "\u{25cb}");
    status.update_status(ConnectionStatus::Buffering);
    assert_eq!(status.render(&ctx), "\u{25d0}");
    status.update_status(ConnectionStatus::Connecting);
    assert_eq!(status.render(&ctx), "\u{25d1}");
    assert_eq!(status.min_width(), 1);
}

#[test]
fn equalizer_presets_cycle() {
    let mut eq = EqualizerPreset::new();
    let ctx = context(20);
    assert_eq!(eq.render(&ctx), format!("EQ: {}", "Flat".bold()));
    eq.next_preset();
    assert_eq!(eq.render(&ctx), format!("EQ: {}", "Bass Boost".bold()));
    eq.previous_preset();
    eq.previous_preset();
    assert_eq!(eq.render(&ctx), format!("EQ: {}", "Rock".bold()));
    eq.next_preset();
    assert_eq!(eq.render(&ctx), format!("EQ: {}", "Flat".bold()));
}

#[test]
fn spectrum_levels_pick_characters() {
    let mut spectrum = SpectrumAnalyzer::new(4);
    let ctx = context(8);
    assert_eq!(spectrum.render(&ctx), "\u{2581}\u{2581}\u{2581}\u{2581}\u{2581}\u{2581}\u{2581}\u{2581}");
    spectrum.update_spectrum(vec![1000, 500]);
    let ctx4 = context(4);
    assert_eq!(spectrum.render(&ctx4), "\u{2588}\u{2584}\u{2581}\u{2581}");
    assert_eq!(spectrum.min_width(), 8);

    assert_eq!(
        spectrum.handle_event(ComponentEvent::Custom("spectrum:data".to_string())),
        EventResult::Consumed
    );
    assert_eq!(
        spectrum.handle_event(ComponentEvent::Custom("other".to_string())),
        EventResult::Ignored
    );
}

#[test]
fn stacks_compose_and_contain() {
    let ctx = context(20);
    let mut h = HStack::new();
    assert_eq!(h.render(&ctx), "");
    h.add_child(Widget::Label(Label::new("left".to_string())));
    h.add_child(Widget::Label(Label::new("right".to_string())));
    assert_eq!(h.child_count(), 2);
    assert_eq!(h.render(&ctx), "left right");
    let removed = h.remove_child(0);
    assert!(matches!(removed, Some(Widget::Label(_))));
    assert_eq!(h.child_count(), 1);
    assert!(h.remove_child(5).is_none());

    let mut v = VStack::new().with_spacing(1);
    v.add_child(ComponentFactory::label("top".to_string()));
    v.add_child(ComponentFactory::label("bottom".to_string()));
    assert_eq!(v.child_count(), 2);
    assert_eq!(v.render(&ctx), "top\n\nbottom");
    assert_eq!(v.height(), 3);
    assert!(v.remove_child(1).is_some());
    assert_eq!(v.render(&ctx), "top");
}

#[test]
fn factory_builds_components() {
    assert!(matches!(
        ComponentFactory::label("x".to_string()),
        Component::Widget(Widget::Label(_))
    ));
    assert!(matches!(
        ComponentFactory::progress_bar(),
        Component::Widget(Widget::Progress(_))
    ));
    assert!(matches!(
        ComponentFactory::volume_bar(),
        Component::Widget(Widget::Volume(_))
    ));
    assert!(matches!(
        ComponentFactory::status_bar(),
        Component::Widget(Widget::Status(_))
    ));
    assert!(matches!(
        ComponentFactory::control_bar(vec![("[a]".to_string(), "b".to_string())]),
        Component::Widget(Widget::Control(_))
    ));
    let layout = ComponentFactory::create_default_layout(true);
    assert_eq!(layout.child_count(), 2);
    let layout = ComponentFactory::create_default_layout(false);
    assert_eq!(layout.child_count(), 3);
}

#[test]
fn window_frames_content() {
    let mut window = ComponentWindow::new(21, false);
    let frame = window.render();
    let top: String = format!("\u{250c}{}\u{2510}", "\u{2500}".repeat(23));
    let bottom: String = format!("\u{2514}{}\u{2518}", "\u{2500}".repeat(23));
    assert!(frame.starts_with(&top));
    assert!(frame.ends_with(&bottom));
    assert!(frame.contains("loading"));
    assert!(frame.contains("\r\n"));
    // Every content line sits between border cells.
    assert!(frame.contains("\u{2502} "));

    let mut ctx = context(21);
    ctx.playback_state = PlaybackState::Stopped;
    window.update_context(ctx);
    assert!(window.render().contains("stopped"));

    let mut plain = VStack::new();
    plain.add_child(ComponentFactory::label("only".to_string()));
    window.set_root(plain);
    assert!(window.render().contains("only"));

    // A multi-line child is framed line by line.
    let mut list = PlaylistView::new(2);
    list.set_tracks(vec!["one".to_string(), "two".to_string()]);
    list.set_current(0);
    let mut stacked = VStack::new();
    stacked.add_child(Component::Widget(Widget::Playlist(list)));
    window.set_root(stacked);
    let frame = window.render();
    assert!(frame.contains("one"));
    assert!(frame.contains("two"));
    assert_eq!(frame.matches("\r\n").count(), 3, "border plus two framed rows");

    let borderless = ComponentWindow::new(21, true);
    let frame = borderless.render();
    assert!(!frame.contains('\u{250c}'));
    assert!(frame.starts_with("\r\n"));
}

#[test]
fn manager_updates_and_flashes_volume() {
    let mut manager = UIManager::new(21, false, false);
    let info = PlaybackInfo {
        is_paused: false,
        is_playing: false,
        volume: 80,
        position_secs: 0,
        is_bookmarked: false,
    };
    let frame = manager.update(info, None);
    assert!(frame.contains("loading"));
    assert!(frame.contains("00:00/00:00"), "the progress bar shows by default");

    // A volume adjustment flashes the volume bar for a few cycles.
    flash_audio(&mut manager.timer);
    let frame = manager.update(info, None);
    assert!(frame.contains("volume:"));
    for _ in 0..11 {
        manager.update(info, None);
    }
    let frame = manager.update(info, None);
    assert!(frame.contains("00:00/00:00"), "the flash window is over");

    // Progress events redraw only while something is actually playing.
    assert!(manager.handle_event(lowfi::control::UIEvent::ProgressUpdate, info, None).is_none());
    let playing = PlaybackInfo { is_playing: true, ..info };
    let track = track_info("song", 4, Some(90));
    let frame = manager
        .handle_event(lowfi::control::UIEvent::ProgressUpdate, playing, Some(track))
        .unwrap();
    assert!(frame.contains("playing"));
    let frame = manager
        .handle_event(lowfi::control::UIEvent::Redraw, playing, None)
        .unwrap();
    assert!(!frame.is_empty());
}
