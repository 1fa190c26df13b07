use std::cell::Cell;

use seq_view::frames::{Decoded, FrameError};
use seq_view::layout::PlacedRect;
use seq_view::viewer::{DemoApp, WindowSize};

fn fake_decode(path: String) -> Result<Decoded<String>, String> {
    match path.as_str() {
        "wide.png" => Ok(Decoded { texture: path, width: 400, height: 100 }),
        "tall.png" => Ok(Decoded { texture: path, width: 50, height: 100 }),
        _ => Err(format!("cannot open {}", path)),
    }
}

fn paths(names: &[&str]) -> Vec<String> {
    names.iter().map(|s| s.to_string()).collect()
}

#[test]
fn new_viewer_starts_with_unknown_window() {
    let app = DemoApp::new(paths(&["wide.png", "tall.png"]), 1, fake_decode).unwrap();
    assert_eq!(app.get_num_images(), 2);
    assert_eq!(app.get_window_size(), WindowSize { width: 0, height: 0 });
    assert_eq!(app.current_texture().unwrap().texture, "tall.png");
    assert_eq!((app.layout().image_width(), app.layout().image_height()), (50, 100));
    assert!(app.frames().cached_texture(0).is_none());
}

#[test]
fn new_viewer_refuses_bad_index_and_bad_file() {
    assert_eq!(DemoApp::new(paths(&[]), 0, fake_decode).err(), Some(FrameError::InvalidIndex));
    assert_eq!(DemoApp::new(paths(&["wide.png"]), 10, fake_decode).err(), Some(FrameError::InvalidIndex));
    assert_eq!(
        DemoApp::new(paths(&["nope.png"]), 0, fake_decode).err(),
        Some(FrameError::DecodeError("cannot open nope.png".to_string()))
    );
}

#[test]
fn render_frame_after_resize() {
    let mut app = DemoApp::new(paths(&["wide.png"]), 0, fake_decode).unwrap();
    app.set_window_size(640, 480);
    app.set_window_size(300, 480);
    assert_eq!(app.get_window_size(), WindowSize { width: 300, height: 480 });
    let r = app.render_frame(fake_decode).unwrap();
    assert_eq!(r, PlacedRect { left: 0, top: 202000, width: 240000, height: 60000, denom: 800 });
}

#[test]
fn render_frame_loads_a_new_frame_once() {
    let mut app = DemoApp::new(paths(&["wide.png", "tall.png"]), 0, fake_decode).unwrap();
    app.set_window_size(640, 480);
    assert_eq!(app.set_current_frame(1), Ok(()));
    assert!(app.current_texture().is_none());
    let calls = Cell::new(0u32);
    let counting = |p: String| {
        calls.set(calls.get() + 1);
        fake_decode(p)
    };
    let r = app.render_frame(counting).unwrap();
    assert_eq!(r.left * 2 / r.denom, 450);
    assert_eq!((r.width / r.denom, r.height / r.denom), (190, 380));
    assert_eq!(app.current_texture().unwrap().texture, "tall.png");
    app.render_frame(counting).unwrap();
    assert_eq!(calls.get(), 1);
    assert_eq!((app.layout().image_width(), app.layout().image_height()), (50, 100));
}

#[test]
fn render_frame_reports_decode_error() {
    let mut app = DemoApp::new(paths(&["wide.png", "gone.png"]), 0, fake_decode).unwrap();
    app.set_window_size(640, 480);
    app.set_current_frame(1).unwrap();
    let r = app.render_frame(fake_decode);
    assert_eq!(r, Err(FrameError::DecodeError("cannot open gone.png".to_string())));
    assert_eq!((app.layout().image_width(), app.layout().image_height()), (400, 100));
}

#[test]
fn set_current_frame_out_of_range() {
    let mut app = DemoApp::new(paths(&["wide.png"]), 0, fake_decode).unwrap();
    assert_eq!(app.set_current_frame(1), Err(FrameError::InvalidIndex));
    assert_eq!(app.current_texture().unwrap().texture, "wide.png");
}
