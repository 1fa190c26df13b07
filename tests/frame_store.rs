use std::cell::Cell;

use seq_view::frames::{Decoded, FrameError, FrameStore};

/// Stands in for reading an image from disk: the texture is the path.
fn fake_decode(path: String) -> Result<Decoded<String>, String> {
    match path.as_str() {
        "a.png" => Ok(Decoded { texture: path, width: 100, height: 50 }),
        "b.png" => Ok(Decoded { texture: path, width: 200, height: 50 }),
        "empty.png" => Ok(Decoded { texture: path, width: 0, height: 50 }),
        _ => Err(format!("cannot open {}", path)),
    }
}

fn paths(names: &[&str]) -> Vec<String> {
    names.iter().map(|s| s.to_string()).collect()
}

#[test]
fn create_decodes_only_the_initial_frame() {
    let decoded: Cell<Vec<String>> = Cell::new(Vec::new());
    let counting = |p: String| {
        let mut seen = decoded.take();
        seen.push(p.clone());
        decoded.set(seen);
        fake_decode(p)
    };
    let mut store = FrameStore::create(paths(&["a.png", "b.png"]), 0, counting).unwrap();
    assert_eq!(decoded.take(), vec!["a.png".to_string()]);
    assert_eq!(store.frame_count(), 2);
    assert_eq!(store.current_frame(), 0);

    let calls = Cell::new(0u32);
    let img = store
        .get_texture(0, |p| {
            calls.set(calls.get() + 1);
            fake_decode(p)
        })
        .unwrap();
    assert_eq!(img.texture, "a.png");
    assert_eq!((img.width, img.height), (100, 50));
    assert_eq!(calls.get(), 0);
    assert!(store.cached_texture(1).is_none());

    let img = store
        .get_texture(1, |p| {
            calls.set(calls.get() + 1);
            fake_decode(p)
        })
        .unwrap();
    assert_eq!(img.texture, "b.png");
    assert_eq!((img.width, img.height), (200, 50));
    assert_eq!(calls.get(), 1);
}

#[test]
fn second_fetch_does_not_decode_again() {
    let mut store = FrameStore::create(paths(&["a.png", "b.png"]), 0, fake_decode).unwrap();
    let calls = Cell::new(0u32);
    for _ in 0..2 {
        let img = store
            .get_texture(1, |p| {
                calls.set(calls.get() + 1);
                fake_decode(p)
            })
            .unwrap();
        assert_eq!(img.texture, "b.png");
    }
    assert_eq!(calls.get(), 1);
    assert_eq!(store.cached_texture(1).unwrap().width, 200);
}

#[test]
fn fetch_past_the_end_is_invalid_index() {
    let mut store = FrameStore::create(paths(&["a.png", "b.png"]), 1, fake_decode).unwrap();
    let calls = Cell::new(0u32);
    for index in [2u32, 3, u32::MAX] {
        let r = store.get_texture(index, |p| {
            calls.set(calls.get() + 1);
            fake_decode(p)
        });
        assert_eq!(r.err(), Some(FrameError::InvalidIndex));
    }
    assert_eq!(calls.get(), 0);
    assert!(store.cached_texture(2).is_none());
}

#[test]
fn create_with_no_paths_is_invalid_index() {
    let r = FrameStore::create(Vec::new(), 0, fake_decode);
    assert_eq!(r.err(), Some(FrameError::InvalidIndex));
}

#[test]
fn create_with_initial_index_out_of_range() {
    let r = FrameStore::create(paths(&["a.png", "b.png"]), 2, fake_decode);
    assert_eq!(r.err(), Some(FrameError::InvalidIndex));
}

#[test]
fn create_reports_decode_error() {
    let r = FrameStore::create(paths(&["missing.png"]), 0, fake_decode);
    assert_eq!(r.err(), Some(FrameError::DecodeError("cannot open missing.png".to_string())));
}

#[test]
fn empty_image_is_a_decode_error() {
    let r = FrameStore::create(paths(&["empty.png"]), 0, fake_decode);
    assert_eq!(r.err(), Some(FrameError::DecodeError("the image has no pixels".to_string())));
}

#[test]
fn failed_fetch_leaves_frame_uncached() {
    let mut store = FrameStore::create(paths(&["a.png", "missing.png"]), 0, fake_decode).unwrap();
    let r = store.get_texture(1, fake_decode);
    assert_eq!(r.err(), Some(FrameError::DecodeError("cannot open missing.png".to_string())));
    assert!(store.cached_texture(1).is_none());
    assert_eq!(store.cached_texture(0).unwrap().texture, "a.png");
}

#[test]
fn store_decoded_caches_usable_images_only() {
    let mut store = FrameStore::create(paths(&["a.png", "b.png", "c.png"]), 0, fake_decode).unwrap();
    let r = store.store_decoded(2, Ok(Decoded { texture: "c".to_string(), width: 3, height: 0 }));
    assert_eq!(r, Err(FrameError::DecodeError("the image has no pixels".to_string())));
    assert!(store.cached_texture(2).is_none());
    let r = store.store_decoded(2, Err("bad header".to_string()));
    assert_eq!(r, Err(FrameError::DecodeError("bad header".to_string())));
    let r = store.store_decoded(2, Ok(Decoded { texture: "c".to_string(), width: 3, height: 4 }));
    assert_eq!(r, Ok(()));
    let img = store.cached_texture(2).unwrap();
    assert_eq!((img.texture.as_str(), img.width, img.height), ("c", 3, 4));
}

#[test]
fn set_current_frame_checks_the_index() {
    let mut store = FrameStore::create(paths(&["a.png", "b.png"]), 0, fake_decode).unwrap();
    assert_eq!(store.set_current_frame(1), Ok(()));
    assert_eq!(store.current_frame(), 1);
    assert_eq!(store.set_current_frame(2), Err(FrameError::InvalidIndex));
    assert_eq!(store.current_frame(), 1);
    assert!(store.cached_texture(1).is_none());
}

#[test]
fn path_lookup() {
    let store = FrameStore::create(paths(&["a.png", "b.png"]), 0, fake_decode).unwrap();
    assert_eq!(store.path(1).unwrap(), "b.png");
    assert_eq!(store.path(2), Err(FrameError::InvalidIndex));
}
