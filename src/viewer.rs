//! The viewer's state: the frame store and the layout of the frame on
//! display, kept in step with each other.
use vstd::prelude::*;
use crate::frames::{Decoded, FrameError, FrameStore, fetch_post};
use crate::layout::{Layout, PlacedRect, is_placement};

verus! {

/// A window size in pixels.
#[derive(Clone, Copy, Debug, PartialEq, Eq)]
pub struct WindowSize {
    pub width: u32,
    pub height: u32,
}

/// The frames of an image sequence and where the frame on display goes in
/// the window.
pub struct DemoApp<T> {
    frames: FrameStore<T>,
    layout: Layout,
}

impl<T> DemoApp<T> {
    pub closed spec fn spec_frames(&self) -> FrameStore<T> {
        self.frames
    }

    pub closed spec fn spec_layout(&self) -> Layout {
        self.layout
    }

    /// Both parts are well formed.
    pub open spec fn wf(&self) -> bool {
        self.spec_frames().wf() && self.spec_layout().wf()
    }

    /// The viewer for `paths` with frame `current_frame` on display and no
    /// window size known yet. The initial frame is decoded at once with
    /// `decode`, and its size becomes the image size of the layout.
    pub fn new<F: FnOnce(String) -> Result<Decoded<T>, String>>(paths: Vec<String>, current_frame: u32, decode: F) -> (r: Result<DemoApp<T>, FrameError>)
        requires
            paths@.len() <= u32::MAX as nat,
            (current_frame as int) < paths@.len() ==> decode.requires((paths@[current_frame as int],)),
        ensures
            (current_frame as int) >= paths@.len() ==> r == Err::<DemoApp<T>, FrameError>(FrameError::InvalidIndex),
            r matches Ok(app) ==> {
                let img = app.spec_frames().cache()[current_frame as int]->0;
                &&& app.wf()
                &&& app.spec_frames().spec_paths() == paths@
                &&& app.spec_frames().spec_current() == current_frame
                &&& app.spec_frames().cache() =~= crate::frames::empty_cache::<T>(paths@.len()).update(current_frame as int, Some(img))
                &&& app.spec_layout().spec_window_width() == 0
                &&& app.spec_layout().spec_window_height() == 0
                &&& app.spec_layout().spec_image_width() == img.width
                &&& app.spec_layout().spec_image_height() == img.height
            },
            (current_frame as int) < paths@.len() ==> exists|d: Result<Decoded<T>, String>| {
                &&& decode.ensures((paths@[current_frame as int],), d)
                &&& crate::frames::usable(d) <==> r is Ok
                &&& r matches Ok(app) ==> app.spec_frames().cache()[current_frame as int] == Some(d->Ok_0)
                &&& !crate::frames::usable(d) ==> (r matches Err(e) && crate::frames::is_decode_error(e, d))
            },
    {
        let frames = match FrameStore::create(paths, current_frame, decode) {
            Ok(s) => s,
            Err(e) => return Err(e),
        };
        let (w, h) = match frames.cached_texture(current_frame) {
            Some(img) => (img.width, img.height),
            None => return Err(FrameError::InvalidIndex),
        };
        let layout = Layout::new(0, 0, w, h);
        Ok(DemoApp { frames, layout })
    }
    /// The number of frames in the sequence.
    pub fn get_num_images(&self) -> (r: u32)
        requires
            self.wf(),
        ensures
            r as nat == self.spec_frames().spec_frame_count(),
    {
        self.frames.frame_count()
    }

    /// The window size last recorded.
    pub fn get_window_size(&self) -> (r: WindowSize)
        ensures
            r.width == self.spec_layout().spec_window_width(),
            r.height == self.spec_layout().spec_window_height(),
    {
        WindowSize { width: self.layout.window_width(), height: self.layout.window_height() }
    }

    /// Records a new window size, as on a resize; the frames are unchanged.
    pub fn set_window_size(&mut self, width: u32, height: u32)
        requires
            old(self).wf(),
        ensures
            final(self).wf(),
            final(self).spec_frames() == old(self).spec_frames(),
            final(self).spec_layout().spec_window_width() == width,
            final(self).spec_layout().spec_window_height() == height,
            final(self).spec_layout().spec_image_width() == old(self).spec_layout().spec_image_width(),
            final(self).spec_layout().spec_image_height() == old(self).spec_layout().spec_image_height(),
    {
        self.layout.set_window_size(width, height);
    }

    /// Puts frame `new_frame` on display; it is decoded when it is next
    /// rendered, if it has not been already.
    pub fn set_current_frame(&mut self, new_frame: u32) -> (r: Result<(), FrameError>)
        requires
            old(self).wf(),
        ensures
            final(self).wf(),
            final(self).spec_layout() == old(self).spec_layout(),
            final(self).spec_frames().spec_paths() == old(self).spec_frames().spec_paths(),
            final(self).spec_frames().cache() == old(self).spec_frames().cache(),
            (new_frame as int) >= old(self).spec_frames().spec_frame_count() ==> {
                &&& r == Err::<(), FrameError>(FrameError::InvalidIndex)
                &&& final(self).spec_frames().spec_current() == old(self).spec_frames().spec_current()
            },
            (new_frame as int) < old(self).spec_frames().spec_frame_count() ==> {
                &&& r == Ok::<(), FrameError>(())
                &&& final(self).spec_frames().spec_current() == new_frame
            },
    {
        self.frames.set_current_frame(new_frame)
    }

    /// Prepares the frame on display for drawing: decodes it with `decode`
    /// if it is not cached yet, takes its size as the image size of the
    /// layout, and returns where it goes in the window.
    pub fn render_frame<F: FnOnce(String) -> Result<Decoded<T>, String>>(&mut self, decode: F) -> (r: Result<PlacedRect, FrameError>)
        requires
            old(self).wf(),
            decode.requires((old(self).spec_frames().spec_paths()[old(self).spec_frames().spec_current() as int],)),
        ensures
            final(self).wf(),
            exists|t: Result<&Decoded<T>, FrameError>| {
                &&& fetch_post(old(self).spec_frames(), final(self).spec_frames(), old(self).spec_frames().spec_current(), decode, t)
                &&& t matches Err(e) ==> r == Err::<PlacedRect, FrameError>(e) && final(self).spec_layout() == old(self).spec_layout()
                &&& t matches Ok(img) ==> {
                    let lay = final(self).spec_layout();
                    &&& lay.spec_window_width() == old(self).spec_layout().spec_window_width()
                    &&& lay.spec_window_height() == old(self).spec_layout().spec_window_height()
                    &&& lay.spec_image_width() == img.width
                    &&& lay.spec_image_height() == img.height
                    &&& r matches Ok(rect) && is_placement(
                        rect,
                        lay.spec_window_width() as int,
                        lay.spec_window_height() as int,
                        img.width as int,
                        img.height as int,
                    )
                }
            },
    {
        let cur = self.frames.current_frame();
        let fetched = self.frames.get_texture(cur, decode);
        let ghost t = fetched;
        let (w, h) = match fetched {
            Ok(img) => (img.width, img.height),
            Err(e) => {
                assert(fetch_post(old(self).spec_frames(), self.spec_frames(), cur, decode, t));
                return Err(e);
            },
        };
        self.layout.set_image_size(w, h);
        let rect = self.layout.compute_rect();
        assert(fetch_post(old(self).spec_frames(), self.spec_frames(), cur, decode, t));
        Ok(rect)
    }

    /// The decoded frame on display, once it has been decoded.
    pub fn current_texture(&self) -> (r: Option<&Decoded<T>>)
        requires
            self.wf(),
        ensures
            self.spec_frames().is_cached(self.spec_frames().spec_current() as int)
                ==> r == Some(&self.spec_frames().cache()[self.spec_frames().spec_current() as int]->0),
            !self.spec_frames().is_cached(self.spec_frames().spec_current() as int) ==> r is None,
    {
        self.frames.cached_texture(self.frames.current_frame())
    }

    /// The frame store.
    pub fn frames(&self) -> (r: &FrameStore<T>)
        ensures
            *r == self.spec_frames(),
    {
        &self.frames
    }

    /// The layout of the frame on display.
    pub fn layout(&self) -> (r: &Layout)
        ensures
            *r == self.spec_layout(),
    {
        &self.layout
    }
}

} // verus!
