//! The frame store: the ordered list of source images and a cache of their
//! decoded textures.
//!
//! A frame is decoded the first time it is asked for, through a decoder that
//! the caller hands in, and is kept from then on: the cache only grows and a
//! frame is never decoded twice.
use vstd::prelude::*;

verus! {

/// A decoded image: the texture and its size in pixels.
#[derive(Debug)]
pub struct Decoded<T> {
    pub texture: T,
    pub width: u32,
    pub height: u32,
}

/// Why a frame could not be had.
#[derive(Debug, PartialEq, Eq)]
pub enum FrameError {
    /// The frame index is not below the number of frames.
    InvalidIndex,
    /// The image could not be read or decoded; the message says why.
    DecodeError(String),
}

/// The source image paths, one per frame, the decoded frames so far, and
/// the index of the frame on display.
pub struct FrameStore<T> {
    paths: Vec<String>,
    slots: Vec<Option<Decoded<T>>>,
    current: u32,
}

/// A decoded image that can be displayed: it has at least one pixel in
/// each direction, so its aspect ratio is defined.
pub open spec fn usable<T>(d: Result<Decoded<T>, String>) -> bool {
    match d {
        Ok(img) => img.width > 0 && img.height > 0,
        Err(_) => false,
    }
}

/// A cache with no frame decoded yet.
pub open spec fn empty_cache<T>(n: nat) -> Seq<Option<Decoded<T>>> {
    Seq::new(n, |i: int| None)
}

/// The message given when a decoded image has no pixels.
pub open spec fn empty_image_message() -> Seq<char> {
    "the image has no pixels"@
}

/// `e` is the error that a decoding outcome that cannot be displayed turns
/// into: the decoder's own message, or a note that the image is empty.
pub open spec fn is_decode_error<T>(e: FrameError, d: Result<Decoded<T>, String>) -> bool {
    match d {
        Err(msg) => e == FrameError::DecodeError(msg),
        Ok(_) => e matches FrameError::DecodeError(m) && m@ == empty_image_message(),
    }
}

/// What fetching frame `index` from `pre` with decoder `decode` does, when it
/// leaves `post` and returns `r`.
///
/// An index past the last frame is refused and nothing changes. A cached
/// frame is handed out as it is and nothing changes. Otherwise the decoder's
/// outcome `d` on the frame's path decides: a usable image is cached and
/// handed out; anything else is refused with its error and nothing changes.
pub open spec fn fetch_post<T, F: FnOnce(String) -> Result<Decoded<T>, String>>(
    pre: FrameStore<T>,
    post: FrameStore<T>,
    index: u32,
    decode: F,
    r: Result<&Decoded<T>, FrameError>,
) -> bool {
    let i = index as int;
    if i >= pre.spec_frame_count() {
        r == Err::<&Decoded<T>, FrameError>(FrameError::InvalidIndex) && post == pre
    } else if pre.is_cached(i) {
        r == Ok::<&Decoded<T>, FrameError>(&pre.cache()[i]->0) && post == pre
    } else {
        exists|d: Result<Decoded<T>, String>| {
            &&& decode.ensures((pre.spec_paths()[i],), d)
            &&& usable(d) ==> {
                &&& r == Ok::<&Decoded<T>, FrameError>(&d->Ok_0)
                &&& post.spec_paths() == pre.spec_paths()
                &&& post.spec_current() == pre.spec_current()
                &&& post.cache() == pre.cache().update(i, Some(d->Ok_0))
            }
            &&& !usable(d) ==> (r matches Err(e) && is_decode_error(e, d) && post == pre)
        }
    }
}

/// A frame that has been fetched once is served from the cache from then
/// on: fetching it again, with any decoder, hands out the same texture and
/// leaves the store as it was, so the frame is never decoded twice.
pub proof fn lemma_second_fetch_is_cached<T, F1, F2>(
    s0: FrameStore<T>,
    s1: FrameStore<T>,
    s2: FrameStore<T>,
    index: u32,
    decode1: F1,
    decode2: F2,
    r1: Result<&Decoded<T>, FrameError>,
    r2: Result<&Decoded<T>, FrameError>,
)
    where
        F1: FnOnce(String) -> Result<Decoded<T>, String>,
        F2: FnOnce(String) -> Result<Decoded<T>, String>,
    requires
        s0.wf(),
        fetch_post(s0, s1, index, decode1, r1),
        r1 is Ok,
        fetch_post(s1, s2, index, decode2, r2),
    ensures
        s1.is_cached(index as int),
        r2 == r1,
        s2 == s1,
{
    let i = index as int;
    if !s0.is_cached(i) {
        let d = choose|d: Result<Decoded<T>, String>| {
            &&& decode1.ensures((s0.spec_paths()[i],), d)
            &&& usable(d) ==> {
                &&& r1 == Ok::<&Decoded<T>, FrameError>(&d->Ok_0)
                &&& s1.spec_paths() == s0.spec_paths()
                &&& s1.spec_current() == s0.spec_current()
                &&& s1.cache() == s0.cache().update(i, Some(d->Ok_0))
            }
            &&& !usable(d) ==> (r1 matches Err(e) && is_decode_error(e, d) && s1 == s0)
        };
        assert(usable(d));
        assert(s1.cache()[i] == Some(d->Ok_0));
    }
}

impl<T> FrameStore<T> {
    pub closed spec fn spec_paths(&self) -> Seq<String> {
        self.paths@
    }

    /// What the cache holds for each frame: `Some` once it is decoded.
    pub closed spec fn cache(&self) -> Seq<Option<Decoded<T>>> {
        self.slots@
    }

    pub closed spec fn spec_current(&self) -> u32 {
        self.current
    }

    pub open spec fn spec_frame_count(&self) -> nat {
        self.spec_paths().len()
    }

    /// Frame `i` has been decoded.
    pub open spec fn is_cached(&self, i: int) -> bool {
        self.cache()[i] is Some
    }

    /// The well-formedness of a store: one cache slot per path, every
    /// frame index fits in a `u32`, the current frame exists and every
    /// decoded frame is usable.
    pub open spec fn wf(&self) -> bool {
        &&& self.cache().len() == self.spec_paths().len()
        &&& self.spec_paths().len() <= u32::MAX as nat
        &&& (self.spec_current() as int) < self.spec_paths().len()
        &&& forall|i: int|
            0 <= i < self.cache().len() && #[trigger] self.cache()[i] is Some ==> {
                let img = self.cache()[i]->0;
                img.width > 0 && img.height > 0
            }
    }

    /// Builds the store once the initial frame has been decoded: `decoded`
    /// is what decoding `paths[initial_index]` gave.
    pub fn from_decoded(paths: Vec<String>, initial_index: u32, decoded: Result<Decoded<T>, String>) -> (r: Result<FrameStore<T>, FrameError>)
        requires
            paths@.len() <= u32::MAX as nat,
        ensures
            (initial_index as int) >= paths@.len() ==> r == Err::<FrameStore<T>, FrameError>(FrameError::InvalidIndex),
            (initial_index as int) < paths@.len() && !usable(decoded) ==> (r matches Err(e) && is_decode_error(e, decoded)),
            (initial_index as int) < paths@.len() && usable(decoded) ==> (r matches Ok(s) && {
                &&& s.wf()
                &&& s.spec_paths() == paths@
                &&& s.spec_current() == initial_index
                &&& s.cache() == empty_cache::<T>(paths@.len()).update(initial_index as int, Some(decoded->Ok_0))
            }),
    {
        if initial_index as usize >= paths.len() {
            return Err(FrameError::InvalidIndex);
        }
        let img = match Self::check_decoded(decoded) {
            Ok(img) => img,
            Err(e) => return Err(e),
        };
        let mut slots: Vec<Option<Decoded<T>>> = Vec::new();
        let n = paths.len();
        while slots.len() < n
            invariant
                slots.len() <= n,
                slots@ == empty_cache::<T>(slots@.len()),
            decreases n - slots.len(),
        {
            slots.push(None);
            assert(slots@ =~= empty_cache::<T>(slots@.len()));
        }
        let k = initial_index as usize;
        slots.set(k, Some(img));
        let s = FrameStore { paths, slots, current: initial_index };
        assert(s.cache() =~= empty_cache::<T>(n as nat).update(k as int, Some(decoded->Ok_0)));
        Ok(s)
    }

    /// Builds the store for `paths` with frame `initial_index` on display,
    /// decoding that frame at once with `decode`, which is handed the
    /// frame's path. No other frame is decoded.
    pub fn create<F: FnOnce(String) -> Result<Decoded<T>, String>>(paths: Vec<String>, initial_index: u32, decode: F) -> (r: Result<FrameStore<T>, FrameError>)
        requires
            paths@.len() <= u32::MAX as nat,
            (initial_index as int) < paths@.len() ==> decode.requires((paths@[initial_index as int],)),
        ensures
            (initial_index as int) >= paths@.len() ==> r == Err::<FrameStore<T>, FrameError>(FrameError::InvalidIndex),
            (initial_index as int) < paths@.len() ==> exists|d: Result<Decoded<T>, String>| {
                &&& decode.ensures((paths@[initial_index as int],), d)
                &&& !usable(d) ==> (r matches Err(e) && is_decode_error(e, d))
                &&& usable(d) ==> (r matches Ok(s) && {
                    &&& s.wf()
                    &&& s.spec_paths() == paths@
                    &&& s.spec_current() == initial_index
                    &&& s.cache() == empty_cache::<T>(paths@.len()).update(initial_index as int, Some(d->Ok_0))
                })
            },
    {
        if initial_index as usize >= paths.len() {
            return Err(FrameError::InvalidIndex);
        }
        let path = paths[initial_index as usize].clone();
        let decoded = decode(path);
        Self::from_decoded(paths, initial_index, decoded)
    }

    /// The number of frames.
    pub fn frame_count(&self) -> (r: u32)
        requires
            self.wf(),
        ensures
            r as nat == self.spec_frame_count(),
    {
        self.paths.len() as u32
    }

    /// The index of the frame on display.
    pub fn current_frame(&self) -> (r: u32)
        ensures
            r == self.spec_current(),
    {
        self.current
    }

    /// The path of frame `index`.
    pub fn path(&self, index: u32) -> (r: Result<&String, FrameError>)
        requires
            self.wf(),
        ensures
            (index as int) >= self.spec_frame_count() ==> r == Err::<&String, FrameError>(FrameError::InvalidIndex),
            (index as int) < self.spec_frame_count() ==> r == Ok::<&String, FrameError>(&self.spec_paths()[index as int]),
    {
        if index as usize >= self.paths.len() {
            return Err(FrameError::InvalidIndex);
        }
        Ok(&self.paths[index as usize])
    }

    /// Puts frame `index` on display. Nothing is decoded.
    pub fn set_current_frame(&mut self, index: u32) -> (r: Result<(), FrameError>)
        requires
            old(self).wf(),
        ensures
            final(self).wf(),
            final(self).spec_paths() == old(self).spec_paths(),
            final(self).cache() == old(self).cache(),
            (index as int) >= old(self).spec_frame_count() ==> {
                &&& r == Err::<(), FrameError>(FrameError::InvalidIndex)
                &&& final(self).spec_current() == old(self).spec_current()
            },
            (index as int) < old(self).spec_frame_count() ==> {
                &&& r == Ok::<(), FrameError>(())
                &&& final(self).spec_current() == index
            },
    {
        if index as usize >= self.paths.len() {
            return Err(FrameError::InvalidIndex);
        }
        self.current = index;
        Ok(())
    }

    /// The decoded frame `index`, if it has been decoded; never decodes.
    pub fn cached_texture(&self, index: u32) -> (r: Option<&Decoded<T>>)
        requires
            self.wf(),
        ensures
            (index as int) >= self.spec_frame_count() ==> r is None,
            (index as int) < self.spec_frame_count() && self.is_cached(index as int) ==> r == Some(&self.cache()[index as int]->0),
            (index as int) < self.spec_frame_count() && !self.is_cached(index as int) ==> r is None,
    {
        if index as usize >= self.slots.len() {
            return None;
        }
        self.slots[index as usize].as_ref()
    }

    /// Stores what decoding frame `index` gave: a usable image is cached,
    /// anything else is refused with its error and the store is left as it
    /// was.
    pub fn store_decoded(&mut self, index: u32, decoded: Result<Decoded<T>, String>) -> (r: Result<(), FrameError>)
        requires
            old(self).wf(),
            (index as int) < old(self).spec_frame_count(),
        ensures
            final(self).wf(),
            final(self).spec_paths() == old(self).spec_paths(),
            final(self).spec_current() == old(self).spec_current(),
            usable(decoded) ==> {
                &&& r == Ok::<(), FrameError>(())
                &&& final(self).cache() == old(self).cache().update(index as int, Some(decoded->Ok_0))
            },
            !usable(decoded) ==> {
                &&& r matches Err(e) && is_decode_error(e, decoded)
                &&& *final(self) == *old(self)
            },
    {
        match Self::check_decoded(decoded) {
            Ok(img) => {
                self.slots.set(index as usize, Some(img));
                Ok(())
            },
            Err(e) => Err(e),
        }
    }

    /// The decoded frame `index`. A frame already in the cache is handed
    /// out as it is, with the store unchanged and no decoding; otherwise
    /// `decode` is called once on the frame's path and a usable result is
    /// cached and handed out.
    pub fn get_texture<F: FnOnce(String) -> Result<Decoded<T>, String>>(&mut self, index: u32, decode: F) -> (r: Result<&Decoded<T>, FrameError>)
        requires
            old(self).wf(),
            (index as int) < old(self).spec_frame_count() ==> decode.requires((old(self).spec_paths()[index as int],)),
        ensures
            final(self).wf(),
            fetch_post(*old(self), *final(self), index, decode, r),
    {
        if index as usize >= self.paths.len() {
            return Err(FrameError::InvalidIndex);
        }
        let k = index as usize;
        if self.slots[k].is_none() {
            let path = self.paths[k].clone();
            let decoded = decode(path);
            match self.store_decoded(index, decoded) {
                Ok(()) => {},
                Err(e) => return Err(e),
            }
        }
        match self.slots[k].as_ref() {
            Some(img) => Ok(img),
            None => Err(FrameError::InvalidIndex),
        }
    }

    /// Passes a usable image on and turns any other outcome into its
    /// error.
    fn check_decoded(decoded: Result<Decoded<T>, String>) -> (r: Result<Decoded<T>, FrameError>)
        ensures
            usable(decoded) ==> r == Ok::<Decoded<T>, FrameError>(decoded->Ok_0),
            !usable(decoded) ==> (r matches Err(e) && is_decode_error(e, decoded)),
    {
        match decoded {
            Ok(img) => {
                if img.width > 0 && img.height > 0 {
                    Ok(img)
                } else {
                    let msg = String::from_str("the image has no pixels");
                    proof {
                        reveal_strlit("the image has no pixels");
                    }
                    Err(FrameError::DecodeError(msg))
                }
            },
            Err(msg) => Err(FrameError::DecodeError(msg)),
        }
    }
}

} // verus!
