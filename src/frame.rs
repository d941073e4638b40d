//! Splitting a continuous MJPEG byte stream into whole JPEG images, using only
//! the two-byte end-of-image marker as the delimiter.

use vstd::prelude::*;

verus! {

/// First byte of the JPEG end-of-image marker.
pub const MARKER_HI: u8 = 0xFF;

/// Second byte of the JPEG end-of-image marker.
pub const MARKER_LO: u8 = 0xD9;

/// `s` ends with the end-of-image marker.
pub open spec fn ends_with_marker(s: Seq<u8>) -> bool {
    s.len() >= 2 && s[s.len() - 2] == MARKER_HI && s[s.len() - 1] == MARKER_LO
}

/// The result of scanning `s` byte by byte, starting with `acc` already
/// accumulated: the frames completed on the way, in order, and the bytes left
/// over after the last marker.
pub open spec fn scan(acc: Seq<u8>, s: Seq<u8>) -> (Seq<Seq<u8>>, Seq<u8>)
    decreases s.len(),
{
    if s.len() == 0 {
        (Seq::empty(), acc)
    } else {
        let a = acc.push(s[0]);
        if ends_with_marker(a) {
            let rest = scan(Seq::empty(), s.skip(1));
            (seq![a].add(rest.0), rest.1)
        } else {
            scan(a, s.skip(1))
        }
    }
}

/// The frames that a fresh extractor publishes when fed `s`.
pub open spec fn frames_of(s: Seq<u8>) -> Seq<Seq<u8>> {
    scan(Seq::empty(), s).0
}

/// The views of a vector of frames.
pub open spec fn frames_view(v: Seq<Vec<u8>>) -> Seq<Seq<u8>> {
    v.map_values(|f: Vec<u8>| f@)
}

/// Accumulates stream bytes until the end-of-image marker closes a frame.
pub struct FrameExtractor {
    buf: Vec<u8>,
}

impl View for FrameExtractor {
    type V = Seq<u8>;

    /// The bytes accumulated since the last completed frame.
    closed spec fn view(&self) -> Seq<u8> {
        self.buf@
    }
}

impl FrameExtractor {
    /// An extractor with nothing accumulated.
    pub fn new() -> (r: FrameExtractor)
        ensures
            r@ == Seq::<u8>::empty(),
    {
        FrameExtractor { buf: Vec::new() }
    }

    /// The bytes accumulated since the last completed frame; they are never a
    /// frame of their own.
    pub fn pending(&self) -> (r: &Vec<u8>)
        ensures
            r@ == self@,
    {
        &self.buf
    }

    /// Appends one byte; if the accumulated bytes now end with the marker they
    /// are returned as one complete frame and the accumulator is emptied.
    pub fn push_byte(&mut self, b: u8) -> (r: Option<Vec<u8>>)
        ensures
            ends_with_marker(old(self)@.push(b)) ==> (r matches Some(f) && f@ == old(self)@.push(b)
                && final(self)@ == Seq::<u8>::empty()),
            !ends_with_marker(old(self)@.push(b)) ==> r is None && final(self)@ == old(self)@.push(b),
    {
        self.buf.push(b);
        let n = self.buf.len();
        if n >= 2 && self.buf[n - 2] == MARKER_HI && self.buf[n - 1] == MARKER_LO {
            let mut frame: Vec<u8> = Vec::new();
            std::mem::swap(&mut frame, &mut self.buf);
            Some(frame)
        } else {
            None
        }
    }

    /// Feeds a chunk of the stream; returns the frames it completed, in order.
    /// Bytes after the last marker stay accumulated for the next chunk.
    pub fn feed(&mut self, data: &Vec<u8>) -> (r: Vec<Vec<u8>>)
        ensures
            frames_view(r@) == scan(old(self)@, data@).0,
            final(self)@ == scan(old(self)@, data@).1,
    {
        let ghost start = self@;
        let mut frames: Vec<Vec<u8>> = Vec::new();
        let mut i: usize = 0;
        assert(data@.skip(0) =~= data@);
        assert(frames_view(frames@) + scan(self@, data@).0 =~= scan(self@, data@).0);
        while i < data.len()
            invariant
                i <= data@.len(),
                scan(start, data@).0 == frames_view(frames@) + scan(self@, data@.skip(i as int)).0,
                scan(start, data@).1 == scan(self@, data@.skip(i as int)).1,
            decreases data@.len() - i,
        {
            let ghost acc = self@;
            let ghost tail = data@.skip(i as int);
            assert(tail.skip(1) =~= data@.skip(i + 1));
            assert(tail[0] == data@[i as int]);
            let out = self.push_byte(data[i]);
            match out {
                Some(f) => {
                    let ghost fs = frames@;
                    frames.push(f);
                    assert(frames_view(frames@) =~= frames_view(fs).push(f@));
                    assert(frames_view(fs) + scan(acc, tail).0 =~= frames_view(frames@)
                        + scan(self@, data@.skip(i + 1)).0);
                },
                None => {},
            }
            i = i + 1;
        }
        assert(data@.skip(i as int) =~= Seq::<u8>::empty());
        assert(frames_view(frames@) + Seq::<Seq<u8>>::empty() =~= frames_view(frames@));
        frames
    }
}

/// Every frame that a scan completes ends with the end-of-image marker.
pub proof fn lemma_scan_frames_complete(acc: Seq<u8>, s: Seq<u8>)
    ensures
        forall|i: int| 0 <= i < scan(acc, s).0.len() ==> ends_with_marker(#[trigger] scan(acc, s).0[i]),
    decreases s.len(),
{
    if s.len() > 0 {
        let a = acc.push(s[0]);
        if ends_with_marker(a) {
            lemma_scan_frames_complete(Seq::empty(), s.skip(1));
            let rest = scan(Seq::<u8>::empty(), s.skip(1)).0;
            assert forall|i: int| 0 <= i < scan(acc, s).0.len() implies ends_with_marker(
                #[trigger] scan(acc, s).0[i],
            ) by {
                assert(scan(acc, s).0 == seq![a] + rest);
                if i > 0 {
                    assert(scan(acc, s).0[i] == rest[i - 1]);
                } else {
                    assert(scan(acc, s).0[i] == a);
                }
            }
        } else {
            lemma_scan_frames_complete(a, s.skip(1));
            assert(scan(acc, s) == scan(a, s.skip(1)));
        }
    }
}

/// Splits a whole byte stream into the frames a fresh extractor publishes;
/// each of them ends with the end-of-image marker.
pub fn extract_frames(data: &Vec<u8>) -> (r: Vec<Vec<u8>>)
    ensures
        frames_view(r@) == frames_of(data@),
        forall|i: int| 0 <= i < r@.len() ==> ends_with_marker(#[trigger] r@[i]@),
{
    let mut ex = FrameExtractor::new();
    let r = ex.feed(data);
    proof {
        lemma_scan_frames_complete(Seq::empty(), data@);
        assert forall|i: int| 0 <= i < r@.len() implies ends_with_marker(#[trigger] r@[i]@) by {
            assert(frames_view(r@)[i] == r@[i]@);
        }
    }
    r
}

/// `s` holds the end-of-image marker at positions `i`, `i + 1`.
pub open spec fn marker_at(s: Seq<u8>, i: int) -> bool {
    0 <= i && i + 1 < s.len() && s[i] == MARKER_HI && s[i + 1] == MARKER_LO
}

/// A complete JPEG image as it appears in the stream: it ends with the
/// end-of-image marker and holds no earlier one.
pub open spec fn is_image(s: Seq<u8>) -> bool {
    &&& ends_with_marker(s)
    &&& forall|i: int| 0 <= i && i + 2 < s.len() ==> !marker_at(s, i)
}

/// `s` holds no end-of-image marker at all.
pub open spec fn marker_free(s: Seq<u8>) -> bool {
    forall|i: int| !marker_at(s, i)
}

/// The images of `imgs` written one after another.
pub open spec fn concat(imgs: Seq<Seq<u8>>) -> Seq<u8>
    decreases imgs.len(),
{
    if imgs.len() == 0 {
        Seq::empty()
    } else {
        imgs[0] + concat(imgs.skip(1))
    }
}

proof fn lemma_scan_image(img: Seq<u8>, k: int, rest: Seq<u8>)
    requires
        is_image(img),
        0 <= k < img.len(),
    ensures
        scan(img.take(k), img.skip(k) + rest) == (seq![img] + scan(Seq::empty(), rest).0, scan(
            Seq::empty(),
            rest,
        ).1),
    decreases img.len() - k,
{
    let s = img.skip(k) + rest;
    let a = img.take(k).push(s[0]);
    assert(a =~= img.take(k + 1));
    if k + 1 == img.len() {
        assert(a =~= img);
        assert(s.skip(1) =~= rest);
    } else {
        if ends_with_marker(a) {
            assert(marker_at(img, k - 1));
        }
        assert(s.skip(1) =~= img.skip(k + 1) + rest);
        lemma_scan_image(img, k + 1, rest);
    }
}

proof fn lemma_scan_marker_free(tail: Seq<u8>, k: int)
    requires
        marker_free(tail),
        0 <= k <= tail.len(),
    ensures
        scan(tail.take(k), tail.skip(k)) == (Seq::<Seq<u8>>::empty(), tail),
    decreases tail.len() - k,
{
    if k == tail.len() {
        assert(tail.take(k) =~= tail);
        assert(tail.skip(k) =~= Seq::<u8>::empty());
    } else {
        let s = tail.skip(k);
        let a = tail.take(k).push(s[0]);
        assert(a =~= tail.take(k + 1));
        if ends_with_marker(a) {
            assert(marker_at(tail, k - 1));
        }
        assert(s.skip(1) =~= tail.skip(k + 1));
        lemma_scan_marker_free(tail, k + 1);
    }
}

/// A stream made of whole images followed by an unterminated remainder yields
/// exactly those images, in order and byte for byte; the remainder is never
/// published and is what stays accumulated.
pub proof fn lemma_frames_of_images(imgs: Seq<Seq<u8>>, tail: Seq<u8>)
    requires
        forall|i: int| 0 <= i < imgs.len() ==> is_image(#[trigger] imgs[i]),
        marker_free(tail),
    ensures
        frames_of(concat(imgs) + tail) == imgs,
        scan(Seq::empty(), concat(imgs) + tail).1 == tail,
    decreases imgs.len(),
{
    if imgs.len() == 0 {
        assert(concat(imgs) + tail =~= tail);
        lemma_scan_marker_free(tail, 0);
        assert(tail.take(0) =~= Seq::<u8>::empty());
        assert(tail.skip(0) =~= tail);
    } else {
        let img = imgs[0];
        let more = imgs.skip(1);
        assert forall|i: int| 0 <= i < more.len() implies is_image(#[trigger] more[i]) by {
            assert(more[i] == imgs[i + 1]);
        }
        lemma_frames_of_images(more, tail);
        assert(concat(imgs) + tail =~= img.skip(0) + (concat(more) + tail));
        lemma_scan_image(img, 0, concat(more) + tail);
        assert(img.take(0) =~= Seq::<u8>::empty());
        assert(seq![img] + more =~= imgs);
    }
}

} // verus!
