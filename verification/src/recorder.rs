//! The frame recorder: collects captured frames for an animated recording.
//! Each frame arrives as raw RGBA bytes; the recorder strips the alpha
//! channel and keeps the RGB bytes.  Encoding the collected frames into a
//! file is left to the embedding program, which reads them back through the
//! accessors.

use vstd::prelude::*;

verus! {

/// The RGB bytes of an RGBA byte sequence: every fourth byte — the alpha
/// channel — is dropped.
pub open spec fn rgb_of(s: Seq<u8>) -> Seq<u8> {
    Seq::new(s.len() / 4 * 3, |j: int| s[4 * (j / 3) + (j % 3)])
}

/// The mathematical state of the recorder.
#[verifier::ext_equal]
pub ghost struct RecorderModel {
    pub frames: Seq<Seq<u8>>,
    pub width: int,
    pub height: int,
    pub frame_delay: int,
}

/// A recorder that captures frames for an animated recording.
pub struct GameRecorder {
    frames: Vec<Vec<u8>>,
    width: u16,
    height: u16,
    frame_delay: u16,
}

impl View for GameRecorder {
    type V = RecorderModel;

    closed spec fn view(&self) -> RecorderModel {
        RecorderModel {
            frames: self.frames.deep_view(),
            width: self.width as int,
            height: self.height as int,
            frame_delay: self.frame_delay as int,
        }
    }
}

impl GameRecorder {
    /// Create a new recorder.  The delay between frames is given in
    /// milliseconds and kept in hundredths of a second, the unit animated
    /// recordings use.
    pub fn new(frame_delay_ms: u16) -> (r: GameRecorder)
        ensures
            r@.frames == Seq::<Seq<u8>>::empty(),
            r@.width == 0,
            r@.height == 0,
            r@.frame_delay == frame_delay_ms as int / 10,
    {
        let r = GameRecorder {
            frames: Vec::new(),
            width: 0,
            height: 0,
            frame_delay: frame_delay_ms / 10,
        };
        proof {
            assert(r@.frames =~= Seq::<Seq<u8>>::empty());
        }
        r
    }

    /// Record one captured frame from its raw RGBA bytes and dimensions.
    /// The alpha channel is dropped; the first frame fixes the recorder's
    /// dimensions.
    pub fn capture_frame(&mut self, rgba: &Vec<u8>, width: u16, height: u16)
        requires
            old(self)@.frames.len() < usize::MAX,
            rgba@.len() % 4 == 0,
            rgba@.len() <= 0x1000_0000,
        ensures
            final(self)@.frames == old(self)@.frames.push(rgb_of(rgba@)),
            final(self)@.width == if old(self)@.width == 0 {
                width as int
            } else {
                old(self)@.width
            },
            final(self)@.height == if old(self)@.width == 0 {
                height as int
            } else {
                old(self)@.height
            },
            final(self)@.frame_delay == old(self)@.frame_delay,
    {
        if self.width == 0 {
            self.width = width;
            self.height = height;
        }
        let n: usize = rgba.len();
        let chunks: usize = n / 4;
        let mut rgb: Vec<u8> = Vec::new();
        let mut c: usize = 0;
        while c < chunks
            invariant
                n == rgba@.len(),
                n % 4 == 0,
                n <= 0x1000_0000,
                chunks == n as int / 4,
                c <= chunks,
                rgb@.len() == c * 3,
                forall|j: int| 0 <= j < rgb@.len() ==> rgb@[j] == rgba@[4 * (j / 3) + (j % 3)],
            decreases chunks - c,
        {
            let base: usize = c * 4;
            rgb.push(rgba[base]);
            rgb.push(rgba[base + 1]);
            rgb.push(rgba[base + 2]);
            proof {
                assert forall|j: int| 0 <= j < rgb@.len() implies rgb@[j] == rgba@[4 * (j / 3) + (
                j % 3)] by {
                    if j >= 3 * c {
                        let t = j - 3 * (c as int);
                        assert((3 * (c as int) + t) / 3 == c as int && (3 * (c as int) + t) % 3
                            == t) by (nonlinear_arith)
                            requires
                                0 <= t < 3,
                                0 <= c as int,
                        ;
                    }
                }
            }
            c = c + 1;
        }
        proof {
            assert(rgb@ =~= rgb_of(rgba@));
        }
        let ghost frames0 = self.frames.deep_view();
        self.frames.push(rgb);
        proof {
            assert(rgb.deep_view() =~= rgb@);
            assert(self.frames.deep_view() =~~= frames0.push(rgb_of(rgba@)));
        }
    }

    /// The number of captured frames.
    pub fn frame_count(&self) -> (n: usize)
        ensures
            n == self@.frames.len(),
    {
        self.frames.len()
    }

    /// The captured frames, each as RGB bytes, for encoding.
    pub fn frames(&self) -> (r: &Vec<Vec<u8>>)
        ensures
            r.deep_view() == self@.frames,
    {
        &self.frames
    }

    /// The width the first captured frame had, or zero before any frame.
    pub fn width(&self) -> (r: u16)
        ensures
            r as int == self@.width,
    {
        self.width
    }

    /// The height the first captured frame had, or zero before any frame.
    pub fn height(&self) -> (r: u16)
        ensures
            r as int == self@.height,
    {
        self.height
    }

    /// The delay between frames, in hundredths of a second.
    pub fn frame_delay(&self) -> (r: u16)
        ensures
            r as int == self@.frame_delay,
    {
        self.frame_delay
    }
}

} // verus!
