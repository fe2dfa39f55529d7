//! Decoded images and the timing of their animation frames.
//!
//! Instants and durations are counted in nanoseconds; an instant is taken
//! from a clock that only the caller reads.
use crate::bitmap::{pack, Image, CLEAR};
use image::AnimationDecoder;
use vstd::prelude::*;

verus! {

/// One frame as a decoder hands it out: how long it shows, its size, and
/// its RGBA bytes, four per pixel, row by row.
#[derive(Debug, Clone)]
pub struct RawFrame {
    pub duration: u64,
    pub width: usize,
    pub height: usize,
    pub rgba: Vec<u8>,
}

/// The container format of encoded image bytes, as far as this cache
/// needs to tell them apart.
#[derive(Debug, Clone, Copy, PartialEq, Eq, Structural)]
pub enum ImageKind {
    Gif,
    Png,
    Other,
}

/// What format the bytes look like; `None` when no format is recognized.
pub uninterp spec fn guessed_kind(data: Seq<u8>) -> Option<ImageKind>;

/// The frames of a GIF; `None` when the bytes do not decode as one.
pub uninterp spec fn gif_frames(data: Seq<u8>) -> Option<Seq<RawFrame>>;

/// Whether PNG bytes hold an animation; `None` when the header does not
/// decode.
pub uninterp spec fn png_animated(data: Seq<u8>) -> Option<bool>;

/// The frames of an animated PNG; `None` when they do not decode.
pub uninterp spec fn apng_frames(data: Seq<u8>) -> Option<Seq<RawFrame>>;

/// The one frame of a still image, in any format the decoder knows;
/// `None` when the bytes do not decode.
pub uninterp spec fn still_frame(data: Seq<u8>) -> Option<RawFrame>;

/// The frames of a decoded list, as a sequence.
pub open spec fn list_view(r: Option<Vec<RawFrame>>) -> Option<Seq<RawFrame>> {
    match r {
        Some(v) => Some(v@),
        None => None,
    }
}

/// Relies on `image::guess_format`, which recognizes a format by the
/// signature at the start of the bytes.
#[verifier::external_body]
fn guess_kind(data: &[u8]) -> (r: Option<ImageKind>)
    ensures
        r == guessed_kind(data@),
{
    match image::guess_format(data) {
        Ok(image::ImageFormat::Gif) => Some(ImageKind::Gif),
        Ok(image::ImageFormat::Png) => Some(ImageKind::Png),
        Ok(_) => Some(ImageKind::Other),
        Err(_) => None,
    }
}

/// Relies on `image::codecs::gif::GifDecoder` and its `into_frames`, which
/// decode every frame of a GIF to RGBA with its delay.
#[verifier::external_body]
fn decode_gif(data: &[u8]) -> (r: Option<Vec<RawFrame>>)
    ensures
        list_view(r) == gif_frames(data@),
{
    let decoder = image::codecs::gif::GifDecoder::new(std::io::Cursor::new(data)).ok()?;
    let frames = decoder.into_frames().collect_frames().ok()?;
    let mut out = Vec::new();
    for frame in frames {
        let duration = std::time::Duration::from(frame.delay()).as_nanos() as u64;
        let buffer = frame.into_buffer();
        let (width, height) = buffer.dimensions();
        out.push(RawFrame { duration, width: width as usize, height: height as usize, rgba: buffer.into_raw() });
    }
    Some(out)
}

/// Relies on `image::codecs::png::PngDecoder::is_apng`, which reads the
/// header for an animation control chunk.
#[verifier::external_body]
fn png_is_animated(data: &[u8]) -> (r: Option<bool>)
    ensures
        r == png_animated(data@),
{
    let decoder = image::codecs::png::PngDecoder::new(std::io::Cursor::new(data)).ok()?;
    Some(decoder.is_apng())
}

/// Relies on `image::codecs::png::PngDecoder::apng` and its `into_frames`,
/// which decode every frame of an animated PNG to RGBA with its delay.
#[verifier::external_body]
fn decode_apng(data: &[u8]) -> (r: Option<Vec<RawFrame>>)
    ensures
        list_view(r) == apng_frames(data@),
{
    let decoder = image::codecs::png::PngDecoder::new(std::io::Cursor::new(data)).ok()?;
    let frames = decoder.apng().into_frames().collect_frames().ok()?;
    let mut out = Vec::new();
    for frame in frames {
        let duration = std::time::Duration::from(frame.delay()).as_nanos() as u64;
        let buffer = frame.into_buffer();
        let (width, height) = buffer.dimensions();
        out.push(RawFrame { duration, width: width as usize, height: height as usize, rgba: buffer.into_raw() });
    }
    Some(out)
}

/// Relies on `image::load_from_memory` and `to_rgba8`, which decode the
/// first image of the bytes to RGBA; a still image shows for no set time.
#[verifier::external_body]
fn decode_still(data: &[u8]) -> (r: Option<RawFrame>)
    ensures
        r == still_frame(data@),
        r matches Some(f) ==> f.duration == 0,
{
    let buffer = image::load_from_memory(data).ok()?.to_rgba8();
    let (width, height) = buffer.dimensions();
    Some(RawFrame { duration: 0, width: width as usize, height: height as usize, rgba: buffer.into_raw() })
}

/// One decoded frame: how long it shows and its pixels.
#[derive(Debug)]
pub struct ImageFrame {
    pub duration: u64,
    pub image: Image,
}

/// A decoded image: its frames, which one shows now, and since when.
#[derive(Debug)]
pub struct DecodedImage {
    pub frame_start: u64,
    pub current_frame: usize,
    pub frames: Vec<ImageFrame>,
}

/// What the image cache keeps for an image.
#[derive(Debug)]
pub enum CachedImage {
    Animation(DecodedImage),
    SingleFrame,
}

/// `start + duration`, or the last instant there is.
pub open spec fn due(start: u64, duration: u64) -> u64 {
    if start + duration > u64::MAX {
        u64::MAX
    } else {
        (start + duration) as u64
    }
}

/// Whether `img` holds the pixels of `raw`.
pub open spec fn holds_pixels(img: Image, raw: RawFrame) -> bool {
    &&& img.wf()
    &&& img.width == raw.width
    &&& img.height == raw.height
    &&& raw.rgba@.len() == 4 * raw.width * raw.height
    &&& forall|x: int, y: int|
        0 <= x < raw.width && 0 <= y < raw.height ==> img.pixel(x, y) as int == pack(
            raw.rgba@[4 * (y * raw.width + x)],
            raw.rgba@[4 * (y * raw.width + x) + 1],
            raw.rgba@[4 * (y * raw.width + x) + 2],
            raw.rgba@[4 * (y * raw.width + x) + 3],
        )
}

/// Whether a frame's bytes fit its size.
pub open spec fn raw_fits(raw: RawFrame) -> bool {
    raw.rgba@.len() == 4 * raw.width * raw.height
}

/// Whether a list of frames can make an image: it is not empty and every
/// frame's bytes fit its size.
pub open spec fn frames_usable(raws: Seq<RawFrame>) -> bool {
    raws.len() > 0 && forall|i: int| 0 <= i < raws.len() ==> raw_fits(#[trigger] raws[i])
}

/// The frames an image decodes to: every frame of a GIF or animated PNG,
/// else the single still image; a GIF whose frames do not decode is read
/// as a still image. `None` when decoding fails.
pub open spec fn decoded_frames(data: Seq<u8>) -> Option<Seq<RawFrame>> {
    let still = match still_frame(data) {
        Some(f) => if raw_fits(f) {
            Some(seq![f])
        } else {
            None
        },
        None => None,
    };
    match guessed_kind(data) {
        None => None,
        Some(ImageKind::Gif) => match gif_frames(data) {
            Some(fs) => if frames_usable(fs) {
                Some(fs)
            } else {
                still
            },
            None => still,
        },
        Some(ImageKind::Png) => match png_animated(data) {
            None => None,
            Some(true) => match apng_frames(data) {
                Some(fs) => if frames_usable(fs) {
                    Some(fs)
                } else {
                    None
                },
                None => None,
            },
            Some(false) => still,
        },
        Some(ImageKind::Other) => still,
    }
}

impl DecodedImage {
    pub open spec fn wf(&self) -> bool {
        &&& self.frames@.len() > 0
        &&& self.current_frame < self.frames@.len()
        &&& forall|i: int| 0 <= i < self.frames@.len() ==> (#[trigger] self.frames@[i]).image.wf()
    }

    /// Whether this image shows `raws` from their first frame, which began
    /// at `now`.
    pub open spec fn shows(&self, raws: Seq<RawFrame>, now: u64) -> bool {
        &&& self.wf()
        &&& self.frame_start == now
        &&& self.current_frame == 0
        &&& self.frames@.len() == raws.len()
        &&& forall|i: int|
            0 <= i < raws.len() ==> (#[trigger] self.frames@[i]).duration == raws[i].duration
                && holds_pixels(self.frames@[i].image, raws[i])
    }

    /// When the current frame is due to be replaced.
    pub open spec fn next_due(&self) -> u64 {
        due(self.frame_start, self.frames@[self.current_frame as int].duration)
    }

    /// A single transparent pixel that stands in for an image that does
    /// not decode.
    pub fn placeholder(now: u64) -> (r: DecodedImage)
        ensures
            r.wf(),
            r.frame_start == now,
            r.current_frame == 0,
            r.frames@.len() == 1,
            r.frames@[0].duration == 0,
            r.frames@[0].image.width == 1,
            r.frames@[0].image.height == 1,
            r.frames@[0].image.pixel(0, 0) == CLEAR,
    {
        let image = Image::new(1, 1);
        let mut frames: Vec<ImageFrame> = Vec::new();
        frames.push(ImageFrame { duration: 0, image });
        DecodedImage { frame_start: now, current_frame: 0, frames }
    }

    /// An image of the given frames, the first one showing from `now`;
    /// `None` where the list is empty or a frame's bytes do not fit its size.
    pub fn with_frames(raws: &Vec<RawFrame>, now: u64) -> (r: Option<DecodedImage>)
        ensures
            r is Some <==> frames_usable(raws@),
            r matches Some(d) ==> d.shows(raws@, now),
    {
        if raws.len() == 0 {
            return None;
        }
        let mut frames: Vec<ImageFrame> = Vec::new();
        let mut i: usize = 0;
        while i < raws.len()
            invariant
                i <= raws@.len(),
                frames@.len() == i,
                forall|j: int| 0 <= j < i ==> raw_fits(#[trigger] raws@[j]),
                forall|j: int|
                    0 <= j < i ==> (#[trigger] frames@[j]).duration == raws@[j].duration
                        && holds_pixels(frames@[j].image, raws@[j]),
            decreases raws@.len() - i,
        {
            let raw = &raws[i];
            match Image::from_rgba(raw.width, raw.height, &raw.rgba) {
                Some(image) => {
                    frames.push(ImageFrame { duration: raw.duration, image });
                },
                None => {
                    return None;
                },
            }
            i = i + 1;
        }
        Some(DecodedImage { frame_start: now, current_frame: 0, frames })
    }

    /// A still image of one frame, showing from `now`.
    pub fn with_single(raw: &RawFrame, now: u64) -> (r: Option<DecodedImage>)
        ensures
            r is Some <==> raw_fits(*raw),
            r matches Some(d) ==> d.shows(seq![*raw], now),
    {
        match Image::from_rgba(raw.width, raw.height, &raw.rgba) {
            Some(image) => {
                let mut frames: Vec<ImageFrame> = Vec::new();
                frames.push(ImageFrame { duration: raw.duration, image });
                Some(DecodedImage { frame_start: now, current_frame: 0, frames })
            },
            None => None,
        }
    }

    fn load_still(data: &[u8], now: u64) -> (r: Option<DecodedImage>)
        ensures
            match still_frame(data@) {
                Some(f) => if raw_fits(f) {
                    r matches Some(d) && d.shows(seq![f], now)
                } else {
                    r is None
                },
                None => r is None,
            },
    {
        match decode_still(data) {
            Some(raw) => DecodedImage::with_single(&raw, now),
            None => None,
        }
    }

    /// Decodes encoded image bytes: all frames of a GIF or animated PNG,
    /// else a still image; `None` when decoding fails.
    pub fn load(data: &[u8], now: u64) -> (r: Option<DecodedImage>)
        ensures
            match decoded_frames(data@) {
                Some(raws) => r matches Some(d) && d.shows(raws, now),
                None => r is None,
            },
    {
        match guess_kind(data) {
            None => None,
            Some(ImageKind::Gif) => {
                match decode_gif(data) {
                    Some(raws) => match DecodedImage::with_frames(&raws, now) {
                        Some(d) => Some(d),
                        None => DecodedImage::load_still(data, now),
                    },
                    None => DecodedImage::load_still(data, now),
                }
            },
            Some(ImageKind::Png) => {
                match png_is_animated(data) {
                    None => None,
                    Some(true) => match decode_apng(data) {
                        Some(raws) => DecodedImage::with_frames(&raws, now),
                        None => None,
                    },
                    Some(false) => DecodedImage::load_still(data, now),
                }
            },
            Some(ImageKind::Other) => DecodedImage::load_still(data, now),
        }
    }

    /// Moves to the next frame, wrapping around, when the current one is
    /// due at `now`; a single frame never moves. Returns when the frame
    /// showing afterwards is due, or `None` for a single frame.
    pub fn advance(&mut self, now: u64) -> (r: Option<u64>)
        requires
            old(self).wf(),
        ensures
            final(self).wf(),
            final(self).frames == old(self).frames,
            old(self).frames@.len() <= 1 ==> *final(self) == *old(self) && r is None,
            old(self).frames@.len() > 1 && now < old(self).next_due() ==> *final(self) == *old(
                self,
            ) && r == Some(old(self).next_due()),
            old(self).frames@.len() > 1 && now >= old(self).next_due() ==> {
                &&& final(self).current_frame == (old(self).current_frame + 1) % (old(
                    self,
                ).frames@.len() as int)
                &&& final(self).frame_start == now
                &&& r == Some(final(self).next_due())
            },
    {
        if self.frames.len() <= 1 {
            return None;
        }
        let d = self.frames[self.current_frame].duration;
        let next_due = self.frame_start.saturating_add(d);
        if now >= next_due {
            let mut next = self.current_frame + 1;
            if next >= self.frames.len() {
                next = 0;
            }
            proof {
                let n = self.frames@.len() as int;
                let c = self.current_frame as int;
                if c + 1 < n {
                    vstd::arithmetic::div_mod::lemma_small_mod((c + 1) as nat, n as nat);
                } else {
                    vstd::arithmetic::div_mod::lemma_mod_self_0(n);
                }
            }
            self.current_frame = next;
            self.frame_start = now;
            let d2 = self.frames[self.current_frame].duration;
            Some(now.saturating_add(d2))
        } else {
            Some(next_due)
        }
    }
}

} // verus!
