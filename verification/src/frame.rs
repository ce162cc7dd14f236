//! Frames and the conversion between their uncompressed pixel layouts.
//!
//! A frame is its metadata and its payload. For the layouts with a fixed
//! pixel size the payload holds exactly `width * height` pixels; the other
//! layouts put no bound on it.
//!
//! Two layouts convert into each other: four bytes a pixel (red, green, blue,
//! alpha) and two bytes a pixel (a little-endian word with five bits of red
//! on top, six of green, five of blue at the bottom).

use vstd::prelude::*;
use crate::protocol::{FrameFormat, FrameMetadata};

pub use crate::buffer::FrameBuffer;

verus! {

/// Why a frame could not be made or converted.
#[derive(Debug)]
pub enum FrameError {
    /// Width or height is not a size that a frame can have.
    InvalidDimensions { width: u32, height: u32 },
    /// The payload is not as long as layout and dimensions call for.
    SizeMismatch { expected: usize, actual: usize },
    /// No conversion leads from the one layout to the other.
    UnsupportedConversion { from: FrameFormat, to: FrameFormat },
    /// A compressed payload was refused.
    CompressionError(String),
}

/// One image on its way: metadata and payload.
#[derive(Debug, Clone)]
pub struct Frame {
    pub metadata: FrameMetadata,
    pub data: Vec<u8>,
}

/// A frame as a value: its metadata and the bytes of its payload.
pub struct FrameView {
    pub metadata: FrameMetadata,
    pub data: Seq<u8>,
}

impl View for Frame {
    type V = FrameView;

    open spec fn view(&self) -> FrameView {
        FrameView { metadata: self.metadata, data: self.data@ }
    }
}

/// The payload length that metadata calls for: width times height times the
/// pixel size, where the layout fixes one.
pub open spec fn expected_len(metadata: FrameMetadata) -> Option<int> {
    match metadata.format.spec_bytes_per_pixel() {
        Some(bpp) => Some(metadata.width * metadata.height * bpp),
        None => None,
    }
}

/// Whether a payload of `len` bytes is what `metadata` calls for.
pub open spec fn payload_fits(metadata: FrameMetadata, len: int) -> bool {
    match expected_len(metadata) {
        Some(expected) => len == expected,
        None => true,
    }
}

/// Whether the expected payload length, if there is one, is a length that a
/// buffer in memory can have.
pub open spec fn addressable(metadata: FrameMetadata) -> bool {
    match expected_len(metadata) {
        Some(expected) => expected <= usize::MAX,
        None => true,
    }
}

/// `metadata` with its layout replaced.
pub open spec fn with_format(metadata: FrameMetadata, format: FrameFormat) -> FrameMetadata {
    FrameMetadata { format, ..metadata }
}

// ----- one pixel -----

/// The 5-6-5 word of a pixel: the top five bits of red, the top six of green,
/// the top five of blue.
pub open spec fn pack_rgb565(r: u8, g: u8, b: u8) -> u16 {
    (((r as u16) >> 3) << 11) | (((g as u16) >> 2) << 5) | ((b as u16) >> 3)
}

/// The first byte of a little-endian word.
pub open spec fn low_byte(word: u16) -> u8 {
    (word & 0xff) as u8
}

/// The second byte of a little-endian word.
pub open spec fn high_byte(word: u16) -> u8 {
    (word >> 8) as u8
}

/// The little-endian word of two bytes.
pub open spec fn word_of(low: u8, high: u8) -> u16 {
    (low as u16) | ((high as u16) << 8)
}

/// A five-bit field widened to eight bits: the field on top, its own top
/// three bits below.
pub open spec fn widen5(v: u8) -> u8 {
    (v << 3) | (v >> 2)
}

/// A six-bit field widened to eight bits: the field on top, its own top two
/// bits below.
pub open spec fn widen6(v: u8) -> u8 {
    (v << 2) | (v >> 4)
}

/// Red of a 5-6-5 word, as eight bits.
pub open spec fn red_of(word: u16) -> u8 {
    widen5(((word >> 11) & 0x1f) as u8)
}

/// Green of a 5-6-5 word, as eight bits.
pub open spec fn green_of(word: u16) -> u8 {
    widen6(((word >> 5) & 0x3f) as u8)
}

/// Blue of a 5-6-5 word, as eight bits.
pub open spec fn blue_of(word: u16) -> u8 {
    widen5((word & 0x1f) as u8)
}

// ----- a payload -----

/// A four-bytes-a-pixel payload in the 5-6-5 layout: two bytes for each whole
/// pixel of `data`, low byte first. Alpha is not kept.
pub open spec fn rgba_to_rgb565_bytes(data: Seq<u8>) -> Seq<u8> {
    Seq::new(
        (2 * (data.len() / 4)) as nat,
        |i: int|
            {
                let p = i / 2;
                let word = pack_rgb565(data[4 * p], data[4 * p + 1], data[4 * p + 2]);
                if i % 2 == 0 {
                    low_byte(word)
                } else {
                    high_byte(word)
                }
            },
    )
}

/// A 5-6-5 payload in the four-bytes-a-pixel layout: red, green, blue and a
/// fully opaque alpha for each whole pixel of `data`.
pub open spec fn rgb565_to_rgba_bytes(data: Seq<u8>) -> Seq<u8> {
    Seq::new(
        (4 * (data.len() / 2)) as nat,
        |i: int|
            {
                let p = i / 4;
                let word = word_of(data[2 * p], data[2 * p + 1]);
                if i % 4 == 0 {
                    red_of(word)
                } else if i % 4 == 1 {
                    green_of(word)
                } else if i % 4 == 2 {
                    blue_of(word)
                } else {
                    255u8
                }
            },
    )
}

/// Whether a frame in layout `from` can be had in layout `to`.
pub open spec fn convertible(from: FrameFormat, to: FrameFormat) -> bool {
    ||| from == to
    ||| from == FrameFormat::Rgba && to == FrameFormat::Rgb565
    ||| from == FrameFormat::Rgb565 && to == FrameFormat::Rgba
}

/// The payload of a frame after conversion from `from` to `to`, for a pair
/// that is [`convertible`].
pub open spec fn converted_bytes(from: FrameFormat, to: FrameFormat, data: Seq<u8>) -> Seq<u8> {
    if from == to {
        data
    } else if from == FrameFormat::Rgba {
        rgba_to_rgb565_bytes(data)
    } else {
        rgb565_to_rgba_bytes(data)
    }
}

// ----- what holds of the conversion -----

/// A word is the word of its two bytes.
pub proof fn lemma_word_of_its_bytes(word: u16)
    ensures
        word_of(low_byte(word), high_byte(word)) == word,
{
    assert(((word & 0xff) as u8) as u16 | ((((word >> 8) as u8) as u16) << 8) == word)
        by (bit_vector);
}

/// The bytes of the word of two bytes are those two bytes.
pub proof fn lemma_bytes_of_word(low: u8, high: u8)
    ensures
        low_byte(word_of(low, high)) == low,
        high_byte(word_of(low, high)) == high,
{
    assert((((low as u16) | ((high as u16) << 8)) & 0xff) as u8 == low) by (bit_vector);
    assert((((low as u16) | ((high as u16) << 8)) >> 8) as u8 == high) by (bit_vector);
}

/// Widening a 5-6-5 word to eight bits a channel and packing it again gives
/// the word back: the two-byte layout survives a round trip unchanged.
pub proof fn lemma_pack_of_unpacked(word: u16)
    ensures
        pack_rgb565(red_of(word), green_of(word), blue_of(word)) == word,
{
    let r5 = ((word >> 11) & 0x1f) as u8;
    let g6 = ((word >> 5) & 0x3f) as u8;
    let b5 = (word & 0x1f) as u8;
    assert({
        let r = (r5 << 3) | (r5 >> 2);
        let g = (g6 << 2) | (g6 >> 4);
        let b = (b5 << 3) | (b5 >> 2);
        (((r as u16) >> 3) << 11) | (((g as u16) >> 2) << 5) | ((b as u16) >> 3)
    } == word) by (bit_vector)
        requires
            r5 == ((word >> 11) & 0x1f) as u8,
            g6 == ((word >> 5) & 0x3f) as u8,
            b5 == (word & 0x1f) as u8,
    ;
}

/// Packing a pixel and widening it again keeps the bits that the word has
/// room for and fills the rest from the top: red and blue keep five bits,
/// green six. The other bits of the pixel are lost.
pub proof fn lemma_unpacked_of_pack(r: u8, g: u8, b: u8)
    ensures
        red_of(pack_rgb565(r, g, b)) == (r & 0xf8) | (r >> 5),
        green_of(pack_rgb565(r, g, b)) == (g & 0xfc) | (g >> 6),
        blue_of(pack_rgb565(r, g, b)) == (b & 0xf8) | (b >> 5),
{
    let word = pack_rgb565(r, g, b);
    let r5 = ((word >> 11) & 0x1f) as u8;
    let g6 = ((word >> 5) & 0x3f) as u8;
    let b5 = (word & 0x1f) as u8;
    assert(r5 == r >> 3 && g6 == g >> 2 && b5 == b >> 3) by (bit_vector)
        requires
            word == (((r as u16) >> 3) << 11) | (((g as u16) >> 2) << 5) | ((b as u16) >> 3),
            r5 == ((word >> 11) & 0x1f) as u8,
            g6 == ((word >> 5) & 0x3f) as u8,
            b5 == (word & 0x1f) as u8,
    ;
    assert(((r >> 3) << 3) | ((r >> 3) >> 2) == (r & 0xf8) | (r >> 5)) by (bit_vector);
    assert(((g >> 2) << 2) | ((g >> 2) >> 4) == (g & 0xfc) | (g >> 6)) by (bit_vector);
    assert(((b >> 3) << 3) | ((b >> 3) >> 2) == (b & 0xf8) | (b >> 5)) by (bit_vector);
}

/// A channel of eight bits comes back from the 5-6-5 layout as it went in
/// exactly when its lowest bits repeat its highest: three bits for red and
/// blue, two for green. So the round trip loses what most pixels hold.
pub proof fn lemma_round_trip_is_lossy(r: u8, g: u8, b: u8)
    ensures
        red_of(pack_rgb565(r, g, b)) == r <==> r & 0x07 == r >> 5,
        green_of(pack_rgb565(r, g, b)) == g <==> g & 0x03 == g >> 6,
        blue_of(pack_rgb565(r, g, b)) == b <==> b & 0x07 == b >> 5,
        red_of(pack_rgb565(1, 0, 0)) != 1,
{
    lemma_unpacked_of_pack(r, g, b);
    lemma_unpacked_of_pack(1, 0, 0);
    assert(((r & 0xf8) | (r >> 5) == r) <==> (r & 0x07 == r >> 5)) by (bit_vector);
    assert(((g & 0xfc) | (g >> 6) == g) <==> (g & 0x03 == g >> 6)) by (bit_vector);
    assert(((b & 0xf8) | (b >> 5) == b) <==> (b & 0x07 == b >> 5)) by (bit_vector);
    assert((1u8 & 0xf8) | (1u8 >> 5) != 1u8) by (bit_vector);
}

/// Every pixel that comes out of the 5-6-5 layout is fully opaque.
pub proof fn lemma_alpha_is_opaque(data: Seq<u8>, pixel: int)
    requires
        0 <= pixel < data.len() / 2,
    ensures
        rgb565_to_rgba_bytes(data).len() == 4 * (data.len() / 2),
        rgb565_to_rgba_bytes(data)[4 * pixel + 3] == 255,
{
}

/// A payload of whole 5-6-5 pixels, taken to four bytes a pixel and back, is
/// the payload it was.
pub proof fn lemma_rgb565_round_trip(data: Seq<u8>)
    requires
        data.len() % 2 == 0,
    ensures
        rgba_to_rgb565_bytes(rgb565_to_rgba_bytes(data)) == data,
{
    let wide = rgb565_to_rgba_bytes(data);
    let back = rgba_to_rgb565_bytes(wide);
    assert(back.len() == data.len());
    assert forall|i: int| 0 <= i < data.len() implies back[i] == data[i] by {
        let p = i / 2;
        let word = word_of(data[2 * p], data[2 * p + 1]);
        assert(wide[4 * p] == red_of(word));
        assert(wide[4 * p + 1] == green_of(word));
        assert(wide[4 * p + 2] == blue_of(word));
        lemma_pack_of_unpacked(word);
        lemma_bytes_of_word(data[2 * p], data[2 * p + 1]);
    }
    assert(back =~= data);
}

/// A payload of whole four-byte pixels, taken to the 5-6-5 layout and back,
/// has as many pixels as before; each channel holds what the 5-6-5 word
/// kept of it, and alpha is fully opaque whatever it was.
pub proof fn lemma_rgba_round_trip(data: Seq<u8>, pixel: int)
    requires
        data.len() % 4 == 0,
        0 <= pixel < data.len() / 4,
    ensures
        ({
            let back = rgb565_to_rgba_bytes(rgba_to_rgb565_bytes(data));
            let r = data[4 * pixel];
            let g = data[4 * pixel + 1];
            let b = data[4 * pixel + 2];
            &&& back.len() == data.len()
            &&& back[4 * pixel] == (r & 0xf8) | (r >> 5)
            &&& back[4 * pixel + 1] == (g & 0xfc) | (g >> 6)
            &&& back[4 * pixel + 2] == (b & 0xf8) | (b >> 5)
            &&& back[4 * pixel + 3] == 255
        }),
{
    let narrow = rgba_to_rgb565_bytes(data);
    let back = rgb565_to_rgba_bytes(narrow);
    let r = data[4 * pixel];
    let g = data[4 * pixel + 1];
    let b = data[4 * pixel + 2];
    let word = pack_rgb565(r, g, b);
    assert(narrow.len() == 2 * (data.len() / 4));
    assert(narrow[2 * pixel] == low_byte(word));
    assert(narrow[2 * pixel + 1] == high_byte(word));
    lemma_word_of_its_bytes(word);
    lemma_unpacked_of_pack(r, g, b);
    assert(back[4 * pixel] == red_of(word));
    assert(back[4 * pixel + 1] == green_of(word));
    assert(back[4 * pixel + 2] == blue_of(word));
}

fn pack_pixel(r: u8, g: u8, b: u8) -> (word: u16)
    ensures
        word == pack_rgb565(r, g, b),
{
    let r = r as u16;
    let g = g as u16;
    let b = b as u16;
    ((r >> 3) << 11) | ((g >> 2) << 5) | (b >> 3)
}

impl Frame {
    /// Whether the payload is as long as layout and dimensions call for.
    pub open spec fn well_formed(&self) -> bool {
        payload_fits(self.metadata, self.data@.len() as int)
    }

    /// Makes a frame of metadata and payload, or refuses the pair where the
    /// payload is not the length that the metadata calls for.
    pub fn new(metadata: FrameMetadata, data: Vec<u8>) -> (made: Result<Frame, FrameError>)
        requires
            addressable(metadata),
        ensures
            made is Ok <==> payload_fits(metadata, data@.len() as int),
            match made {
                Ok(frame) => frame.metadata == metadata && frame.data == data
                    && frame.well_formed(),
                Err(error) => expected_len(metadata) matches Some(expected) && error == (
                FrameError::SizeMismatch { expected: expected as usize, actual: data.len() }),
            },
    {
        let expected_size = Self::expected_size(&metadata);
        if let Some(expected) = expected_size {
            if data.len() != expected {
                return Err(FrameError::SizeMismatch { expected, actual: data.len() });
            }
        }
        Ok(Frame { metadata, data })
    }

    /// The payload length that `metadata` calls for.
    fn expected_size(metadata: &FrameMetadata) -> (size: Option<usize>)
        requires
            addressable(*metadata),
        ensures
            match size {
                Some(n) => expected_len(*metadata) == Some(n as int),
                None => expected_len(*metadata) is None,
            },
    {
        match metadata.format.bytes_per_pixel() {
            Some(bpp) => {
                let width = metadata.width as usize;
                let height = metadata.height as usize;
                assert(width * height <= width * height * bpp) by (nonlinear_arith)
                    requires
                        bpp >= 1,
                ;
                let pixels = width * height;
                Some(pixels * bpp)
            },
            None => None,
        }
    }

    /// This frame in another layout: a new frame, the old one untouched.
    ///
    /// A frame converts into its own layout, giving a copy, and the
    /// four-byte and two-byte layouts convert into each other. Every other
    /// pair is refused.
    pub fn convert(&self, target_format: FrameFormat) -> (converted: Result<Frame, FrameError>)
        requires
            self.well_formed(),
        ensures
            converted is Ok <==> convertible(self.metadata.format, target_format),
            match converted {
                Ok(frame) => {
                    &&& frame.metadata == with_format(self.metadata, target_format)
                    &&& frame.data@ == converted_bytes(
                        self.metadata.format,
                        target_format,
                        self.data@,
                    )
                    &&& frame.well_formed()
                },
                Err(error) => error == (FrameError::UnsupportedConversion {
                    from: self.metadata.format,
                    to: target_format,
                }),
            },
    {
        if self.metadata.format == target_format {
            let data = self.data.clone();
            assert(data@ == self.data@);
            return Ok(Frame { metadata: self.metadata, data });
        }
        let new_data = match (self.metadata.format, target_format) {
            (FrameFormat::Rgba, FrameFormat::Rgb565) => self.rgba_to_rgb565(),
            (FrameFormat::Rgb565, FrameFormat::Rgba) => self.rgb565_to_rgba(),
            (from, to) => {
                return Err(FrameError::UnsupportedConversion { from, to });
            },
        };

        let mut new_metadata = self.metadata;
        new_metadata.format = target_format;

        proof {
            let pixels = self.metadata.width * self.metadata.height;
            assert(new_metadata.width * new_metadata.height == pixels);
            assert(new_data@.len() == new_data.len() <= usize::MAX);
            if self.metadata.format == FrameFormat::Rgba {
                assert(self.data@.len() == pixels * 4);
                assert(new_data@.len() == pixels * 2);
            } else {
                assert(self.data@.len() == pixels * 2);
                assert(new_data@.len() == pixels * 4);
            }
        }
        Frame::new(new_metadata, new_data)
    }

    /// The payload in the 5-6-5 layout, read as four bytes a pixel.
    fn rgba_to_rgb565(&self) -> (output: Vec<u8>)
        ensures
            output@ == rgba_to_rgb565_bytes(self.data@),
    {
        let pixel_count = self.data.len() / 4;
        let mut output = Vec::with_capacity(pixel_count * 2);

        let mut pixel: usize = 0;
        while pixel < pixel_count
            invariant
                pixel <= pixel_count,
                pixel_count == self.data@.len() / 4,
                self.data@.len() <= usize::MAX,
                output@.len() == 2 * pixel,
                forall|i: int|
                    0 <= i < output@.len() ==> output@[i] == rgba_to_rgb565_bytes(self.data@)[i],
            decreases pixel_count - pixel,
        {
            let r = self.data[4 * pixel];
            let g = self.data[4 * pixel + 1];
            let b = self.data[4 * pixel + 2];
            let rgb565 = pack_pixel(r, g, b);
            output.push(#[verifier::truncate] ((rgb565 & 0xff) as u8));
            output.push(#[verifier::truncate] ((rgb565 >> 8) as u8));
            pixel += 1;
        }

        assert(output@ =~= rgba_to_rgb565_bytes(self.data@));
        output
    }

    /// The payload in the four-bytes-a-pixel layout, read as 5-6-5 words.
    fn rgb565_to_rgba(&self) -> (output: Vec<u8>)
        ensures
            output@ == rgb565_to_rgba_bytes(self.data@),
    {
        let pixel_count = self.data.len() / 2;
        let mut output = Vec::new();

        let mut pixel: usize = 0;
        while pixel < pixel_count
            invariant
                pixel <= pixel_count,
                pixel_count == self.data@.len() / 2,
                self.data@.len() <= usize::MAX,
                output@.len() == 4 * pixel,
                forall|i: int|
                    0 <= i < output@.len() ==> output@[i] == rgb565_to_rgba_bytes(self.data@)[i],
            decreases pixel_count - pixel,
        {
            let low = self.data[2 * pixel];
            let high = self.data[2 * pixel + 1];
            let rgb565: u16 = (low as u16) | ((high as u16) << 8);
            let r = #[verifier::truncate] (((rgb565 >> 11) & 0x1f) as u8);
            let g = #[verifier::truncate] (((rgb565 >> 5) & 0x3f) as u8);
            let b = #[verifier::truncate] ((rgb565 & 0x1f) as u8);
            output.push((r << 3) | (r >> 2));
            output.push((g << 2) | (g >> 4));
            output.push((b << 3) | (b >> 2));
            output.push(255);
            pixel += 1;
        }

        assert(output@ =~= rgb565_to_rgba_bytes(self.data@));
        output
    }

    /// The payload.
    pub fn as_bytes(&self) -> (bytes: &[u8])
        ensures
            bytes@ == self.data@,
    {
        self.data.as_slice()
    }
}

} // verus!
