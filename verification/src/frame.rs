//! From a captured frame to the cells of a display buffer: one 32-bit cell
//! for each pixel, blue in the lowest byte, then green, then red, and the
//! highest byte zero.

use vstd::prelude::*;

verus! {

/// Why a frame could not be shown.
#[derive(Debug, Clone, Copy, PartialEq, Eq, Structural)]
pub enum FrameError {
    /// The bytes are not a bitmap file that can be decoded.
    Undecodable,
    /// The bitmap decodes to something other than 8-bit red, green and blue.
    NotRgb8,
    /// The bitmap declares more than `MAX_PIXELS` pixels.
    TooLarge,
}

/// The most pixels that a bitmap may declare: 8192 times 4096. Up to this
/// size the decoder holds the whole image in the buffer that it starts with.
pub const MAX_PIXELS: u64 = 33_554_432;

/// The error of the `image` crate. Nothing is read from it.
#[verifier::external_type_specification]
#[verifier::external_body]
pub struct ExImageError(image::ImageError);

/// What decoding `frame` as a bitmap file gives: the pixels, each as red,
/// green and blue, row after row from the top, each row from the left; or
/// why there are none.
pub uninterp spec fn bmp_pixels(frame: Seq<u8>) -> Result<Seq<[u8; 3]>, FrameError>;

/// Decodes a bitmap file with `image::load_from_memory_with_format` and
/// hands out the pixels where the decoder made an 8-bit RGB image of it.
/// The contract names the outcome `bmp_pixels(frame@)` and claims only that
/// it depends on the bytes alone: an error of the decoder stands for
/// `Undecodable`, an image of another layout for `NotRgb8`.
///
/// For an image of more than `MAX_PIXELS` pixels the decoder begins with a
/// buffer shorter than the image and may panic where it lengthens the
/// buffer or copies it out, so such files are not to be handed to it.
#[verifier::external_body]
fn decode_bmp(frame: &[u8]) -> (decoded: Result<Option<Vec<[u8; 3]>>, image::ImageError>)
    requires
        !oversized(frame@),
    ensures
        match decoded {
            Ok(Some(pixels)) => bmp_pixels(frame@) == Ok::<Seq<[u8; 3]>, FrameError>(pixels@),
            Ok(None) => bmp_pixels(frame@) == Err::<Seq<[u8; 3]>, FrameError>(
                FrameError::NotRgb8,
            ),
            Err(_) => bmp_pixels(frame@) == Err::<Seq<[u8; 3]>, FrameError>(
                FrameError::Undecodable,
            ),
        },
{
    match image::load_from_memory_with_format(frame, image::ImageFormat::Bmp)? {
        image::DynamicImage::ImageRgb8(rgb) => Ok(Some(rgb.pixels().map(|pixel| pixel.0).collect())),
        _ => Ok(None),
    }
}

/// The number that four bytes spell, lowest byte first.
pub open spec fn le_word(b0: u8, b1: u8, b2: u8, b3: u8) -> int {
    b0 + 0x100 * b1 + 0x1_0000 * b2 + 0x100_0000 * b3
}

/// The number that the two bytes from `at` on spell, lowest byte first.
pub open spec fn le_u16_at(frame: Seq<u8>, at: int) -> int {
    frame[at] + 0x100 * frame[at + 1]
}

/// The number that the four bytes from `at` on spell, lowest byte first.
pub open spec fn le_u32_at(frame: Seq<u8>, at: int) -> int {
    le_word(frame[at], frame[at + 1], frame[at + 2], frame[at + 3])
}

/// The four bytes from `at` on, read as a number with a sign, without the
/// sign.
pub open spec fn le_i32_magnitude_at(frame: Seq<u8>, at: int) -> int {
    let word = le_u32_at(frame, at);
    if word >= 0x8000_0000 {
        0x1_0000_0000 - word
    } else {
        word
    }
}

/// Whether a header of `size` bytes is one of those that hold width and
/// height as 32-bit numbers.
pub open spec fn wide_header(size: int) -> bool {
    size == 40 || size == 52 || size == 56 || size == 108 || size == 124
}

/// The number of pixels that the header of a bitmap file declares: width
/// times height. The file begins with `BM`; the size of the header stands at
/// byte 14. A header of 12 bytes holds width and height as 16-bit numbers at
/// bytes 18 and 20; the larger headers hold them as 32-bit numbers at bytes
/// 18 and 22, a height below zero standing for rows from the top. Bytes that
/// hold no such header declare no pixels.
pub open spec fn declared_pixels(frame: Seq<u8>) -> int {
    if frame.len() < 26 || frame[0] != 0x42 || frame[1] != 0x4d {
        0
    } else if le_u32_at(frame, 14) == 12 {
        le_u16_at(frame, 18) * le_u16_at(frame, 20)
    } else if wide_header(le_u32_at(frame, 14)) {
        le_i32_magnitude_at(frame, 18) * le_i32_magnitude_at(frame, 22)
    } else {
        0
    }
}

/// Whether the file declares more pixels than are taken.
pub open spec fn oversized(frame: Seq<u8>) -> bool {
    declared_pixels(frame) > MAX_PIXELS
}

/// The cell of a pixel: the bytes blue, green, red, zero, lowest first.
pub open spec fn packed(pixel: [u8; 3]) -> u32 {
    le_word(pixel[2], pixel[1], pixel[0], 0) as u32
}

/// The cells after the pixels were written over them from the front: one
/// cell for each pixel as far as both reach, the other cells as they were.
pub open spec fn filled(cells: Seq<u32>, pixels: Seq<[u8; 3]>) -> Seq<u32> {
    Seq::new(
        cells.len(),
        |i: int|
            if i < pixels.len() {
                packed(pixels[i])
            } else {
                cells[i]
            },
    )
}

/// Reads two bytes as a number, lowest byte first.
fn read_le_u16(frame: &[u8], at: usize) -> (value: u64)
    requires
        at + 2 <= frame.len(),
    ensures
        value == le_u16_at(frame@, at as int),
        value < 0x1_0000,
{
    frame[at] as u64 + 0x100 * (frame[at + 1] as u64)
}

/// Reads four bytes as a number, lowest byte first.
fn read_le_u32(frame: &[u8], at: usize) -> (value: u64)
    requires
        at + 4 <= frame.len(),
    ensures
        value == le_u32_at(frame@, at as int),
        value < 0x1_0000_0000,
{
    frame[at] as u64 + 0x100 * (frame[at + 1] as u64) + 0x1_0000 * (frame[at + 2] as u64)
        + 0x100_0000 * (frame[at + 3] as u64)
}

/// Reads four bytes as a number with a sign and drops the sign.
fn read_le_i32_magnitude(frame: &[u8], at: usize) -> (value: u64)
    requires
        at + 4 <= frame.len(),
    ensures
        value == le_i32_magnitude_at(frame@, at as int),
        value <= 0x8000_0000,
{
    let word: u64 = read_le_u32(frame, at);
    if word >= 0x8000_0000 {
        0x1_0000_0000 - word
    } else {
        word
    }
}

/// The number of pixels that the header of a bitmap file declares.
pub fn pixels_declared(frame: &[u8]) -> (pixels: u64)
    ensures
        pixels == declared_pixels(frame@),
{
    if frame.len() < 26 || frame[0] != 0x42 || frame[1] != 0x4d {
        return 0;
    }
    let size: u64 = read_le_u32(frame, 14);
    if size == 12 {
        let width: u64 = read_le_u16(frame, 18);
        let height: u64 = read_le_u16(frame, 20);
        assert(width * height < 0x1_0000_0000) by (nonlinear_arith)
            requires
                width < 0x1_0000,
                height < 0x1_0000,
        ;
        width * height
    } else if size == 40 || size == 52 || size == 56 || size == 108 || size == 124 {
        let width: u64 = read_le_i32_magnitude(frame, 18);
        let height: u64 = read_le_i32_magnitude(frame, 22);
        assert(width * height <= 0x4000_0000_0000_0000) by (nonlinear_arith)
            requires
                width <= 0x8000_0000,
                height <= 0x8000_0000,
        ;
        width * height
    } else {
        0
    }
}

/// Whether the file declares more pixels than are taken.
pub fn is_oversized(frame: &[u8]) -> (large: bool)
    ensures
        large == oversized(frame@),
{
    pixels_declared(frame) > MAX_PIXELS
}

/// The cell of one pixel.
pub fn pack(pixel: &[u8; 3]) -> (cell: u32)
    ensures
        cell == packed(*pixel),
{
    let r: u32 = pixel[0] as u32;
    let g: u32 = pixel[1] as u32;
    let b: u32 = pixel[2] as u32;
    assert((r << 16) | (g << 8) | b == b + 0x100 * g + 0x1_0000 * r) by (bit_vector)
        requires
            r < 0x100,
            g < 0x100,
            b < 0x100,
    ;
    (r << 16) | (g << 8) | b
}

/// Writes the cell of each pixel into the buffer, from the front, as far as
/// both the pixels and the buffer reach. Cells beyond the last pixel keep
/// what they held, and pixels beyond the last cell are left out.
pub fn fill(buffer: &mut Vec<u32>, pixels: &[[u8; 3]])
    ensures
        final(buffer)@ == filled(old(buffer)@, pixels@),
        final(buffer)@.len() == old(buffer)@.len(),
        forall|i: int|
            0 <= i < old(buffer)@.len() && i < pixels@.len() ==> final(buffer)@[i] == packed(
                pixels@[i],
            ),
        forall|i: int|
            pixels@.len() <= i < old(buffer)@.len() ==> final(buffer)@[i] == old(buffer)@[i],
{
    let count: usize = if pixels.len() < buffer.len() {
        pixels.len()
    } else {
        buffer.len()
    };
    let mut i: usize = 0;
    while i < count
        invariant
            i <= count,
            count <= pixels.len(),
            count <= buffer.len(),
            buffer.len() == old(buffer).len(),
            forall|j: int| 0 <= j < i ==> buffer@[j] == packed(pixels@[j]),
            forall|j: int| i <= j < buffer.len() ==> buffer@[j] == old(buffer)@[j],
        decreases count - i,
    {
        buffer[i] = pack(&pixels[i]);
        i += 1;
    }
    assert(buffer@ =~= filled(old(buffer)@, pixels@));
}

/// Decodes a captured frame, a bitmap file, and writes its pixels into the
/// buffer as `fill` does. A file that declares more than `MAX_PIXELS` pixels
/// is turned away undecoded. A frame that gives no pixels leaves the buffer
/// as it was.
pub fn fill_buffer(buffer: &mut Vec<u32>, frame: &[u8]) -> (done: Result<(), FrameError>)
    ensures
        oversized(frame@) ==> {
            &&& done == Err::<(), FrameError>(FrameError::TooLarge)
            &&& final(buffer)@ == old(buffer)@
        },
        !oversized(frame@) ==> match bmp_pixels(frame@) {
            Ok(pixels) => done is Ok && final(buffer)@ == filled(old(buffer)@, pixels),
            Err(e) => done == Err::<(), FrameError>(e) && final(buffer)@ == old(buffer)@,
        },
{
    if is_oversized(frame) {
        return Err(FrameError::TooLarge);
    }
    match decode_bmp(frame) {
        Ok(Some(pixels)) => {
            fill(buffer, pixels.as_slice());
            Ok(())
        },
        Ok(None) => Err(FrameError::NotRgb8),
        Err(_) => Err(FrameError::Undecodable),
    }
}

} // verus!
