//! Snapshots: file names and the PNG encoding of a pixel buffer.
//!
//! Writing the encoded bytes to a file is the caller's part.

use image::png::PNGEncoder;
use image::ColorType;
use vstd::prelude::*;
use crate::error_text::invalid_input;
use crate::mandelbrot_error::MandelbrotError;

verus! {

/// Width to which the index of a frame is padded with zeros.
pub const FRAME_DIGITS: usize = 6;

/// The character of a decimal digit.
pub open spec fn digit_char(d: int) -> char {
    if d == 0 {
        '0'
    } else if d == 1 {
        '1'
    } else if d == 2 {
        '2'
    } else if d == 3 {
        '3'
    } else if d == 4 {
        '4'
    } else if d == 5 {
        '5'
    } else if d == 6 {
        '6'
    } else if d == 7 {
        '7'
    } else if d == 8 {
        '8'
    } else {
        '9'
    }
}

/// The decimal digits of `n`, most significant first, without leading
/// zeros; the single digit 0 for 0.
pub open spec fn decimal(n: nat) -> Seq<char>
    decreases n,
{
    if n < 10 {
        seq![digit_char(n as int)]
    } else {
        decimal(n / 10).push(digit_char((n % 10) as int))
    }
}

/// The decimal digits of `n`, padded on the left with zeros to `width`
/// characters; a longer number is left as it is.
pub open spec fn zero_padded(n: nat, width: nat) -> Seq<char> {
    let digits = decimal(n);
    if digits.len() >= width {
        digits
    } else {
        Seq::new((width - digits.len()) as nat, |i: int| '0') + digits
    }
}

/// The name of frame `index` of a sequence: the prefix, then the index
/// padded to six digits.
pub open spec fn frame_name_of(prefix: Seq<char>, index: nat) -> Seq<char> {
    prefix + zero_padded(index, FRAME_DIGITS as nat)
}

/// The name of the file that holds a snapshot: the base name with the
/// suffix `.png`.
pub open spec fn snapshot_path_of(base: Seq<char>) -> Seq<char> {
    base + ".png"@
}

/// A pixel buffer and a shape (width, height) that go together: both
/// extents are positive, the buffer holds three bytes per pixel, and a row
/// can be addressed bit by bit.
pub open spec fn fits_shape(pixels: Seq<u8>, shape: [i32; 2]) -> bool {
    &&& shape[0] >= 1
    &&& shape[1] >= 1
    &&& pixels.len() == 3 * shape[0] * shape[1]
    &&& 24 * shape[0] <= usize::MAX
}

/// The PNG file that the encoder makes of an image of 8-bit RGB pixels,
/// given as row-major bytes with its width and height; `None` where the
/// encoder fails.
pub uninterp spec fn png_encoding(pixels: Seq<u8>, width: u32, height: u32) -> Option<Seq<u8>>;

/// What a snapshot of a pixel buffer is: the PNG file of the image where
/// buffer and shape go together and the encoder succeeds, else nothing.
pub open spec fn snapshot_of(pixels: Seq<u8>, shape: [i32; 2]) -> Option<Seq<u8>> {
    if fits_shape(pixels, shape) {
        png_encoding(pixels, shape[0] as u32, shape[1] as u32)
    } else {
        None
    }
}

/// Encodes an image of 8-bit RGB pixels as a PNG file in memory.
///
/// Trusted: `image::png::PNGEncoder::new` and `encode` with
/// `ColorType::RGB(8)`, writing into a vector. The encoder is a function of
/// its arguments, and the contract names its outcome: the bytes written on
/// success, nothing on failure. The contract asks for positive extents and
/// a buffer of three bytes per pixel, which keeps the encoder's arithmetic
/// on sizes within range.
#[verifier::external_body]
fn png_encode(pixels: &Vec<u8>, width: u32, height: u32) -> (encoded: Result<
    Vec<u8>,
    std::io::Error,
>)
    requires
        width >= 1,
        height >= 1,
        pixels@.len() == 3 * width * height,
        24 * width <= usize::MAX,
    ensures
        match encoded {
            Ok(bytes) => png_encoding(pixels@, width, height) == Some(bytes@),
            Err(_) => png_encoding(pixels@, width, height) is None,
        },
{
    let mut bytes: Vec<u8> = Vec::new();
    match PNGEncoder::new(&mut bytes).encode(pixels, width, height, ColorType::RGB(8)) {
        Ok(()) => Ok(bytes),
        Err(err) => Err(err),
    }
}

/// Turns the outcome of the encoder into the outcome of a snapshot: the
/// bytes as they are, an I/O error as the core's error.
pub fn snapshot_outcome(encoded: Result<Vec<u8>, std::io::Error>) -> (outcome: Result<
    Vec<u8>,
    MandelbrotError,
>)
    ensures
        outcome == match encoded {
            Ok(bytes) => Ok::<Vec<u8>, MandelbrotError>(bytes),
            Err(err) => Err::<Vec<u8>, MandelbrotError>(MandelbrotError::Io(err)),
        },
{
    match encoded {
        Ok(bytes) => Ok(bytes),
        Err(err) => Err(MandelbrotError::from(err)),
    }
}

/// Tells whether a pixel buffer and a shape go together.
pub fn check_shape(pixels: &Vec<u8>, shape: [i32; 2]) -> (fits: bool)
    ensures
        fits == fits_shape(pixels@, shape),
{
    let width: i32 = shape[0];
    let height: i32 = shape[1];
    if width < 1 || height < 1 {
        return false;
    }
    let row_bits: u64 = 24 * (width as u64);
    if row_bits > usize::MAX as u64 {
        return false;
    }
    assert(3 * width * height == (3 * width) * height) by (nonlinear_arith);
    assert(0 < (3 * width) * height <= 6442450941 * 2147483647) by (nonlinear_arith)
        requires
            1 <= width <= 2147483647,
            1 <= height <= 2147483647,
    ;
    let expected: u128 = 3 * (width as u128) * (height as u128);
    pixels.len() as u128 == expected
}

/// Encodes a pixel buffer of the given shape as a PNG file in memory.
/// Fails with an I/O error where buffer and shape do not go together or
/// the encoder fails.
pub fn encode_snapshot(pixels: &Vec<u8>, shape: [i32; 2]) -> (outcome: Result<
    Vec<u8>,
    MandelbrotError,
>)
    ensures
        match outcome {
            Ok(bytes) => snapshot_of(pixels@, shape) == Some(bytes@),
            Err(_) => snapshot_of(pixels@, shape) is None,
        },
{
    if check_shape(pixels, shape) {
        assert(3 * shape[0] * shape[1] == 3 * (shape[0] as u32) * (shape[1] as u32));
        snapshot_outcome(png_encode(pixels, shape[0] as u32, shape[1] as u32))
    } else {
        Err(MandelbrotError::from(invalid_input("pixel buffer does not match the shape")))
    }
}

/// Returns a decimal digit as text.
fn digit_text(d: usize) -> (text: &'static str)
    requires
        d < 10,
    ensures
        text@ == seq![digit_char(d as int)],
{
    proof {
        reveal_strlit("0");
        reveal_strlit("1");
        reveal_strlit("2");
        reveal_strlit("3");
        reveal_strlit("4");
        reveal_strlit("5");
        reveal_strlit("6");
        reveal_strlit("7");
        reveal_strlit("8");
        reveal_strlit("9");
    }
    let text = if d == 0 {
        "0"
    } else if d == 1 {
        "1"
    } else if d == 2 {
        "2"
    } else if d == 3 {
        "3"
    } else if d == 4 {
        "4"
    } else if d == 5 {
        "5"
    } else if d == 6 {
        "6"
    } else if d == 7 {
        "7"
    } else if d == 8 {
        "8"
    } else {
        "9"
    };
    assert(text@ =~= seq![digit_char(d as int)]);
    text
}

/// Appends the decimal digits of `n` to a text.
fn append_decimal(text: &mut String, n: usize)
    ensures
        final(text)@ == old(text)@ + decimal(n as nat),
    decreases n,
{
    if n >= 10 {
        append_decimal(text, n / 10);
    }
    text.append(digit_text(n % 10));
    proof {
        if n >= 10 {
            assert(final(text)@ =~= old(text)@ + decimal(n as nat));
        } else {
            assert(final(text)@ =~= old(text)@ + decimal(n as nat));
        }
    }
}

/// Counts the decimal digits of `n`.
fn decimal_len(n: usize) -> (len: usize)
    ensures
        len == decimal(n as nat).len(),
{
    let mut len: usize = 1;
    let mut rest: usize = n;
    while rest >= 10
        invariant
            1 <= len,
            len + rest <= n + 1,
            len + decimal(rest as nat).len() == 1 + decimal(n as nat).len(),
        decreases rest,
    {
        rest = rest / 10;
        len += 1;
    }
    len
}

/// Names frame `index` of a zoom sequence.
pub fn frame_name(prefix: &str, index: usize) -> (name: String)
    ensures
        name@ == frame_name_of(prefix@, index as nat),
{
    let mut name = String::from_str(prefix);
    let len = decimal_len(index);
    let mut padding: usize = len;
    while padding < FRAME_DIGITS
        invariant
            len <= padding,
            len == decimal(index as nat).len(),
            len < FRAME_DIGITS ==> padding <= FRAME_DIGITS,
            len >= FRAME_DIGITS ==> padding == len,
            name@ == prefix@ + Seq::new((padding - len) as nat, |i: int| '0'),
        decreases FRAME_DIGITS - padding,
    {
        proof {
            reveal_strlit("0");
        }
        name.append("0");
        padding += 1;
        assert(name@ =~= prefix@ + Seq::new((padding - len) as nat, |i: int| '0'));
    }
    let ghost zeros = Seq::new((padding - len) as nat, |i: int| '0');
    append_decimal(&mut name, index);
    proof {
        let digits = decimal(index as nat);
        assert(name@ == (prefix@ + zeros) + digits);
        if len >= FRAME_DIGITS {
            assert(zeros + digits =~= digits);
        }
        assert(zeros + digits == zero_padded(index as nat, FRAME_DIGITS as nat));
        assert((prefix@ + zeros) + digits =~= prefix@ + (zeros + digits));
    }
    name
}

/// Names the frames of a zoom sequence of `count` frames, in the order in
/// which they are written.
pub fn sequence_names(prefix: &str, count: usize) -> (names: Vec<String>)
    ensures
        names@.len() == count,
        forall|i: int| 0 <= i < count ==> (#[trigger] names@[i])@ == frame_name_of(prefix@, i as nat),
{
    let mut names: Vec<String> = Vec::new();
    let mut i: usize = 0;
    while i < count
        invariant
            i <= count,
            names@.len() == i,
            forall|j: int| 0 <= j < i ==> (#[trigger] names@[j])@ == frame_name_of(prefix@, j as nat),
        decreases count - i,
    {
        names.push(frame_name(prefix, i));
        i += 1;
    }
    names
}

/// Names the file of a snapshot: the base name with `.png` behind it.
pub fn snapshot_path(base: &str) -> (path: String)
    ensures
        path@ == snapshot_path_of(base@),
{
    let mut path = String::from_str(base);
    path.append(".png");
    path
}

} // verus!
