use vstd::prelude::*;
use vstd::string::StringExecFns;
use base64::Engine as _;
use crate::text::{concat2, dec_str, u64_to_string};

verus! {

/// The PNG encoding of an RGBA pixel buffer; it depends on the dimensions
/// and bytes alone.
pub uninterp spec fn png_of(width: u32, height: u32, rgba: Seq<u8>) -> Seq<u8>;

/// Relies on the image crate: builds an RGBA image from the raw buffer and
/// encodes it as PNG in memory.
#[verifier::external_body]
fn encode_png_rgba(width: u32, height: u32, rgba: &Vec<u8>) -> (r: Option<Vec<u8>>)
    requires
        rgba@.len() == 4 * (width as int) * (height as int),
    ensures
        r is Some ==> r.unwrap()@ == png_of(width, height, rgba@),
{
    let img = image::RgbaImage::from_raw(width, height, rgba.clone())?;
    let mut cursor = std::io::Cursor::new(Vec::new());
    img.write_to(&mut cursor, image::ImageFormat::Png).ok()?;
    Some(cursor.into_inner())
}

/// The standard (padded) base64 alphabet encoding of a byte sequence.
pub uninterp spec fn base64_standard_of(bytes: Seq<u8>) -> Seq<char>;

/// Relies on base64's `STANDARD` engine: the padded standard-alphabet
/// encoding; an empty input encodes to the empty string.
#[verifier::external_body]
fn base64_encode(bytes: &Vec<u8>) -> (r: String)
    ensures
        r@ == base64_standard_of(bytes@),
        bytes@.len() == 0 ==> r@.len() == 0,
{
    base64::engine::general_purpose::STANDARD.encode(bytes)
}

/// The data URL that an RGBA pixel buffer renders to: its PNG encoding in
/// base64 behind the PNG data-URL prefix. `None` when the image crate
/// refuses the buffer.
pub fn image_to_base64(width: u32, height: u32, rgba: &Vec<u8>) -> (r: Option<String>)
    requires
        rgba@.len() == 4 * (width as int) * (height as int),
    ensures
        r is Some ==> r.unwrap()@ == "data:image/png;base64,"@ + base64_standard_of(
            png_of(width, height, rgba@),
        ),
{
    match encode_png_rgba(width, height, rgba) {
        Some(png) => {
            let b64 = base64_encode(&png);
            Some(concat2("data:image/png;base64,", b64.as_str()))
        },
        None => None,
    }
}

/// The sampling percentages of the thumbnail hash grid.
pub open spec fn grid_pct(k: int) -> int {
    if k == 0 {
        0
    } else if k == 1 {
        25
    } else if k == 2 {
        50
    } else if k == 3 {
        75
    } else {
        99
    }
}

/// The decimal rendering of the RGBA bytes sampled at one grid point, or
/// nothing when the point lies outside the buffer.
pub open spec fn sample_at(width: u32, height: u32, bytes: Seq<u8>, xp: int, yp: int) -> Seq<
    char,
> {
    let x = (width * xp) / 100;
    let y = (height * yp) / 100;
    let stride = width * 4;
    let idx = y * stride + x * 4;
    if idx + 3 < bytes.len() {
        dec_str(bytes[idx] as nat) + dec_str(bytes[idx + 1] as nat) + dec_str(
            bytes[idx + 2] as nat,
        ) + dec_str(bytes[idx + 3] as nat)
    } else {
        Seq::empty()
    }
}

/// The concatenated samples of the 5-by-5 grid, from flat index `i` on; the
/// grid walks the horizontal percentages in the outer position.
pub open spec fn samples_from(width: u32, height: u32, bytes: Seq<u8>, i: int) -> Seq<char>
    decreases 25 - i,
{
    if i < 0 || i >= 25 {
        Seq::empty()
    } else {
        sample_at(width, height, bytes, grid_pct(i / 5), grid_pct(i % 5)) + samples_from(
            width,
            height,
            bytes,
            i + 1,
        )
    }
}

/// The thumbnail hash of an image: its dimensions joined by `x` for a tiny
/// image, else the concatenated grid samples.
pub open spec fn image_hash_spec(width: u32, height: u32, bytes: Seq<u8>) -> Seq<char> {
    if width < 10 || height < 10 {
        dec_str(width as nat) + "x"@ + dec_str(height as nat)
    } else {
        samples_from(width, height, bytes, 0)
    }
}

fn pct_of(k: usize) -> (r: u32)
    requires
        k < 5,
    ensures
        r == grid_pct(k as int),
{
    if k == 0 {
        0
    } else if k == 1 {
        25
    } else if k == 2 {
        50
    } else if k == 3 {
        75
    } else {
        99
    }
}

fn sample_exec(width: u32, height: u32, bytes: &Vec<u8>, xp: u32, yp: u32) -> (r: String)
    requires
        xp < 100,
        yp < 100,
    ensures
        r@ == sample_at(width, height, bytes@, xp as int, yp as int),
{
    proof {
        assert((width as int) * (xp as int) <= 4294967295int * 99) by (nonlinear_arith)
            requires
                width as int <= 4294967295int,
                xp as int <= 99int,
        ;
        assert((height as int) * (yp as int) <= 4294967295int * 99) by (nonlinear_arith)
            requires
                height as int <= 4294967295int,
                yp as int <= 99int,
        ;
    }
    let x: u128 = (width as u128) * (xp as u128) / 100;
    let y: u128 = (height as u128) * (yp as u128) / 100;
    let stride: u128 = (width as u128) * 4;
    proof {
        assert((y as int) * (stride as int) <= 4294967295int * 99 * 4294967295int * 4)
            by (nonlinear_arith)
            requires
                0 <= y as int <= 4294967295int * 99,
                0 <= stride as int <= 4294967295int * 4,
        ;
    }
    let idx: u128 = y * stride + x * 4;
    if idx + 3 < bytes.len() as u128 {
        let i = idx as usize;
        let part1 = u64_to_string(bytes[i] as u64);
        let part2 = u64_to_string(bytes[i + 1] as u64);
        let part3 = u64_to_string(bytes[i + 2] as u64);
        let part4 = u64_to_string(bytes[i + 3] as u64);
        let mut out = part1;
        out.append(part2.as_str());
        out.append(part3.as_str());
        out.append(part4.as_str());
        out
    } else {
        String::new()
    }
}

/// The thumbnail hash used to tell clipboard images apart: for an image of
/// at least 10 pixels in each dimension, the decimal RGBA values sampled on
/// a fixed 5-by-5 grid, concatenated; for a smaller image, its dimensions
/// joined by `x`.
pub fn calculate_image_hash(width: u32, height: u32, bytes: &Vec<u8>) -> (r: String)
    ensures
        r@ == image_hash_spec(width, height, bytes@),
{
    if width < 10 || height < 10 {
        let w = u64_to_string(width as u64);
        let h = u64_to_string(height as u64);
        let mut out = w;
        out.append("x");
        out.append(h.as_str());
        return out;
    }
    let mut out = String::new();
    let mut i: usize = 0;
    while i < 25
        invariant
            0 <= i <= 25,
            width >= 10,
            height >= 10,
            out@ + samples_from(width, height, bytes@, i as int) =~= samples_from(
                width,
                height,
                bytes@,
                0,
            ),
        decreases 25 - i,
    {
        let xp = pct_of(i / 5);
        let yp = pct_of(i % 5);
        let sample = sample_exec(width, height, bytes, xp, yp);
        proof {
            assert((out@ + sample@) + samples_from(width, height, bytes@, i + 1) =~= out@ + (
            sample@ + samples_from(width, height, bytes@, i + 1)));
        }
        out.append(sample.as_str());
        i = i + 1;
    }
    proof {
        assert(samples_from(width, height, bytes@, 25) =~= Seq::<char>::empty());
        assert(out@ + Seq::<char>::empty() =~= out@);
    }
    out
}

} // verus!
