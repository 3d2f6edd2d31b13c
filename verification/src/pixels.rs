//! Reordering of pixel buffers before they are uploaded.
//!
//! Every function here moves pixels without looking into them, so the pixel
//! type is left open.

use rayon::iter::{IntoParallelRefIterator, ParallelIterator};
use rayon::slice::ParallelSlice;
use vstd::arithmetic::div_mod::{lemma_fundamental_div_mod, lemma_fundamental_div_mod_converse};
use vstd::prelude::*;

verus! {

/// Why a pixel buffer was refused.
#[derive(Clone, Copy, Debug, PartialEq, Eq, Structural)]
pub enum PixelError {
    /// The buffer does not hold exactly `width * height` pixels.
    SizeMismatch,
}

/// Index of the pixel that lands on index `i` when rows are mirrored.
pub open spec fn mirror_source(i: int, width: int) -> int {
    (i / width) * width + (width - 1 - i % width)
}

/// Index of the pixel that lands on index `i` when the rows are put in the
/// opposite order.
pub open spec fn flip_source(i: int, width: int, height: int) -> int {
    (height - 1 - i / width) * width + i % width
}

/// The image mirrored about its vertical centre axis: the pixel at column
/// `x` of a row moves to column `width - 1 - x` of the same row.
pub open spec fn mirrored<T>(pixels: Seq<T>, width: int) -> Seq<T> {
    Seq::new(pixels.len(), |i: int| pixels[mirror_source(i, width)])
}

/// The image upside down: row `y` moves to row `height - 1 - y`.
pub open spec fn flipped<T>(pixels: Seq<T>, width: int, height: int) -> Seq<T> {
    Seq::new(pixels.len(), |i: int| pixels[flip_source(i, width, height)])
}

/// A flat buffer cut into triples; up to two values left at the end are
/// dropped.
pub open spec fn grouped<T>(buffer: Seq<T>) -> Seq<(T, T, T)> {
    Seq::new(buffer.len() / 3, |i: int| (buffer[3 * i], buffer[3 * i + 1], buffer[3 * i + 2]))
}

/// Triples laid out one after the other in a flat buffer.
pub open spec fn flattened<T>(pixels: Seq<[T; 3]>) -> Seq<T> {
    Seq::new(3 * pixels.len(), |i: int| pixels[i / 3]@[i % 3])
}

/// Four-channel pixels laid out one after the other in a flat buffer.
pub open spec fn flattened_rgba(pixels: Seq<(u8, u8, u8, u8)>) -> Seq<u8> {
    Seq::new(
        4 * pixels.len(),
        |i: int|
            if i % 4 == 0 {
                pixels[i / 4].0
            } else if i % 4 == 1 {
                pixels[i / 4].1
            } else if i % 4 == 2 {
                pixels[i / 4].2
            } else {
                pixels[i / 4].3
            },
    )
}

/// In an image of whole rows, the source of every pixel lies in the same row
/// of the image, at the mirrored column.
pub proof fn lemma_mirror_source_in_row(i: int, width: int, height: int)
    requires
        0 <= i < width * height,
        0 < width,
        0 <= height,
    ensures
        0 <= mirror_source(i, width) < width * height,
        mirror_source(i, width) / width == i / width,
        mirror_source(i, width) % width == width - 1 - i % width,
        0 <= i / width < height,
{
    let r = i / width;
    let c = i % width;
    lemma_fundamental_div_mod(i, width);
    assert(i == width * r + c);
    assert(r >= 0 && r < height) by (nonlinear_arith)
        requires
            i == width * r + c,
            0 <= c < width,
            0 <= i < width * height,
            0 < width,
    ;
    assert(r * width + width <= width * height) by (nonlinear_arith)
        requires
            0 <= r < height,
            0 < width,
    ;
    assert(r * width >= 0) by (nonlinear_arith)
        requires
            0 <= r,
            0 < width,
    ;
    assert(r * width == width * r) by (nonlinear_arith);
    lemma_fundamental_div_mod_converse(width * r + (width - 1 - c), width, r, width - 1 - c);
}

/// In an image of whole rows, the source of every pixel under a vertical
/// flip lies in the image, at the same column of the opposite row.
pub proof fn lemma_flip_source_in_column(i: int, width: int, height: int)
    requires
        0 <= i < width * height,
        0 < width,
        0 <= height,
    ensures
        0 <= flip_source(i, width, height) < width * height,
        flip_source(i, width, height) / width == height - 1 - i / width,
        flip_source(i, width, height) % width == i % width,
        0 <= i / width < height,
{
    let r = i / width;
    let c = i % width;
    lemma_fundamental_div_mod(i, width);
    assert(r >= 0 && r < height) by (nonlinear_arith)
        requires
            i == width * r + c,
            0 <= c < width,
            0 <= i < width * height,
            0 < width,
    ;
    let q = height - 1 - r;
    assert(q * width + width <= width * height && q * width >= 0 && q * width == width * q)
        by (nonlinear_arith)
        requires
            0 <= q < height,
            0 < width,
    ;
    lemma_fundamental_div_mod_converse(width * q + c, width, q, c);
}

/// Mirrors the image about its vertical centre axis, in place. A buffer that
/// does not hold `width * height` pixels is refused and left as it was.
pub fn mirror_horizontal<T: Copy>(pixels: &mut Vec<T>, width: u32, height: u32) -> (r: Result<
    (),
    PixelError,
>)
    ensures
        match r {
            Ok(_) => old(pixels)@.len() == width * height && final(pixels)@ == mirrored(
                old(pixels)@,
                width as int,
            ),
            Err(_) => old(pixels)@.len() != width * height && final(pixels)@ == old(pixels)@,
        },
{
    let n = pixels.len();
    assert(width * height <= 0xFFFF_FFFF * 0xFFFF_FFFF) by (nonlinear_arith)
        requires
            0 <= width <= 0xFFFF_FFFF,
            0 <= height <= 0xFFFF_FFFF,
    ;
    if (n as u128) != (width as u128) * (height as u128) {
        return Err(PixelError::SizeMismatch);
    }
    if n == 0 {
        assert(pixels@ =~= mirrored(pixels@, width as int));
        return Ok(());
    }
    assert(width > 0) by (nonlinear_arith)
        requires
            n == width * height,
            n > 0,
    ;
    let w = width as usize;
    let mut out: Vec<T> = Vec::with_capacity(n);
    let mut i: usize = 0;
    while i < n
        invariant
            i <= n,
            n == pixels@.len(),
            n == width * height,
            w == width,
            w > 0,
            out@.len() == i,
            forall|j: int| 0 <= j < i ==> out@[j] == pixels@[mirror_source(j, width as int)],
        decreases n - i,
    {
        proof {
            lemma_mirror_source_in_row(i as int, width as int, height as int);
            lemma_fundamental_div_mod(i as int, width as int);
            assert((i / w) * w == w * (i / w)) by (nonlinear_arith);
        }
        let row_start: usize = (i / w) * w;
        let source: usize = row_start + (w - 1 - i % w);
        out.push(pixels[source]);
        i += 1;
    }
    assert(out@ =~= mirrored(pixels@, width as int));
    *pixels = out;
    Ok(())
}

/// Turns the image upside down, in place. A buffer that does not hold
/// `width * height` pixels is refused and left as it was.
pub fn flip_vertical<T: Copy>(pixels: &mut Vec<T>, width: u32, height: u32) -> (r: Result<
    (),
    PixelError,
>)
    ensures
        match r {
            Ok(_) => old(pixels)@.len() == width * height && final(pixels)@ == flipped(
                old(pixels)@,
                width as int,
                height as int,
            ),
            Err(_) => old(pixels)@.len() != width * height && final(pixels)@ == old(pixels)@,
        },
{
    let n = pixels.len();
    assert(width * height <= 0xFFFF_FFFF * 0xFFFF_FFFF) by (nonlinear_arith)
        requires
            0 <= width <= 0xFFFF_FFFF,
            0 <= height <= 0xFFFF_FFFF,
    ;
    if (n as u128) != (width as u128) * (height as u128) {
        return Err(PixelError::SizeMismatch);
    }
    if n == 0 {
        assert(pixels@ =~= flipped(pixels@, width as int, height as int));
        return Ok(());
    }
    assert(width > 0) by (nonlinear_arith)
        requires
            n == width * height,
            n > 0,
    ;
    let w = width as usize;
    let h = height as usize;
    let mut out: Vec<T> = Vec::with_capacity(n);
    let mut i: usize = 0;
    while i < n
        invariant
            i <= n,
            n == pixels@.len(),
            n == width * height,
            w == width,
            h == height,
            w > 0,
            out@.len() == i,
            forall|j: int|
                0 <= j < i ==> out@[j] == pixels@[flip_source(j, width as int, height as int)],
        decreases n - i,
    {
        proof {
            lemma_flip_source_in_column(i as int, width as int, height as int);
            let q = height - 1 - (i / w);
            assert(q * w + w <= w * h && q * w >= 0) by (nonlinear_arith)
                requires
                    0 <= q < h,
                    0 < w,
            ;
        }
        let row_start: usize = (h - 1 - i / w) * w;
        let source: usize = row_start + i % w;
        out.push(pixels[source]);
        i += 1;
    }
    assert(out@ =~= flipped(pixels@, width as int, height as int));
    *pixels = out;
    Ok(())
}

/// Cuts a flat buffer into triples in parallel.
///
/// Trusted: rayon's `par_chunks_exact(3)` hands out the non-overlapping
/// chunks of three in order and omits what is left over, and `collect` keeps
/// the order of an indexed parallel iterator.
#[verifier::external_body]
fn par_group_rgb<T: Copy + Send + Sync>(buffer: &[T]) -> (out: Vec<(T, T, T)>)
    ensures
        out@ == grouped(buffer@),
{
    buffer.par_chunks_exact(3).map(|chunk| (chunk[0], chunk[1], chunk[2])).collect()
}

/// Lays triples out in a flat buffer in parallel.
///
/// Trusted: rayon's `flatten` followed by `collect` into a `Vec` gives the
/// items of each triple in order, the triples in their order.
#[verifier::external_body]
fn par_flatten_rgb<T: Copy + Send + Sync>(pixels: &Vec<[T; 3]>) -> (out: Vec<T>)
    requires
        3 * pixels@.len() <= usize::MAX,
    ensures
        out@ == flattened(pixels@),
{
    pixels.par_iter().copied().flatten().collect()
}

/// Groups a flat buffer of channel values into three-channel pixels.
pub fn group_rgb<T: Copy + Send + Sync>(buffer: &[T]) -> (out: Vec<(T, T, T)>)
    ensures
        out@ == grouped(buffer@),
        out@.len() == buffer@.len() / 3,
{
    par_group_rgb(buffer)
}

/// Lays three-channel pixels out as a flat buffer of channel values.
pub fn flatten_rgb<T: Copy + Send + Sync>(pixels: &Vec<[T; 3]>) -> (out: Vec<T>)
    requires
        3 * pixels@.len() <= usize::MAX,
    ensures
        out@ == flattened(pixels@),
        out@.len() == 3 * pixels@.len(),
{
    par_flatten_rgb(pixels)
}

/// Lays three-channel pixels out as a flat buffer of channel values, one
/// pixel after the other.
pub fn flatten_pixels<T: Copy>(pixels: &Vec<[T; 3]>) -> (out: Vec<T>)
    ensures
        out@ == flattened(pixels@),
        out@.len() == 3 * pixels@.len(),
{
    let mut out: Vec<T> = Vec::new();
    let mut i: usize = 0;
    while i < pixels.len()
        invariant
            i <= pixels@.len(),
            out@.len() == 3 * i,
            forall|j: int| 0 <= j < 3 * i ==> out@[j] == flattened(pixels@)[j],
        decreases pixels@.len() - i,
    {
        let pixel = pixels[i];
        out.push(pixel[0]);
        out.push(pixel[1]);
        out.push(pixel[2]);
        i += 1;
    }
    assert(out@ =~= flattened(pixels@));
    out
}

/// Lays four-channel pixels read back from a render target out as bytes.
pub fn flatten_rgba(pixels: &Vec<(u8, u8, u8, u8)>) -> (out: Vec<u8>)
    requires
        4 * pixels@.len() <= usize::MAX,
    ensures
        out@ == flattened_rgba(pixels@),
        out@.len() == 4 * pixels@.len(),
{
    let mut out: Vec<u8> = Vec::new();
    let mut i: usize = 0;
    while i < pixels.len()
        invariant
            i <= pixels@.len(),
            4 * pixels@.len() <= usize::MAX,
            out@.len() == 4 * i,
            forall|j: int| 0 <= j < 4 * i ==> out@[j] == flattened_rgba(pixels@)[j],
        decreases pixels@.len() - i,
    {
        let pixel = pixels[i];
        out.push(pixel.0);
        out.push(pixel.1);
        out.push(pixel.2);
        out.push(pixel.3);
        i += 1;
    }
    assert(out@ =~= flattened_rgba(pixels@));
    out
}

/// Mirroring moves the pixel at column `column` of a row to column
/// `width - 1 - column` of that row and to no other place.
pub proof fn lemma_mirror_moves_column<T>(
    pixels: Seq<T>,
    width: int,
    height: int,
    row: int,
    column: int,
)
    requires
        pixels.len() == width * height,
        0 <= row < height,
        0 <= column < width,
    ensures
        0 <= row * width + (width - 1 - column) < pixels.len(),
        0 <= row * width + column < pixels.len(),
        mirrored(pixels, width)[row * width + (width - 1 - column)] == pixels[row * width
            + column],
{
    assert(row * width + width <= width * height && row * width >= 0 && row * width == width
        * row) by (nonlinear_arith)
        requires
            0 <= row < height,
            0 < width,
    ;
    lemma_fundamental_div_mod_converse(
        width * row + (width - 1 - column),
        width,
        row,
        width - 1 - column,
    );
}

/// Mirroring twice gives the image back, so it matters that it is done
/// exactly once.
pub proof fn lemma_mirror_twice_is_identity<T>(pixels: Seq<T>, width: int, height: int)
    requires
        pixels.len() == width * height,
        0 < width,
        0 <= height,
    ensures
        mirrored(mirrored(pixels, width), width) == pixels,
{
    let once = mirrored(pixels, width);
    let twice = mirrored(once, width);
    assert forall|i: int| 0 <= i < pixels.len() implies twice[i] == pixels[i] by {
        lemma_mirror_source_in_row(i, width, height);
        let s = mirror_source(i, width);
        lemma_mirror_source_in_row(s, width, height);
        lemma_fundamental_div_mod(i, width);
        assert((i / width) * width == width * (i / width)) by (nonlinear_arith);
        assert(mirror_source(s, width) == i);
    }
    assert(twice =~= pixels);
}

/// Flipping twice gives the image back.
pub proof fn lemma_flip_twice_is_identity<T>(pixels: Seq<T>, width: int, height: int)
    requires
        pixels.len() == width * height,
        0 < width,
        0 <= height,
    ensures
        flipped(flipped(pixels, width, height), width, height) == pixels,
{
    let once = flipped(pixels, width, height);
    let twice = flipped(once, width, height);
    assert forall|i: int| 0 <= i < pixels.len() implies twice[i] == pixels[i] by {
        lemma_flip_source_in_column(i, width, height);
        let s = flip_source(i, width, height);
        lemma_flip_source_in_column(s, width, height);
        lemma_fundamental_div_mod(i, width);
        assert((i / width) * width == width * (i / width)) by (nonlinear_arith);
        assert(flip_source(s, width, height) == i);
    }
    assert(twice =~= pixels);
}

/// Grouping undoes flattening.
pub proof fn lemma_group_of_flat<T>(pixels: Seq<[T; 3]>)
    ensures
        grouped(flattened(pixels)).len() == pixels.len(),
        forall|i: int|
            0 <= i < pixels.len() ==> #[trigger] grouped(flattened(pixels))[i] == (
                pixels[i]@[0],
                pixels[i]@[1],
                pixels[i]@[2],
            ),
{
}

} // verus!
