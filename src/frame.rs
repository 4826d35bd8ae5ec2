//! Copy of a mapped staging surface into a caller-facing frame.
//!
//! The surface holds `height` rows of `width` BGRA pixels, each row starting
//! `pitch` bytes after the previous one (`pitch` may exceed `4 * width`: the
//! padding is skipped). The frame handed back is tightly packed, row-major and
//! upright: the output's rotation is undone pixel by pixel.
use crate::pixel::BGRA8;
use vstd::arithmetic::div_mod::lemma_fundamental_div_mod_converse;
use vstd::prelude::*;

verus! {

/// Rotation code of an output whose rotation is not specified.
pub const ROTATION_UNSPECIFIED: i32 = 0;

/// Rotation code of an output shown as stored.
pub const ROTATION_IDENTITY: i32 = 1;

/// Rotation code of an output turned by 90 degrees.
pub const ROTATION_ROTATE90: i32 = 2;

/// Rotation code of an output turned by 180 degrees.
pub const ROTATION_ROTATE180: i32 = 3;

/// Rotation code of an output turned by 270 degrees.
pub const ROTATION_ROTATE270: i32 = 4;

/// How the compositor turns an output's pixels on their way to the display.
#[derive(Copy, Clone, Debug, PartialEq, Eq, Structural)]
pub enum Rotation {
    Identity,
    Rotate90,
    Rotate180,
    Rotate270,
}

/// The rotation that a platform rotation code stands for; an unspecified or
/// unknown code is read as the identity.
pub open spec fn rotation_of_code(code: i32) -> Rotation {
    if code == ROTATION_ROTATE90 {
        Rotation::Rotate90
    } else if code == ROTATION_ROTATE180 {
        Rotation::Rotate180
    } else if code == ROTATION_ROTATE270 {
        Rotation::Rotate270
    } else {
        Rotation::Identity
    }
}

impl Rotation {
    /// Reads a platform rotation code; unknown codes mean no rotation.
    pub fn from_code(code: i32) -> (r: Rotation)
        ensures
            r == rotation_of_code(code),
    {
        if code == ROTATION_ROTATE90 {
            Rotation::Rotate90
        } else if code == ROTATION_ROTATE180 {
            Rotation::Rotate180
        } else if code == ROTATION_ROTATE270 {
            Rotation::Rotate270
        } else {
            Rotation::Identity
        }
    }

    /// Whether the rotation exchanges width and height.
    pub open spec fn spec_is_quarter_turn(self) -> bool {
        self == Rotation::Rotate90 || self == Rotation::Rotate270
    }

    /// Whether the rotation exchanges width and height.
    pub fn is_quarter_turn(&self) -> (r: bool)
        ensures
            r == self.spec_is_quarter_turn(),
    {
        match self {
            Rotation::Rotate90 | Rotation::Rotate270 => true,
            _ => false,
        }
    }
}

/// Width and height of the upright frame taken from a `w` by `h` surface.
pub open spec fn rotated_size(w: int, h: int, rot: Rotation) -> (int, int) {
    if rot.spec_is_quarter_turn() {
        (h, w)
    } else {
        (w, h)
    }
}

/// Surface column of the pixel shown at (`row`, `col`) of the upright frame.
pub open spec fn source_column(rot: Rotation, w: int, h: int, row: int, col: int) -> int {
    match rot {
        Rotation::Identity => col,
        Rotation::Rotate90 => row,
        Rotation::Rotate180 => w - 1 - col,
        Rotation::Rotate270 => w - 1 - row,
    }
}

/// Surface row of the pixel shown at (`row`, `col`) of the upright frame.
pub open spec fn source_row(rot: Rotation, w: int, h: int, row: int, col: int) -> int {
    match rot {
        Rotation::Identity => row,
        Rotation::Rotate90 => h - 1 - col,
        Rotation::Rotate180 => h - 1 - row,
        Rotation::Rotate270 => col,
    }
}

/// The pixel stored at column `x` and row `y` of a surface with the given pitch.
pub open spec fn pixel_at(src: Seq<u8>, pitch: int, x: int, y: int) -> BGRA8 {
    BGRA8 {
        b: src[y * pitch + 4 * x],
        g: src[y * pitch + 4 * x + 1],
        r: src[y * pitch + 4 * x + 2],
        a: src[y * pitch + 4 * x + 3],
    }
}

/// Whether `len` bytes hold `h` rows of `w` pixels laid out `pitch` bytes apart.
pub open spec fn surface_fits(len: int, pitch: int, w: int, h: int) -> bool {
    &&& 4 * w <= pitch
    &&& pitch * h <= len
}

/// The upright, tightly packed, row-major frame shown for a `w` by `h` surface.
pub open spec fn upright_frame(src: Seq<u8>, pitch: int, w: int, h: int, rot: Rotation) -> Seq<
    BGRA8,
> {
    let fw = rotated_size(w, h, rot).0;
    let fh = rotated_size(w, h, rot).1;
    Seq::new(
        (fw * fh) as nat,
        |i: int|
            pixel_at(
                src,
                pitch,
                source_column(rot, w, h, i / fw, i % fw),
                source_row(rot, w, h, i / fw, i % fw),
            ),
    )
}

/// Channel `j` of a pixel, in memory order: blue, green, red, alpha.
pub open spec fn channel(p: BGRA8, j: int) -> u8 {
    if j == 0 {
        p.b
    } else if j == 1 {
        p.g
    } else if j == 2 {
        p.r
    } else {
        p.a
    }
}

/// The bytes of a sequence of pixels, four per pixel in memory order.
pub open spec fn component_bytes(frame: Seq<BGRA8>) -> Seq<u8> {
    Seq::new(4 * frame.len(), |k: int| channel(frame[k / 4], k % 4))
}

/// Width and height of a desktop rectangle; an empty extent counts as zero.
pub open spec fn desktop_extent(low: i32, high: i32) -> int {
    if high > low {
        high - low
    } else {
        0
    }
}

/// Width and height, in pixels, of the desktop rectangle of an output.
pub fn desktop_size(left: i32, top: i32, right: i32, bottom: i32) -> (r: (usize, usize))
    ensures
        r.0 == desktop_extent(left, right),
        r.1 == desktop_extent(top, bottom),
{
    let w: usize = if right > left {
        (right as i64 - left as i64) as usize
    } else {
        0
    };
    let h: usize = if bottom > top {
        (bottom as i64 - top as i64) as usize
    } else {
        0
    };
    (w, h)
}

/// Width and height of the frame that a `width` by `height` output shows
/// under `rotation`: exchanged for a quarter turn.
pub fn frame_dimensions(width: usize, height: usize, rotation: Rotation) -> (r: (usize, usize))
    ensures
        r.0 == rotated_size(width as int, height as int, rotation).0,
        r.1 == rotated_size(width as int, height as int, rotation).1,
{
    if rotation.is_quarter_turn() {
        (height, width)
    } else {
        (width, height)
    }
}

proof fn lemma_pixel_in_surface(pitch: int, w: int, h: int, x: int, y: int)
    requires
        0 <= x < w,
        0 <= y < h,
        4 * w <= pitch,
    ensures
        0 <= y * pitch,
        y * pitch + 4 * x + 4 <= pitch * h,
{
    assert(0 <= y * pitch) by (nonlinear_arith)
        requires
            0 <= y,
            0 <= pitch,
    ;
    assert(y * pitch + pitch <= pitch * h) by (nonlinear_arith)
        requires
            0 <= y < h,
            0 <= pitch,
    ;
}

proof fn lemma_frame_position(row: int, col: int, fw: int, fh: int)
    requires
        0 <= row < fh,
        0 <= col < fw,
    ensures
        row * fw + col < fw * fh,
        (row * fw + col) / fw == row,
        (row * fw + col) % fw == col,
{
    assert(row * fw + col < fw * fh) by (nonlinear_arith)
        requires
            0 <= row < fh,
            0 <= col < fw,
    ;
    lemma_fundamental_div_mod_converse(row * fw + col, fw, row, col);
}

/// Offset of the first byte of the surface pixel shown at (`row`, `col`).
fn source_offset(pitch: usize, width: usize, height: usize, rotation: Rotation, row: usize, col: usize) -> (o: usize)
    requires
        4 * width <= pitch,
        pitch * height <= usize::MAX,
        row < rotated_size(width as int, height as int, rotation).1,
        col < rotated_size(width as int, height as int, rotation).0,
    ensures
        o == source_row(rotation, width as int, height as int, row as int, col as int) * pitch
            + 4 * source_column(rotation, width as int, height as int, row as int, col as int),
        o + 4 <= pitch * height,
{
    let (x, y): (usize, usize) = match rotation {
        Rotation::Identity => (col, row),
        Rotation::Rotate90 => (row, height - 1 - col),
        Rotation::Rotate180 => (width - 1 - col, height - 1 - row),
        Rotation::Rotate270 => (width - 1 - row, col),
    };
    proof {
        lemma_pixel_in_surface(pitch as int, width as int, height as int, x as int, y as int);
    }
    y * pitch + 4 * x
}

/// Copies a mapped surface into an upright frame of packed pixels.
///
/// Returns the pixels and the frame's width and height.
pub fn copy_frame_pixels(src: &[u8], pitch: usize, width: usize, height: usize, rotation: Rotation) -> (r: (Vec<BGRA8>, (usize, usize)))
    requires
        surface_fits(src@.len() as int, pitch as int, width as int, height as int),
    ensures
        r.1.0 == rotated_size(width as int, height as int, rotation).0,
        r.1.1 == rotated_size(width as int, height as int, rotation).1,
        r.0@ == upright_frame(src@, pitch as int, width as int, height as int, rotation),
        r.0@.len() == r.1.0 * r.1.1,
{
    let ghost frame = upright_frame(src@, pitch as int, width as int, height as int, rotation);
    let src_len = src.len();
    let (fw, fh) = frame_dimensions(width, height, rotation);
    let mut out: Vec<BGRA8> = Vec::new();
    let mut row: usize = 0;
    while row < fh
        invariant
            surface_fits(src@.len() as int, pitch as int, width as int, height as int),
            src@.len() <= usize::MAX,
            fw == rotated_size(width as int, height as int, rotation).0,
            fh == rotated_size(width as int, height as int, rotation).1,
            frame == upright_frame(src@, pitch as int, width as int, height as int, rotation),
            row <= fh,
            out@ == frame.take(row * fw),
        decreases fh - row,
    {
        let mut col: usize = 0;
        while col < fw
            invariant
                surface_fits(src@.len() as int, pitch as int, width as int, height as int),
                src@.len() <= usize::MAX,
                fw == rotated_size(width as int, height as int, rotation).0,
                fh == rotated_size(width as int, height as int, rotation).1,
                frame == upright_frame(src@, pitch as int, width as int, height as int, rotation),
                row < fh,
                col <= fw,
                out@ == frame.take(row * fw + col),
            decreases fw - col,
        {
            let o = source_offset(pitch, width, height, rotation, row, col);
            let p = BGRA8 { b: src[o], g: src[o + 1], r: src[o + 2], a: src[o + 3] };
            proof {
                lemma_frame_position(row as int, col as int, fw as int, fh as int);
                assert(frame[row * fw + col] == p);
                assert(frame.take(row * fw + col + 1) =~= frame.take(row * fw + col).push(p));
            }
            out.push(p);
            col = col + 1;
        }
        proof {
            assert((row + 1) * fw == row * fw + fw) by (nonlinear_arith);
        }
        row = row + 1;
    }
    proof {
        assert(frame.len() == fw * fh);
        assert(frame.take(fh * fw) =~= frame) by {
            assert(fh * fw == fw * fh) by (nonlinear_arith);
        }
    }
    (out, (fw, fh))
}

proof fn lemma_component_bytes_step(frame: Seq<BGRA8>, k: int)
    requires
        0 <= k < frame.len(),
    ensures
        component_bytes(frame).take(4 * k + 4) =~= component_bytes(frame).take(4 * k) + seq![
            frame[k].b,
            frame[k].g,
            frame[k].r,
            frame[k].a,
        ],
{
    lemma_component_layout(frame, k);
}

/// The byte stream of a frame lays out each pixel as its four channels:
/// bytes `4i` to `4i + 3` are the blue, green, red and alpha of pixel `i`.
pub proof fn lemma_component_layout(frame: Seq<BGRA8>, i: int)
    requires
        0 <= i < frame.len(),
    ensures
        component_bytes(frame).len() == 4 * frame.len(),
        component_bytes(frame)[4 * i] == frame[i].b,
        component_bytes(frame)[4 * i + 1] == frame[i].g,
        component_bytes(frame)[4 * i + 2] == frame[i].r,
        component_bytes(frame)[4 * i + 3] == frame[i].a,
{
    lemma_fundamental_div_mod_converse(4 * i, 4, i, 0);
    lemma_fundamental_div_mod_converse(4 * i + 1, 4, i, 1);
    lemma_fundamental_div_mod_converse(4 * i + 2, 4, i, 2);
    lemma_fundamental_div_mod_converse(4 * i + 3, 4, i, 3);
}

/// Copies a mapped surface into an upright frame of bytes, four per pixel.
///
/// Returns the bytes and the frame's width and height.
pub fn copy_frame_components(src: &[u8], pitch: usize, width: usize, height: usize, rotation: Rotation) -> (r: (Vec<u8>, (usize, usize)))
    requires
        surface_fits(src@.len() as int, pitch as int, width as int, height as int),
    ensures
        r.1.0 == rotated_size(width as int, height as int, rotation).0,
        r.1.1 == rotated_size(width as int, height as int, rotation).1,
        r.0@ == component_bytes(
            upright_frame(src@, pitch as int, width as int, height as int, rotation),
        ),
        r.0@.len() == 4 * (r.1.0 * r.1.1),
{
    let ghost frame = upright_frame(src@, pitch as int, width as int, height as int, rotation);
    let ghost bytes = component_bytes(frame);
    let src_len = src.len();
    let (fw, fh) = frame_dimensions(width, height, rotation);
    let mut out: Vec<u8> = Vec::new();
    let mut row: usize = 0;
    while row < fh
        invariant
            surface_fits(src@.len() as int, pitch as int, width as int, height as int),
            src@.len() <= usize::MAX,
            fw == rotated_size(width as int, height as int, rotation).0,
            fh == rotated_size(width as int, height as int, rotation).1,
            frame == upright_frame(src@, pitch as int, width as int, height as int, rotation),
            bytes == component_bytes(frame),
            row <= fh,
            out@ == bytes.take(4 * (row * fw)),
        decreases fh - row,
    {
        let mut col: usize = 0;
        while col < fw
            invariant
                surface_fits(src@.len() as int, pitch as int, width as int, height as int),
                src@.len() <= usize::MAX,
                fw == rotated_size(width as int, height as int, rotation).0,
                fh == rotated_size(width as int, height as int, rotation).1,
                frame == upright_frame(src@, pitch as int, width as int, height as int, rotation),
                bytes == component_bytes(frame),
                row < fh,
                col <= fw,
                out@ == bytes.take(4 * (row * fw + col)),
            decreases fw - col,
        {
            let o = source_offset(pitch, width, height, rotation, row, col);
            proof {
                let k = row * fw + col;
                lemma_frame_position(row as int, col as int, fw as int, fh as int);
                lemma_component_bytes_step(frame, k);
                assert(frame[k] == pixel_at(
                    src@,
                    pitch as int,
                    source_column(rotation, width as int, height as int, row as int, col as int),
                    source_row(rotation, width as int, height as int, row as int, col as int),
                ));
            }
            out.push(src[o]);
            out.push(src[o + 1]);
            out.push(src[o + 2]);
            out.push(src[o + 3]);
            col = col + 1;
        }
        proof {
            assert((row + 1) * fw == row * fw + fw) by (nonlinear_arith);
        }
        row = row + 1;
    }
    proof {
        assert(fh * fw == fw * fh) by (nonlinear_arith);
        assert(bytes.take(4 * (fh * fw)) =~= bytes);
    }
    (out, (fw, fh))
}

proof fn lemma_packed_byte(k: int, w: int)
    requires
        0 < w,
        0 <= k,
    ensures
        (k / 4) / w * (4 * w) + 4 * ((k / 4) % w) + k % 4 == k,
{
    let i = k / 4;
    vstd::arithmetic::div_mod::lemma_fundamental_div_mod(k, 4);
    vstd::arithmetic::div_mod::lemma_fundamental_div_mod(i, w);
    assert(i / w * (4 * w) + 4 * (i % w) == 4 * (w * (i / w) + i % w)) by (nonlinear_arith);
}

/// Copies a mapped surface into a frame of bytes in the surface's own
/// orientation, whatever the output's rotation.
///
/// When rows carry no padding the surface is taken in one run; otherwise row by
/// row. Returns the bytes and the surface's width and height.
pub fn copy_frame_native(src: &[u8], pitch: usize, width: usize, height: usize) -> (r: (Vec<u8>, (usize, usize)))
    requires
        surface_fits(src@.len() as int, pitch as int, width as int, height as int),
    ensures
        r.1 == (width, height),
        r.0@ == component_bytes(
            upright_frame(src@, pitch as int, width as int, height as int, Rotation::Identity),
        ),
        r.0@.len() == 4 * (width * height),
{
    if width == 0 || pitch != 4 * width {
        return copy_frame_components(src, pitch, width, height, Rotation::Identity);
    }
    let ghost bytes = component_bytes(
        upright_frame(src@, pitch as int, width as int, height as int, Rotation::Identity),
    );
    let src_len = src.len();
    let total = pitch * height;
    proof {
        assert(total == 4 * (width * height)) by (nonlinear_arith)
            requires
                total == pitch * height,
                pitch == 4 * width,
        ;
        assert forall|k: int| 0 <= k < total implies #[trigger] bytes[k] == src@[k] by {
            lemma_packed_byte(k, width as int);
            let i = k / 4;
            assert(0 <= i < width * height);
            assert(i / (width as int) < height) by {
                let q = i / (width as int);
                vstd::arithmetic::div_mod::lemma_fundamental_div_mod(i, width as int);
                assert(q < height) by (nonlinear_arith)
                    requires
                        width * q <= i,
                        i < width * height,
                        0 < width,
                ;
            }
        }
    }
    let mut out: Vec<u8> = Vec::new();
    let mut k: usize = 0;
    while k < total
        invariant
            total == bytes.len(),
            total <= src@.len(),
            k <= total,
            forall|j: int| 0 <= j < total ==> #[trigger] bytes[j] == src@[j],
            out@ == bytes.take(k as int),
        decreases total - k,
    {
        proof {
            assert(bytes.take(k + 1) =~= bytes.take(k as int).push(src@[k as int]));
        }
        out.push(src[k]);
        k = k + 1;
    }
    proof {
        assert(bytes.take(total as int) =~= bytes);
    }
    (out, (width, height))
}

/// A frame holds one pixel per position of its width and height, and its
/// byte form four bytes per pixel.
pub proof fn lemma_frame_sizes(src: Seq<u8>, pitch: int, w: int, h: int, rot: Rotation)
    requires
        0 <= w,
        0 <= h,
    ensures
        ({
            let (fw, fh) = rotated_size(w, h, rot);
            &&& upright_frame(src, pitch, w, h, rot).len() == fw * fh
            &&& component_bytes(upright_frame(src, pitch, w, h, rot)).len() == 4 * (fw * fh)
        }),
{
    let (fw, fh) = rotated_size(w, h, rot);
    assert(0 <= fw * fh) by (nonlinear_arith)
        requires
            0 <= fw,
            0 <= fh,
    ;
}

/// The frame dimensions depend on the output alone: two captures of the same
/// output (same desktop size and rotation) have equal dimensions and sizes,
/// whatever pixels and pitch their surfaces have.
pub proof fn lemma_dimensions_follow_output(
    src1: Seq<u8>,
    pitch1: int,
    src2: Seq<u8>,
    pitch2: int,
    w: int,
    h: int,
    rot: Rotation,
)
    ensures
        upright_frame(src1, pitch1, w, h, rot).len() == upright_frame(src2, pitch2, w, h, rot).len(),
        component_bytes(upright_frame(src1, pitch1, w, h, rot)).len() == component_bytes(
            upright_frame(src2, pitch2, w, h, rot),
        ).len(),
{
}

/// The geometry of an output (its desktop rectangle's width and height) is
/// the size of the frames captured from it under no rotation or a half turn,
/// and that size exchanged under a quarter turn.
pub proof fn lemma_geometry_matches_frame(left: i32, top: i32, right: i32, bottom: i32, rot: Rotation)
    ensures
        ({
            let gw = desktop_extent(left, right);
            let gh = desktop_extent(top, bottom);
            let (fw, fh) = rotated_size(gw, gh, rot);
            &&& (rot == Rotation::Identity || rot == Rotation::Rotate180) ==> (gw, gh) == (fw, fh)
            &&& (rot == Rotation::Rotate90 || rot == Rotation::Rotate270) ==> (gw, gh) == (fh, fw)
        }),
{
}

} // verus!
