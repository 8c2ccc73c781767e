use vstd::prelude::*;

verus! {

/// One tone-mapped pixel, eight bits per channel.
#[derive(Clone, Copy, Debug, PartialEq, Eq, Structural)]
pub struct Rgb8 {
    pub r: u8,
    pub g: u8,
    pub b: u8,
}

impl Rgb8 {
    pub fn new(r: u8, g: u8, b: u8) -> (p: Rgb8)
        ensures
            p == (Rgb8 { r, g, b }),
    {
        Rgb8 { r, g, b }
    }

    /// The channel of this pixel at `k` (0 red, 1 green, 2 blue).
    pub open spec fn channel(self, k: int) -> u8 {
        if k == 0 {
            self.r
        } else if k == 1 {
            self.g
        } else {
            self.b
        }
    }
}

/// Number of bytes in a packed RGB buffer of `width` by `height` pixels.
pub open spec fn rgb_len(width: nat, height: nat) -> nat {
    3 * (width * height)
}

/// `bytes` holds `pixels` in order, three bytes (red, green, blue) per pixel.
pub open spec fn packs(bytes: Seq<u8>, pixels: Seq<Rgb8>) -> bool {
    &&& bytes.len() == 3 * pixels.len()
    &&& forall|i: int, k: int|
        0 <= i < pixels.len() && 0 <= k < 3 ==> #[trigger] bytes[3 * i + k] == pixels[i].channel(
            k,
        )
}

/// Byte length of an RGB buffer, or `None` where it does not fit in `usize`.
pub fn buffer_len(width: usize, height: usize) -> (r: Option<usize>)
    ensures
        r is Some <==> rgb_len(width as nat, height as nat) <= usize::MAX,
        r is Some ==> r->0 == rgb_len(width as nat, height as nat),
{
    match width.checked_mul(height) {
        Some(n) => n.checked_mul(3),
        None => {
            proof {
                assert(width * height <= 3 * (width * height)) by (nonlinear_arith);
            }
            None
        },
    }
}

/// Column and row of the pixel with row-major index `index`; row 0 is the top
/// scanline of the image.
pub fn pixel_position(index: usize, width: usize) -> (r: (usize, usize))
    requires
        width > 0,
    ensures
        r.0 < width,
        r.1 * width + r.0 == index,
{
    let col = index % width;
    let row = index / width;
    proof {
        vstd::arithmetic::div_mod::lemma_fundamental_div_mod(index as int, width as int);
        assert(row * width == width * row) by (nonlinear_arith);
    }
    (col, row)
}

/// Row-major index of the pixel at column `col` of row `row`, or `None` where
/// the position lies outside a `width` by `height` image.
pub fn pixel_index(col: usize, row: usize, width: usize, height: usize) -> (r: Option<usize>)
    requires
        width * height <= usize::MAX,
    ensures
        r is Some <==> col < width && row < height,
        r is Some ==> r->0 == row * width + col && r->0 < width * height,
{
    if col < width && row < height {
        proof {
            assert(row * width + col < width * height) by (nonlinear_arith)
                requires
                    col < width,
                    row < height,
            ;
        }
        Some(row * width + col)
    } else {
        None
    }
}

/// Packs the pixels of a `width` by `height` image, given in row-major order,
/// into a flat RGB byte buffer. The byte offset of each pixel follows from its
/// index alone, whatever order the pixels were computed in. `None` where the
/// number of pixels is not `width * height` or the buffer would not fit in
/// memory.
pub fn pack_rgb(width: usize, height: usize, pixels: &Vec<Rgb8>) -> (r: Option<Vec<u8>>)
    ensures
        r is Some <==> pixels@.len() == width * height && rgb_len(width as nat, height as nat)
            <= usize::MAX,
        r is Some ==> r->0@.len() == rgb_len(width as nat, height as nat) && packs(
            r->0@,
            pixels@,
        ),
{
    let total = match buffer_len(width, height) {
        Some(t) => t,
        None => {
            return None;
        },
    };
    if pixels.len() != width * height {
        return None;
    }
    let mut bytes: Vec<u8> = Vec::with_capacity(total);
    let mut i: usize = 0;
    while i < pixels.len()
        invariant
            i <= pixels@.len(),
            pixels@.len() == width * height,
            total == 3 * pixels@.len(),
            packs(bytes@, pixels@.take(i as int)),
        decreases pixels@.len() - i,
    {
        let p = pixels[i];
        let ghost before = bytes@;
        bytes.push(p.r);
        bytes.push(p.g);
        bytes.push(p.b);
        proof {
            let done = pixels@.take(i + 1);
            assert forall|j: int, k: int| 0 <= j < done.len() && 0 <= k < 3 implies #[trigger] bytes@[3
                * j + k] == done[j].channel(k) by {
                if j < i {
                    assert(pixels@.take(i as int)[j] == done[j]);
                    assert(before[3 * j + k] == pixels@.take(i as int)[j].channel(k));
                }
            }
        }
        i = i + 1;
    }
    assert(pixels@.take(i as int) =~= pixels@);
    Some(bytes)
}

/// A packed image always holds three bytes for each of its `width * height`
/// pixels, and nothing else.
pub proof fn lemma_buffer_shape(width: nat, height: nat, bytes: Seq<u8>, pixels: Seq<Rgb8>)
    requires
        pixels.len() == width * height,
        packs(bytes, pixels),
    ensures
        bytes.len() == rgb_len(width, height),
        bytes.len() == 3 * width * height,
{
    assert(3 * (width * height) == 3 * width * height) by (nonlinear_arith);
}

} // verus!
