use vstd::prelude::*;
use vstd::arithmetic::power2::{lemma_pow2_unfold, pow2};

verus! {

/// A tile map entry: tile number, palette, priority and flips.
#[derive(Clone, Copy)]
pub struct TileMapEntry(pub u16);

impl TileMapEntry {
    /// Bits 0-9.
    #[verifier::allow_in_spec]
    pub fn tile_index(&self) -> u16
        returns
            self.0 % 1024,
    {
        self.0 % 1024
    }

    /// Bits 10-12.
    #[verifier::allow_in_spec]
    pub fn palette_selection(&self) -> u8
        returns
            ((self.0 / 1024) % 8) as u8,
    {
        ((self.0 / 1024) % 8) as u8
    }

    /// Bit 13.
    #[verifier::allow_in_spec]
    pub fn priority(&self) -> bool
        returns
            (self.0 / 0x2000) % 2 == 1,
    {
        (self.0 / 0x2000) % 2 == 1
    }

    /// Bit 14.
    #[verifier::allow_in_spec]
    pub fn flip_horizontal(&self) -> bool
        returns
            (self.0 / 0x4000) % 2 == 1,
    {
        (self.0 / 0x4000) % 2 == 1
    }

    /// Bit 15.
    #[verifier::allow_in_spec]
    pub fn flip_vertical(&self) -> bool
        returns
            self.0 >= 0x8000,
    {
        self.0 >= 0x8000
    }

    /// The bit column (7 is the leftmost pixel) and the row inside the tile for a screen pixel.
    pub fn adjust_coords_to_flipping(&self, x: usize, y: usize) -> (r: (usize, usize))
        ensures
            r.0 == if self.flip_horizontal() { (x % 8) as int } else { 7 - x % 8 },
            r.1 == if self.flip_vertical() { 7 - y % 8 } else { (y % 8) as int },
            r.0 < 8 && r.1 < 8,
    {
        let h_shift = if self.flip_horizontal() { x % 8 } else { 7 - (x % 8) };
        let v_shift = if self.flip_vertical() { 7 - (y % 8) } else { y % 8 };
        (h_shift, v_shift)
    }
}

/// Bit `k` of a byte.
pub open spec fn bit_at(b: u8, k: int) -> int {
    (b as int / pow2(k as nat) as int) % 2
}

/// The color index of pixel column `px` made of the first `n` bit planes:
/// bit `i` of the index is bit `px` of plane `i`.
pub open spec fn pixel_spec(planes: Seq<u8>, n: int, px: int) -> int
    decreases n,
{
    if n <= 0 {
        0
    } else {
        pixel_spec(planes, n - 1, px) + bit_at(planes[n - 1], px) * pow2((n - 1) as nat)
    }
}

/// A pixel made of `n` bit planes is below 2^n.
pub proof fn lemma_pixel_bound(planes: Seq<u8>, n: int, px: int)
    requires
        0 <= n <= 8,
    ensures
        0 <= pixel_spec(planes, n, px) < pow2(n as nat),
    decreases n,
{
    if n > 0 {
        lemma_pixel_bound(planes, n - 1, px);
        lemma_pow2_unfold(n as nat);
        let b = bit_at(planes[n - 1], px);
        let p = pow2((n - 1) as nat) as int;
        vstd::arithmetic::mul::lemma_mul_basics(p);
        assert(0 <= b <= 1);
        assert(b == 0 || b == 1);
    } else {
        vstd::arithmetic::power2::lemma2_to64();
    }
}

/// A tile format: how many bit planes make a pixel.
pub trait BitPlane {
    spec fn planes_spec() -> int;

    fn planes() -> (r: usize)
        ensures
            r == Self::planes_spec(),
            r == 2 || r == 4 || r == 8,
    ;

    fn num_colors() -> (r: u8)
        ensures
            Self::planes_spec() == 2 ==> r == 4,
            Self::planes_spec() == 4 ==> r == 16,
            Self::planes_spec() == 8 ==> r == 255,
    ;

    fn words_per_row() -> (r: usize)
        ensures
            r * 2 == Self::planes_spec(),
            1 <= r <= 4,
    ;
}

/// 2 bits per pixel.
pub struct Bpp2 {}

/// 4 bits per pixel.
pub struct Bpp4 {}

/// 8 bits per pixel.
pub struct Bpp8 {}

impl BitPlane for Bpp2 {
    open spec fn planes_spec() -> int {
        2
    }

    fn planes() -> (r: usize) {
        2
    }

    fn num_colors() -> (r: u8) {
        4
    }

    fn words_per_row() -> (r: usize) {
        1
    }
}

impl BitPlane for Bpp4 {
    open spec fn planes_spec() -> int {
        4
    }

    fn planes() -> (r: usize) {
        4
    }

    fn num_colors() -> (r: u8) {
        16
    }

    fn words_per_row() -> (r: usize) {
        2
    }
}

impl BitPlane for Bpp8 {
    open spec fn planes_spec() -> int {
        8
    }

    fn planes() -> (r: usize) {
        8
    }

    fn num_colors() -> (r: u8) {
        255
    }

    fn words_per_row() -> (r: usize) {
        4
    }
}

/// The color index of pixel column `px_index` (7 is the leftmost pixel).
pub fn pixel(planes: &[u8], px_index: usize) -> (r: u8)
    requires
        planes@.len() <= 8,
        px_index < 8,
    ensures
        r == pixel_spec(planes@, planes@.len() as int, px_index as int),
{
    proof {
        vstd::arithmetic::power2::lemma2_to64();
    }
    let divisor: u32 = match px_index {
        0 => 1,
        1 => 2,
        2 => 4,
        3 => 8,
        4 => 16,
        5 => 32,
        6 => 64,
        _ => 128,
    };
    let mut pixel: u32 = 0;
    let mut weight: u32 = 1;
    let mut i: usize = 0;
    while i < planes.len()
        invariant
            i <= planes@.len() <= 8,
            divisor == pow2(px_index as nat),
            divisor >= 1,
            px_index < 8,
            weight == pow2(i as nat),
            pixel == pixel_spec(planes@, i as int, px_index as int),
            pixel < weight,
        decreases planes@.len() - i,
    {
        let byte = planes[i];
        let b = (byte as u32 / divisor) % 2;
        assert(b == bit_at(planes@[i as int], px_index as int));
        proof {
            lemma_pow2_unfold((i + 1) as nat);
            if i < 7 {
                vstd::arithmetic::power2::lemma_pow2_strictly_increases(i as nat, 7);
            }
            vstd::arithmetic::power2::lemma2_to64();
        }
        assert(pixel_spec(planes@, i + 1, px_index as int) == pixel_spec(planes@, i as int, px_index as int)
            + bit_at(planes@[i as int], px_index as int) * pow2(i as nat));
        if b == 1 {
            assert(bit_at(planes@[i as int], px_index as int) * pow2(i as nat) == pow2(i as nat));
            pixel = pixel + weight;
        } else {
            assert(bit_at(planes@[i as int], px_index as int) * pow2(i as nat) == 0);
        }
        weight = weight * 2;
        i = i + 1;
    }
    proof {
        if i < 8 {
            vstd::arithmetic::power2::lemma_pow2_strictly_increases(i as nat, 8);
        }
    }
    pixel as u8
}

} // verus!
