//! The plain data of the renderer: vectors, the player, the frame settings
//! and the textures.

use crate::fixed::{lemma_product_bound, sqrt_floor, Fixed, ONE};
use vstd::arithmetic::power2::is_pow2;
use vstd::prelude::*;

verus! {

/// A pair of coordinates.
#[derive(Clone, Copy, Debug, PartialEq, Eq, Structural)]
pub struct Vec2<T> {
    pub x: T,
    pub y: T,
}

impl<T> Vec2<T> {
    pub fn new(x: T, y: T) -> (v: Self)
        ensures
            v.x == x,
            v.y == y,
    {
        Vec2 { x, y }
    }

    /// Replaces both coordinates.
    pub fn set(&mut self, x: T, y: T)
        ensures
            final(self).x == x,
            final(self).y == y,
    {
        self.x = x;
        self.y = y;
    }
}

/// `v` turned counterclockwise by the angle whose cosine and sine are `cos`
/// and `sin`.  Each product is rounded down and each operation saturates.
pub open spec fn rotated(v: Vec2<Fixed>, cos: Fixed, sin: Fixed) -> Vec2<Fixed> {
    Vec2 {
        x: v.x.times(cos).minus(v.y.times(sin)),
        y: v.x.times(sin).plus(v.y.times(cos)),
    }
}

/// Turning by the angle zero, whose cosine is one and whose sine is zero,
/// leaves every vector as it is.
pub proof fn lemma_rotate_by_zero(v: Vec2<Fixed>)
    ensures
        rotated(v, Fixed { raw: ONE }, Fixed { raw: 0 }) == v,
{
    assert((v.x@ * ONE) / (ONE as int) == v.x@) by (nonlinear_arith);
    assert((v.y@ * ONE) / (ONE as int) == v.y@) by (nonlinear_arith);
    assert((v.x@ * 0) / (ONE as int) == 0) by (nonlinear_arith);
    assert((v.y@ * 0) / (ONE as int) == 0) by (nonlinear_arith);
}

/// `v` with both coordinates multiplied by `k`.
pub open spec fn scaled(v: Vec2<Fixed>, k: Fixed) -> Vec2<Fixed> {
    Vec2 { x: v.x.times(k), y: v.y.times(k) }
}

/// The sum of two vectors, coordinate by coordinate.
pub open spec fn added(v: Vec2<Fixed>, w: Vec2<Fixed>) -> Vec2<Fixed> {
    Vec2 { x: v.x.plus(w.x), y: v.y.plus(w.y) }
}

/// The raw length of `v`: the square root of the sum of the squares of its
/// raw coordinates, rounded down, or the largest number where that is out
/// of range.
pub open spec fn is_length(v: Vec2<Fixed>, len: int) -> bool {
    let squares = v.x@ * v.x@ + v.y@ * v.y@;
    &&& 0 <= len <= i64::MAX
    &&& len * len <= squares
    &&& len == i64::MAX || squares < (len + 1) * (len + 1)
}

impl Vec2<Fixed> {
    /// The length of the vector, rounded down.
    pub fn length(self) -> (len: Fixed)
        ensures
            is_length(self, len@),
    {
        proof {
            lemma_product_bound(self.x@, self.x@);
            lemma_product_bound(self.y@, self.y@);
        }
        let x = self.x.raw as i128;
        let y = self.y.raw as i128;
        assert(x * x >= 0 && y * y >= 0) by (nonlinear_arith);
        let squares = (x * x) as u128 + (y * y) as u128;
        let root = sqrt_floor(squares);
        if root > i64::MAX as u64 {
            assert(0x7fff_ffff_ffff_ffff * 0x7fff_ffff_ffff_ffff <= root * root) by (nonlinear_arith)
                requires
                    root >= 0x7fff_ffff_ffff_ffff,
            ;
            Fixed { raw: i64::MAX }
        } else {
            Fixed { raw: root as i64 }
        }
    }

    /// Turns the vector by an angle given by its cosine and sine.  A
    /// positive angle (positive sine) turns to the left.  The same pair
    /// must be used for a heading and its camera plane so that the two
    /// turn together.
    pub fn rotate(&mut self, cos: Fixed, sin: Fixed)
        ensures
            *final(self) == rotated(*old(self), cos, sin),
    {
        let old_x = self.x;
        self.x = self.x * cos - self.y * sin;
        self.y = old_x * sin + self.y * cos;
    }

    /// Multiplies both coordinates by `rhs`, in place.
    pub fn mul_assign(&mut self, rhs: Fixed)
        ensures
            *final(self) == scaled(*old(self), rhs),
    {
        self.x = self.x * rhs;
        self.y = self.y * rhs;
    }

    /// The sum of `self` and `other`.
    pub fn added(self, other: Vec2<Fixed>) -> (r: Vec2<Fixed>)
        ensures
            r == added(self, other),
    {
        Vec2 { x: self.x + other.x, y: self.y + other.y }
    }
}

impl core::ops::Mul<Fixed> for Vec2<Fixed> {
    type Output = Vec2<Fixed>;

    fn mul(self, rhs: Fixed) -> (r: Vec2<Fixed>) {
        Vec2 { x: self.x * rhs, y: self.y * rhs }
    }
}

impl vstd::std_specs::ops::MulSpecImpl<Fixed> for Vec2<Fixed> {
    open spec fn obeys_mul_spec() -> bool {
        true
    }

    open spec fn mul_req(self, rhs: Fixed) -> bool {
        true
    }

    open spec fn mul_spec(self, rhs: Fixed) -> Vec2<Fixed> {
        scaled(self, rhs)
    }
}

/// Where the player stands and looks.
///
/// `dir` is the heading, of length one by convention.  `cam` is the camera
/// plane: it stands at a right angle to the heading and its length sets the
/// field of view.  `ver` is the vertical look offset in pixels.
#[derive(Clone, Copy, Debug, PartialEq, Eq, Structural)]
pub struct PlayerData {
    pub pos: Vec2<Fixed>,
    pub dir: Vec2<Fixed>,
    pub cam: Vec2<Fixed>,
    pub ver: i32,
}

impl PlayerData {
    pub fn new(pos: Vec2<Fixed>, dir: Vec2<Fixed>, cam: Vec2<Fixed>) -> (p: PlayerData)
        ensures
            p == (PlayerData { pos, dir, cam, ver: 0 }),
    {
        PlayerData { pos, dir, cam, ver: 0 }
    }
}

/// Says whether the frame loop has to end.
#[derive(Clone, Copy, Debug, PartialEq, Eq, Structural)]
pub struct EndGame(pub bool);

/// An image held in memory: rows of `width` pixels, top row first, four
/// bytes (red, green, blue, alpha) to a pixel.
#[derive(Clone, Debug)]
pub struct LoadedTexture {
    pub width: u32,
    pub height: u32,
    pub pixels: Vec<u8>,
}

impl LoadedTexture {
    /// Where the pixel in column `x` of row `y` starts in `pixels`.
    pub open spec fn offset(self, x: int, y: int) -> int {
        (x + y * self.width) * 4
    }

    /// Whether `(x, y)` names a pixel whose four bytes are all there.
    pub open spec fn has_pixel(self, x: int, y: int) -> bool {
        &&& 0 <= x < self.width
        &&& 0 <= y < self.height
        &&& self.offset(x, y) + 3 < self.pixels@.len()
    }

    /// The four bytes of the pixel at `(x, y)`.
    pub open spec fn pixel_at(self, x: int, y: int) -> (u8, u8, u8, u8) {
        let o = self.offset(x, y);
        (self.pixels@[o], self.pixels@[o + 1], self.pixels@[o + 2], self.pixels@[o + 3])
    }

    /// What a texture must satisfy to be sampled with wrap-around: both
    /// sides are powers of two and no byte is missing or left over.
    pub open spec fn well_formed(self) -> bool {
        &&& is_pow2(self.width as int)
        &&& is_pow2(self.height as int)
        &&& self.pixels@.len() == 4 * (self.width * self.height)
    }

    pub fn new(width: u32, height: u32, pixels: Vec<u8>) -> (t: Self)
        ensures
            t.width == width,
            t.height == height,
            t.pixels == pixels,
    {
        LoadedTexture { width, height, pixels }
    }

    /// The pixel in column `x` of row `y`, or `None` where the texture has
    /// no such pixel.
    pub fn get_pixel(&self, x: usize, y: usize) -> (p: Option<(u8, u8, u8, u8)>)
        ensures
            p == if self.has_pixel(x as int, y as int) {
                Some(self.pixel_at(x as int, y as int))
            } else {
                None
            },
    {
        if x as u64 >= self.width as u64 || y as u64 >= self.height as u64 {
            return None;
        }
        assert(y * self.width <= 0xffff_ffff * 0xffff_ffff) by (nonlinear_arith)
            requires
                0 <= y <= 0xffff_ffff,
                0 <= self.width <= 0xffff_ffff,
        ;
        let pos: u128 = (x as u128 + (y as u128) * (self.width as u128)) * 4;
        if pos + 3 >= self.pixels.len() as u128 {
            return None;
        }
        let pos = pos as usize;
        Some((self.pixels[pos], self.pixels[pos + 1], self.pixels[pos + 2], self.pixels[pos + 3]))
    }

    /// Whether the texture is well formed.
    pub fn is_well_formed(&self) -> (r: bool)
        ensures
            r == self.well_formed(),
    {
        if !is_power_of_two(self.width) || !is_power_of_two(self.height) {
            return false;
        }
        assert(self.width * self.height <= 0xffff_ffff * 0xffff_ffff) by (nonlinear_arith)
            requires
                0 <= self.width <= 0xffff_ffff,
                0 <= self.height <= 0xffff_ffff,
        ;
        let want: u128 = 4 * ((self.width as u128) * (self.height as u128));
        self.pixels.len() as u128 == want
    }
}

/// Whether `n` is a power of two.
pub fn is_power_of_two(n: u32) -> (r: bool)
    ensures
        r == is_pow2(n as int),
{
    if n == 0 {
        proof {
            reveal(is_pow2);
        }
        return false;
    }
    let mut m = n;
    while m % 2 == 0
        invariant
            m > 0,
            is_pow2(m as int) == is_pow2(n as int),
        decreases m,
    {
        proof {
            reveal(is_pow2);
        }
        m = m / 2;
    }
    proof {
        reveal(is_pow2);
    }
    m == 1
}

/// Why a texture was turned away.
#[derive(Clone, Copy, Debug, PartialEq, Eq, Structural)]
pub enum TextureError {
    /// A side of the texture is not a power of two.
    NotPowerOfTwo,
    /// The pixel buffer does not hold `4 * width * height` bytes.
    WrongLength,
}

/// The settings of a frame and the textures of the walls.
///
/// The texture of the material with code `c` is `textures[c - 1]`.
#[derive(Clone, Debug)]
pub struct GameData {
    pub mouse_set: bool,
    pub map_view: bool,
    pub textured: bool,
    pub width: u32,
    pub height: u32,
    pub last_mouse_pos: Vec2<i32>,
    pub textures: Vec<LoadedTexture>,
}

impl GameData {
    pub fn new(mouse_set: bool, map_view: bool, width: u32, height: u32) -> (g: Self)
        ensures
            g.mouse_set == mouse_set,
            g.map_view == map_view,
            !g.textured,
            g.width == width,
            g.height == height,
            g.last_mouse_pos == (Vec2::<i32> { x: 0, y: 0 }),
            g.textures@ == Seq::<LoadedTexture>::empty(),
    {
        GameData {
            mouse_set,
            map_view,
            textured: false,
            width,
            height,
            last_mouse_pos: Vec2::new(0, 0),
            textures: Vec::new(),
        }
    }

    /// Takes over the size of the window, width first.
    pub fn update_sizes(&mut self, sizes: (u32, u32))
        ensures
            *final(self) == (GameData { width: sizes.0, height: sizes.1, ..*old(self) }),
    {
        self.width = sizes.0;
        self.height = sizes.1;
    }

    /// Appends a texture, for the material whose code is the new number of
    /// textures.  A texture that is not well formed is turned away and
    /// leaves `self` as it was.
    pub fn add_texture(&mut self, width: u32, height: u32, pixels: Vec<u8>) -> (r: Result<
        (),
        TextureError,
    >)
        ensures
            !(is_pow2(width as int) && is_pow2(height as int)) ==> r == Err::<(), TextureError>(
                TextureError::NotPowerOfTwo,
            ),
            is_pow2(width as int) && is_pow2(height as int) && pixels@.len() != 4 * (width
                * height) ==> r == Err::<(), TextureError>(TextureError::WrongLength),
            (LoadedTexture { width, height, pixels }).well_formed() ==> r.is_ok(),
            r.is_err() ==> *final(self) == *old(self),
            r.is_ok() ==> *final(self) == (GameData {
                textures: final(self).textures,
                ..*old(self)
            }) && final(self).textures@ == old(self).textures@.push(
                LoadedTexture { width, height, pixels },
            ),
    {
        let texture = LoadedTexture::new(width, height, pixels);
        if !is_power_of_two(width) || !is_power_of_two(height) {
            return Err(TextureError::NotPowerOfTwo);
        }
        if !texture.is_well_formed() {
            return Err(TextureError::WrongLength);
        }
        self.textures.push(texture);
        Ok(())
    }
}

} // verus!
