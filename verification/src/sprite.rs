//! Sprite sheets: how frames are laid out on a texture.

use crate::units::saturate_spec;
use vstd::prelude::*;

verus! {

/// How the frames of a sprite lie on its sheet, in pixels: the frames stand
/// in one row, each `frame_dimensions` wide and high, with a border of
/// `border_left` before each frame and a border of `border_up` above the
/// row.
#[derive(Debug, Clone, Copy, PartialEq, Eq)]
pub struct SpriteDescription {
    pub number_of_frames: usize,
    pub border_left: usize,
    pub border_up: usize,
    pub frame_dimensions: (usize, usize),
}

/// A rectangle of pixels: its upper left corner and its size.
#[derive(Debug, Clone, Copy, PartialEq, Eq, Structural)]
pub struct Rect {
    pub x: i32,
    pub y: i32,
    pub width: u32,
    pub height: u32,
}

/// Why a description does not fit a texture.
#[derive(Debug, Clone, Copy, PartialEq, Eq, Structural)]
pub enum SpriteError {
    /// The row of frames is wider than the texture.
    WidthExceedsTexture,
    /// The row of frames is higher than the texture.
    HeightExceedsTexture,
}

impl SpriteDescription {
    /// The width of the row of frames with their borders.
    pub open spec fn row_width(self) -> int {
        (self.border_left + self.frame_dimensions.0) * self.number_of_frames
    }

    /// The height of the row of frames with its border.
    pub open spec fn row_height(self) -> int {
        self.border_up + self.frame_dimensions.1
    }

    /// Whether the row of frames lies within a texture of the given size.
    pub open spec fn fits(self, texture_width: u32, texture_height: u32) -> bool {
        self.row_width() <= texture_width && self.row_height() <= texture_height
    }

    /// The distance of frame `frame` from the left edge of the sheet.
    pub open spec fn frame_left(self, frame: int) -> int {
        frame * self.frame_dimensions.0 + (frame + 1) * self.border_left
    }

    /// The place of frame `frame` on the sheet, if the sprite has such a
    /// frame. Frames are counted from zero.
    pub open spec fn rect_of_frame(self, frame: int) -> Option<Rect> {
        if 0 <= frame < self.number_of_frames {
            Some(
                Rect {
                    x: saturate_spec(self.frame_left(frame)) as i32,
                    y: saturate_spec(self.border_up as int) as i32,
                    width: pixel_length_spec(self.frame_dimensions.0),
                    height: pixel_length_spec(self.frame_dimensions.1),
                },
            )
        } else {
            None
        }
    }

    /// Holds the description against the size of the texture that it is to
    /// describe. Too wide is reported before too high.
    pub fn check(&self, texture_width: u32, texture_height: u32) -> (r: Result<(), SpriteError>)
        ensures
            r == if self.row_width() > texture_width {
                Err::<(), SpriteError>(SpriteError::WidthExceedsTexture)
            } else if self.row_height() > texture_height {
                Err::<(), SpriteError>(SpriteError::HeightExceedsTexture)
            } else {
                Ok::<(), SpriteError>(())
            },
    {
        let width = texture_width as usize;
        let frames = self.number_of_frames;
        if frames > 0 {
            if self.border_left > width || self.frame_dimensions.0 > width {
                proof {
                    lemma_row_wider(self.border_left as int, self.frame_dimensions.0 as int, frames as int);
                }
                return Err(SpriteError::WidthExceedsTexture);
            }
            let step = self.border_left as u64 + self.frame_dimensions.0 as u64;
            proof {
                lemma_row_against_width(step as int, frames as int, texture_width as int);
            }
            if step > texture_width as u64 / frames as u64 {
                return Err(SpriteError::WidthExceedsTexture);
            }
        } else {
            assert(self.row_width() == 0) by (nonlinear_arith)
                requires
                    self.number_of_frames == 0,
                    self.row_width() == (self.border_left + self.frame_dimensions.0) * self.number_of_frames,
            ;
        }
        let height = texture_height as usize;
        if self.border_up > height || self.frame_dimensions.1 > height - self.border_up {
            return Err(SpriteError::HeightExceedsTexture);
        }
        Ok(())
    }
}

/// A row of at least one frame is at least as wide as one border and as one
/// frame.
proof fn lemma_row_wider(border: int, frame: int, frames: int)
    requires
        0 <= border,
        0 <= frame,
        1 <= frames,
    ensures
        (border + frame) * frames >= border,
        (border + frame) * frames >= frame,
{
    assert((border + frame) * frames >= border + frame) by (nonlinear_arith)
        requires
            0 <= border + frame,
            1 <= frames,
    ;
}

/// A row of `frames` steps is wider than `width` exactly if one step is
/// wider than the `frames`-th part of `width`.
proof fn lemma_row_against_width(step: int, frames: int, width: int)
    requires
        0 <= step,
        1 <= frames,
        0 <= width,
    ensures
        step * frames > width <==> step > width / frames,
{
    let q = width / frames;
    assert(width == frames * q + width % frames && 0 <= width % frames < frames) by (nonlinear_arith)
        requires
            1 <= frames,
            q == width / frames,
    ;
    if step > q {
        assert(step * frames >= (q + 1) * frames) by (nonlinear_arith)
            requires
                step >= q + 1,
                1 <= frames,
        ;
        assert((q + 1) * frames == frames * q + frames) by (nonlinear_arith);
    } else {
        assert(step * frames <= q * frames) by (nonlinear_arith)
            requires
                0 <= step <= q,
                1 <= frames,
        ;
        assert(q * frames == frames * q) by (nonlinear_arith);
    }
}

/// A texture together with the description of the frames on it. The sprite
/// keeps the texture as the graphics layer wants it and never looks inside.
pub struct Sprite<T> {
    texture: T,
    description: SpriteDescription,
}

impl<T> Sprite<T> {
    /// The texture of the sprite.
    pub closed spec fn spec_texture(&self) -> T {
        self.texture
    }

    /// The description of the sprite.
    pub closed spec fn spec_description(&self) -> SpriteDescription {
        self.description
    }

    /// The sprite of a sheet that was decoded into `texture`, which is
    /// `texture_width` pixels wide and `texture_height` high. A description
    /// that reaches beyond the texture is refused.
    pub fn from_gif(description: SpriteDescription, texture: T, texture_width: u32, texture_height: u32) -> (r:
        Result<Sprite<T>, SpriteError>)
        ensures
            match r {
                Ok(sprite) => {
                    &&& description.fits(texture_width, texture_height)
                    &&& sprite.spec_texture() == texture
                    &&& sprite.spec_description() == description
                },
                Err(SpriteError::WidthExceedsTexture) => description.row_width() > texture_width,
                Err(SpriteError::HeightExceedsTexture) => description.row_width() <= texture_width
                    && description.row_height() > texture_height,
            },
    {
        match description.check(texture_width, texture_height) {
            Ok(()) => Ok(Self { texture, description }),
            Err(e) => Err(e),
        }
    }

    /// The texture of the sprite.
    pub fn texture(&self) -> (r: &T)
        ensures
            *r == self.spec_texture(),
    {
        &self.texture
    }

    /// The description of the sprite.
    pub fn description(&self) -> (r: &SpriteDescription)
        ensures
            *r == self.spec_description(),
    {
        &self.description
    }

    /// The width of a frame in pixels.
    pub fn frame_width(&self) -> (r: usize)
        ensures
            r == self.spec_description().frame_dimensions.0,
    {
        self.description.frame_dimensions.0
    }

    /// The height of a frame in pixels.
    pub fn frame_height(&self) -> (r: usize)
        ensures
            r == self.spec_description().frame_dimensions.1,
    {
        self.description.frame_dimensions.1
    }

    /// The place of frame `frame` on the sheet, or nothing if the sprite has
    /// no such frame.
    pub fn get_rect_of_frame(&self, frame: usize) -> (r: Option<Rect>)
        ensures
            r == self.spec_description().rect_of_frame(frame as int),
    {
        frame_rect(&self.description, frame)
    }
}

/// A length in pixels as the graphics layer counts it, in 32 bits.
pub open spec fn pixel_length_spec(length: usize) -> u32 {
    if length > u32::MAX {
        u32::MAX
    } else {
        length as u32
    }
}

/// A length in pixels as the graphics layer counts it, in 32 bits.
fn pixel_length(length: usize) -> (r: u32)
    ensures
        r == pixel_length_spec(length),
{
    if length > u32::MAX as usize {
        u32::MAX
    } else {
        length as u32
    }
}

/// The place of frame `frame` on a sheet with the given description.
pub fn frame_rect(description: &SpriteDescription, frame: usize) -> (r: Option<Rect>)
    ensures
        r == description.rect_of_frame(frame as int),
{
    if frame < description.number_of_frames {
        let frames_before = frame.checked_mul(description.frame_dimensions.0);
        let borders_before = (frame + 1).checked_mul(description.border_left);
        proof {
            assert(frame * description.frame_dimensions.0 >= 0) by (nonlinear_arith)
                requires
                    frame >= 0,
                    description.frame_dimensions.0 >= 0,
            ;
            assert((frame + 1) * description.border_left >= 0) by (nonlinear_arith)
                requires
                    frame >= 0,
                    description.border_left >= 0,
            ;
        }
        let left = match (frames_before, borders_before) {
            (Some(frames), Some(borders)) => frames.checked_add(borders),
            _ => None,
        };
        let x = match left {
            Some(left) => if left > i32::MAX as usize {
                i32::MAX
            } else {
                left as i32
            },
            None => i32::MAX,
        };
        let y = if description.border_up > i32::MAX as usize {
            i32::MAX
        } else {
            description.border_up as i32
        };
        Some(
            Rect {
                x,
                y,
                width: pixel_length(description.frame_dimensions.0),
                height: pixel_length(description.frame_dimensions.1),
            },
        )
    } else {
        None
    }
}

/// The name of a sprite in a [`SpriteManager`].
#[derive(Clone, Copy, Debug, PartialEq, Eq, Structural)]
pub struct SpriteId(usize);

impl View for SpriteId {
    type V = int;

    closed spec fn view(&self) -> int {
        self.0 as int
    }
}

impl SpriteId {
    /// The place of the sprite in its manager.
    pub fn index(&self) -> (r: usize)
        ensures
            r as int == self@,
    {
        self.0
    }

    /// Two names with the same place are the same name.
    pub proof fn lemma_view(self, other: Self)
        ensures
            0 <= self@ <= usize::MAX,
            self@ == other@ ==> self == other,
    {
    }
}

/// The sprites that were loaded, in the order of their loading.
///
/// Its view is the sequence of the sprites.
pub struct SpriteManager<T> {
    sprites: Vec<Sprite<T>>,
}

impl<T> View for SpriteManager<T> {
    type V = Seq<Sprite<T>>;

    closed spec fn view(&self) -> Seq<Sprite<T>> {
        self.sprites@
    }
}

impl<T> SpriteManager<T> {
    /// A manager without sprites.
    pub fn new() -> (r: Self)
        ensures
            r@ == Seq::<Sprite<T>>::empty(),
    {
        Self { sprites: Vec::new() }
    }

    /// Adds a sprite and returns its name.
    pub fn insert(&mut self, sprite: Sprite<T>) -> (id: SpriteId)
        ensures
            final(self)@ == old(self)@.push(sprite),
            id@ == old(self)@.len(),
    {
        self.sprites.push(sprite);
        SpriteId(self.sprites.len() - 1)
    }

    /// Whether `id` names a sprite of this manager.
    pub fn contains(&self, id: SpriteId) -> (r: bool)
        ensures
            r == (id@ < self@.len()),
    {
        id.0 < self.sprites.len()
    }

    /// The sprite that `id` names.
    pub fn get(&self, id: SpriteId) -> (r: &Sprite<T>)
        requires
            id@ < self@.len(),
        ensures
            *r == self@[id@],
    {
        &self.sprites[id.0]
    }

    /// The description of the sprite that `id` names.
    pub fn get_description(&self, id: SpriteId) -> (r: &SpriteDescription)
        requires
            id@ < self@.len(),
        ensures
            *r == self@[id@].spec_description(),
    {
        self.sprites[id.0].description()
    }

    /// The sprite that `id` names, if it names one of this manager.
    pub fn lookup(&self, id: SpriteId) -> (r: Option<&Sprite<T>>)
        ensures
            r == if id@ < self@.len() {
                Some(&self@[id@])
            } else {
                None
            },
    {
        if id.0 < self.sprites.len() {
            Some(&self.sprites[id.0])
        } else {
            None
        }
    }
}

/// The opacity that the alpha map gives the pixel whose three colour bytes
/// are `r`, `g` and `b`: the brighter the map, the more transparent the
/// pixel.
pub open spec fn opacity(r: u8, g: u8, b: u8) -> u8 {
    (255 - (r + g + b) / 3) as u8
}

/// Whether an alpha map of `alpha_len` bytes can be written into colour
/// data of `target_len` bytes. The map holds its pixels four bytes apart and
/// three colour bytes for each, so its last pixel may lack the fourth
/// byte; and the colour data reaches at least to the first byte of the
/// last pixel of the map.
pub open spec fn blendable(target_len: int, alpha_len: int) -> bool {
    &&& alpha_len % 4 == 0 || alpha_len % 4 == 3
    &&& alpha_len > 0 ==> 4 * ((alpha_len - 1) / 4) < target_len
}

/// Whether an alpha map of `alpha_len` bytes can be written into colour
/// data of `target_len` bytes.
pub fn can_blend(target_len: usize, alpha_len: usize) -> (r: bool)
    ensures
        r == blendable(target_len as int, alpha_len as int),
{
    (alpha_len % 4 == 0 || alpha_len % 4 == 3) && (alpha_len == 0 || 4 * ((alpha_len - 1) / 4) < target_len)
}

/// Writes the opacity of every pixel of a sprite sheet into its colour
/// data. Both `target` and `alpha_map` hold their pixels four bytes apart.
/// In `alpha_map` the first three bytes of a pixel are the colour of the
/// map; in `target` the first is the opacity, which alone is written.
pub fn blend_alpha_map(target: &mut [u8], alpha_map: &[u8])
    requires
        blendable(old(target)@.len() as int, alpha_map@.len() as int),
    ensures
        final(target)@.len() == old(target)@.len(),
        forall|k: int|
            0 <= k < final(target)@.len() ==> #[trigger] final(target)@[k] == if k % 4 == 0 && k
                < alpha_map@.len() {
                opacity(alpha_map@[k], alpha_map@[k + 1], alpha_map@[k + 2])
            } else {
                old(target)@[k]
            },
{
    let len = alpha_map.len();
    assert(alpha_map@.len() == len);
    let pixels = if len % 4 == 0 {
        len / 4
    } else {
        len / 4 + 1
    };
    let mut i: usize = 0;
    while i < pixels
        invariant
            i <= pixels,
            len == alpha_map@.len(),
            len % 4 == 0 || len % 4 == 3,
            pixels == (len + 3) / 4,
            target@.len() == old(target)@.len(),
            len > 0 ==> 4 * ((len - 1) / 4) < target@.len(),
            forall|k: int|
                0 <= k < target@.len() ==> #[trigger] target@[k] == if k % 4 == 0 && k < 4 * i && k < len {
                    opacity(alpha_map@[k], alpha_map@[k + 1], alpha_map@[k + 2])
                } else {
                    old(target)@[k]
                },
        decreases pixels - i,
    {
        let at = i * 4;
        let grayscale = ((alpha_map[at] as u32 + alpha_map[at + 1] as u32 + alpha_map[at + 2] as u32) / 3) as u8;
        target[at] = 255 - grayscale;
        i += 1;
    }
}

} // verus!
