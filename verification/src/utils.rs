//! What the glyph rasterizer reports for one character of a text.

use vstd::pervasive::unreached;
use vstd::prelude::*;

verus! {

/// The offset of a glyph's bitmap from the pen position: to the left edge,
/// and up to the top edge, in pixels.
#[derive(Clone, Copy, Debug, PartialEq, Eq, Structural)]
pub struct Bearing(pub i32, pub i32);

/// The width and height of a glyph's bitmap, in pixels.
#[derive(Clone, Copy, Debug)]
pub struct Size {
    width: i32,
    height: i32,
}

impl View for Size {
    type V = (int, int);

    /// Width, then height.
    closed spec fn view(&self) -> (int, int) {
        (self.width as int, self.height as int)
    }
}

impl Size {
    pub fn new(width: i32, height: i32) -> (size: Self)
        ensures
            size@ == (width as int, height as int),
    {
        Size { width, height }
    }

    pub fn get_width(&self) -> (width: i32)
        ensures
            width == self@.0,
    {
        self.width
    }

    pub fn get_height(&self) -> (height: i32)
        ensures
            height == self@.1,
    {
        self.height
    }

    /// Two sizes with the same width and height are the same size.
    pub proof fn lemma_view_determines(a: Self, b: Self)
        requires
            a@ == b@,
        ensures
            a == b,
    {
    }
}

/// How far the pen moves after a glyph, in 64ths of a pixel.
#[derive(Clone, Copy, Debug, PartialEq, Eq, Structural)]
pub struct Advance {
    pub x: i64,
    pub y: i64,
}

/// A character that is drawn, with its texture handle and metrics, or one
/// that only steers the layout.
#[derive(Clone, Copy, Debug)]
pub enum CharacterType {
    Normal(u32, Size, Bearing, Advance),
    Control,
}

/// One character of a text, as loaded for drawing.
#[derive(Clone, Copy, Debug)]
pub struct Character {
    ch: char,
    ch_type: CharacterType,
}

impl Character {
    /// The character itself.
    pub closed spec fn character(&self) -> char {
        self.ch
    }

    /// Whether the character is drawn, and with what.
    pub closed spec fn kind(&self) -> CharacterType {
        self.ch_type
    }

    /// The character is drawn: it has a texture and metrics.
    pub open spec fn is_normal(&self) -> bool {
        self.kind() is Normal
    }

    /// A drawn character with the given texture handle, bitmap size
    /// (`width`, `height`), bearing (`x`, `y`) and advance.
    pub fn new(
        ch: char,
        texture_id: u32,
        width: i32,
        height: i32,
        x: i32,
        y: i32,
        advance: Advance,
    ) -> (c: Self)
        ensures
            c.character() == ch,
            c.kind() matches CharacterType::Normal(texture, size, bearing, step) && texture
                == texture_id && size@ == (width as int, height as int) && bearing == Bearing(x, y)
                && step == advance,
    {
        Character {
            ch,
            ch_type: CharacterType::Normal(texture_id, Size::new(width, height), Bearing(x, y), advance),
        }
    }

    /// A character that is not drawn.
    pub fn control(ch: char) -> (c: Self)
        ensures
            c.character() == ch,
            c.kind() is Control,
    {
        Character { ch, ch_type: CharacterType::Control }
    }

    pub fn get_character(&self) -> (ch: char)
        ensures
            ch == self.character(),
    {
        self.ch
    }

    pub fn get_type(&self) -> (kind: &CharacterType)
        ensures
            *kind == self.kind(),
    {
        &self.ch_type
    }

    /// The texture handle of a drawn character.
    pub fn get_texture(&self) -> (texture: u32)
        requires
            self.is_normal(),
        ensures
            texture == self.kind()->Normal_0,
    {
        match self.ch_type {
            CharacterType::Normal(texture_id, _, _, _) => texture_id,
            CharacterType::Control => unreached(),
        }
    }

    /// The bitmap size of a drawn character.
    pub fn get_size(&self) -> (size: &Size)
        requires
            self.is_normal(),
        ensures
            *size == self.kind()->Normal_1,
    {
        match &self.ch_type {
            CharacterType::Normal(_, size, _, _) => size,
            CharacterType::Control => unreached(),
        }
    }

    /// The bearing of a drawn character.
    pub fn get_bearing(&self) -> (bearing: &Bearing)
        requires
            self.is_normal(),
        ensures
            *bearing == self.kind()->Normal_2,
    {
        match &self.ch_type {
            CharacterType::Normal(_, _, bearing, _) => bearing,
            CharacterType::Control => unreached(),
        }
    }

    /// The advance of a drawn character.
    pub fn get_advance(&self) -> (advance: &Advance)
        requires
            self.is_normal(),
        ensures
            *advance == self.kind()->Normal_3,
    {
        match &self.ch_type {
            CharacterType::Normal(_, _, _, advance) => advance,
            CharacterType::Control => unreached(),
        }
    }
}

} // verus!
