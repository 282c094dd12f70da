//! The block of values that the shader reads, and its byte layout.
//!
//! The block is 64 bytes long. Every field is four bytes, least significant
//! byte first, at the offset named by the constants below. The exponent
//! follows the axis range at offset 52; the two never share a place.

use crate::mouse::Mouse;
use crate::scalar::Scalar;
use crate::wire::{le_image, lemma_word_at, word_at, word_bytes};
use vstd::prelude::*;

verus! {

/// Length of the block in bytes.
pub const UNIFORM_SIZE: usize = 64;

/// Offset of the resolution: width, then height.
pub const OFFSET_RESOLUTION: usize = 0;

pub const OFFSET_ITERATIONS: usize = 8;

pub const OFFSET_VALUE: usize = 12;

/// Offset of the pointer's position: x, then y.
pub const OFFSET_MOUSE: usize = 16;

pub const OFFSET_DRAG: usize = 24;

/// Offset of the pointer's previous position: x, then y.
pub const OFFSET_PREVIOUS: usize = 28;

/// Offset of the centre of the view: x, then y.
pub const OFFSET_CENTRE: usize = 36;

pub const OFFSET_AXIS_RANGE: usize = 48;

pub const OFFSET_EXPONENT: usize = 52;

/// Pattern of 1.05, by which one tick of the wheel widens the view.
pub const ZOOM_OUT: u32 = 0x3f86_6666;

/// Pattern of 0.95, by which one tick of the wheel narrows the view.
pub const ZOOM_IN: u32 = 0x3f73_3333;

/// Size of the presentation target in pixels, as numbers for the shader.
#[derive(Clone, Copy, Debug, PartialEq, Eq, Structural)]
pub struct Resolution {
    pub width: Scalar,
    pub height: Scalar,
}

/// What the zoom arithmetic reads: the axis range and the factor to multiply
/// it by.
#[derive(Clone, Copy, Debug, PartialEq, Eq, Structural)]
pub struct ZoomInput {
    pub axis_range: Scalar,
    pub factor: Scalar,
}

/// The values that the shader reads each frame.
#[derive(Clone, Copy, Debug, PartialEq, Eq, Structural)]
pub struct ShaderUniform {
    pub resolution: Resolution,
    pub iterations: i32,
    pub value: Scalar,
    pub mouse: Mouse,
    pub axis_range: Scalar,
    pub exponent: Scalar,
}

/// The 32-bit word that holds a signed number in two's complement.
pub open spec fn signed_word(i: i32) -> u32 {
    if i >= 0 {
        i as u32
    } else {
        (i + 0x1_0000_0000) as u32
    }
}

/// The factor for one tick of the wheel: 1.05 where the scroll amount is
/// below zero, 0.95 otherwise.
pub open spec fn zoom_factor(scroll: Scalar) -> Scalar {
    if scroll.below_zero() {
        Scalar { bits: 0x3f86_6666 }
    } else {
        Scalar { bits: 0x3f73_3333 }
    }
}

fn word_of_signed(i: i32) -> (w: u32)
    ensures
        w == signed_word(i),
{
    assert(i as u32 == if i >= 0 {
        i as u32
    } else {
        (i + 0x1_0000_0000) as u32
    }) by (bit_vector);
    i as u32
}

impl ShaderUniform {
    /// The axis range is a number strictly above zero.
    pub open spec fn wf(self) -> bool {
        self.axis_range.above_zero()
    }

    /// The values of a new view: no resolution yet, 100 iterations, value 2,
    /// axis range 2, exponent 2.
    pub open spec fn initial() -> ShaderUniform {
        ShaderUniform {
            resolution: Resolution { width: Scalar { bits: 0 }, height: Scalar { bits: 0 } },
            iterations: 100,
            value: Scalar { bits: 0x4000_0000 },
            mouse: Mouse::initial(),
            axis_range: Scalar { bits: 0x4000_0000 },
            exponent: Scalar { bits: 0x4000_0000 },
        }
    }

    /// The sixteen words of the block, in order.
    pub open spec fn words(self) -> Seq<u32> {
        seq![
            self.resolution.width.bits,
            self.resolution.height.bits,
            signed_word(self.iterations),
            self.value.bits,
            self.mouse.x.bits,
            self.mouse.y.bits,
            signed_word(self.mouse.drag.code()),
            self.mouse.px.bits,
            self.mouse.py.bits,
            self.mouse.centre_x.bits,
            self.mouse.centre_y.bits,
            0u32,
            self.axis_range.bits,
            self.exponent.bits,
            0u32,
            0u32,
        ]
    }

    /// The block as the device reads it.
    pub open spec fn image(self) -> Seq<u8> {
        le_image(self.words(), 4)
    }

    /// The values after a zoom to `axis_range`: taken over where it is a
    /// number strictly above zero, refused otherwise.
    pub open spec fn zoomed(self, axis_range: Scalar) -> ShaderUniform {
        if axis_range.above_zero() {
            ShaderUniform { axis_range, ..self }
        } else {
            self
        }
    }

    pub fn new() -> (r: ShaderUniform)
        ensures
            r == ShaderUniform::initial(),
            r.wf(),
    {
        ShaderUniform {
            resolution: Resolution { width: Scalar { bits: 0 }, height: Scalar { bits: 0 } },
            iterations: 100,
            value: Scalar { bits: 0x4000_0000 },
            mouse: Mouse::new(),
            axis_range: Scalar { bits: 0x4000_0000 },
            exponent: Scalar { bits: 0x4000_0000 },
        }
    }

    pub fn update_resolution(&mut self, width: Scalar, height: Scalar)
        ensures
            *final(self) == (ShaderUniform {
                resolution: Resolution { width, height },
                ..*old(self)
            }),
    {
        self.resolution = Resolution { width, height };
    }

    pub fn update_iterations(&mut self, iterations: i32)
        ensures
            *final(self) == (ShaderUniform { iterations, ..*old(self) }),
    {
        self.iterations = iterations;
    }

    pub fn update_value(&mut self, value: Scalar)
        ensures
            *final(self) == (ShaderUniform { value, ..*old(self) }),
    {
        self.value = value;
    }

    pub fn update_exponent(&mut self, exponent: Scalar)
        ensures
            *final(self) == (ShaderUniform { exponent, ..*old(self) }),
    {
        self.exponent = exponent;
    }

    /// What the zoom arithmetic is to read for one tick of the wheel.
    pub fn zoom_input(&self, scroll: Scalar) -> (r: ZoomInput)
        ensures
            r == (ZoomInput { axis_range: self.axis_range, factor: zoom_factor(scroll) }),
    {
        let factor = if scroll.is_negative() {
            Scalar { bits: ZOOM_OUT }
        } else {
            Scalar { bits: ZOOM_IN }
        };
        ZoomInput { axis_range: self.axis_range, factor }
    }

    /// Takes the axis range that the zoom arithmetic gave. One that is not a
    /// number strictly above zero is refused, and the range stays as it was.
    pub fn zoom_to(&mut self, axis_range: Scalar)
        ensures
            *final(self) == old(self).zoomed(axis_range),
            old(self).wf() ==> final(self).wf(),
    {
        if axis_range.is_positive() {
            self.axis_range = axis_range;
        }
    }

    /// The sixteen words of the block.
    pub fn to_words(&self) -> (words: Vec<u32>)
        ensures
            words@ == self.words(),
    {
        let mut words: Vec<u32> = Vec::new();
        words.push(self.resolution.width.bits);
        words.push(self.resolution.height.bits);
        words.push(word_of_signed(self.iterations));
        words.push(self.value.bits);
        words.push(self.mouse.x.bits);
        words.push(self.mouse.y.bits);
        words.push(word_of_signed(self.mouse.drag.to_code()));
        words.push(self.mouse.px.bits);
        words.push(self.mouse.py.bits);
        words.push(self.mouse.centre_x.bits);
        words.push(self.mouse.centre_y.bits);
        words.push(0);
        words.push(self.axis_range.bits);
        words.push(self.exponent.bits);
        words.push(0);
        words.push(0);
        assert(words@ =~= self.words());
        words
    }

    /// The block as the device reads it: 64 bytes.
    pub fn to_bytes(&self) -> (bytes: Vec<u8>)
        ensures
            bytes@ == self.image(),
            bytes@.len() == UNIFORM_SIZE,
    {
        let words = self.to_words();
        word_bytes(&words)
    }
}

/// The layout of the block: its length, the offset at which each field is
/// read back from it, and the zeros that fill the rest.
pub proof fn lemma_layout(u: ShaderUniform)
    ensures
        u.image().len() == UNIFORM_SIZE,
        word_at(u.image(), OFFSET_RESOLUTION as int) == u.resolution.width.bits,
        word_at(u.image(), OFFSET_RESOLUTION + 4) == u.resolution.height.bits,
        word_at(u.image(), OFFSET_ITERATIONS as int) == signed_word(u.iterations),
        word_at(u.image(), OFFSET_VALUE as int) == u.value.bits,
        word_at(u.image(), OFFSET_MOUSE as int) == u.mouse.x.bits,
        word_at(u.image(), OFFSET_MOUSE + 4) == u.mouse.y.bits,
        word_at(u.image(), OFFSET_DRAG as int) == signed_word(u.mouse.drag.code()),
        word_at(u.image(), OFFSET_PREVIOUS as int) == u.mouse.px.bits,
        word_at(u.image(), OFFSET_PREVIOUS + 4) == u.mouse.py.bits,
        word_at(u.image(), OFFSET_CENTRE as int) == u.mouse.centre_x.bits,
        word_at(u.image(), OFFSET_CENTRE + 4) == u.mouse.centre_y.bits,
        word_at(u.image(), 44) == 0,
        word_at(u.image(), OFFSET_AXIS_RANGE as int) == u.axis_range.bits,
        word_at(u.image(), OFFSET_EXPONENT as int) == u.exponent.bits,
        word_at(u.image(), 56) == 0,
        word_at(u.image(), 60) == 0,
{
    let w = u.words();
    assert(w.len() == 16);
    lemma_word_at(w, 0);
    lemma_word_at(w, 1);
    lemma_word_at(w, 2);
    lemma_word_at(w, 3);
    lemma_word_at(w, 4);
    lemma_word_at(w, 5);
    lemma_word_at(w, 6);
    lemma_word_at(w, 7);
    lemma_word_at(w, 8);
    lemma_word_at(w, 9);
    lemma_word_at(w, 10);
    lemma_word_at(w, 11);
    lemma_word_at(w, 12);
    lemma_word_at(w, 13);
    lemma_word_at(w, 14);
    lemma_word_at(w, 15);
}

/// The axis range and the exponent have places of their own: writing one
/// leaves the bytes of the other as they were.
pub proof fn lemma_axis_range_and_exponent_apart(u: ShaderUniform, axis_range: Scalar, exponent: Scalar)
    ensures
        OFFSET_AXIS_RANGE + 4 <= OFFSET_EXPONENT,
        word_at((ShaderUniform { axis_range, ..u }).image(), OFFSET_EXPONENT as int)
            == u.exponent.bits,
        word_at((ShaderUniform { exponent, ..u }).image(), OFFSET_AXIS_RANGE as int)
            == u.axis_range.bits,
{
    lemma_layout(ShaderUniform { axis_range, ..u });
    lemma_layout(ShaderUniform { exponent, ..u });
}

} // verus!
