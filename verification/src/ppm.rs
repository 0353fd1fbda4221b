//! Colors and the pixel grid they are collected in. A color channel is a
//! fixed-point scalar, one (`SCALE`) standing for full intensity; channels
//! are not clamped here, that belongs to the output boundary.

use vstd::prelude::*;

verus! {

use crate::fixed::{fadd, fmul, fdiv};

#[derive(Clone, Copy, PartialEq, Eq, Structural, Debug)]
pub struct Color {
    pub r: i64,
    pub g: i64,
    pub b: i64,
}

/// The mathematical model of a color: unbounded channel values.
pub struct C3 {
    pub r: int,
    pub g: int,
    pub b: int,
}

impl View for Color {
    type V = C3;

    open spec fn view(&self) -> C3 {
        C3 { r: self.r as int, g: self.g as int, b: self.b as int }
    }
}

pub open spec fn c3_add(a: C3, b: C3) -> C3 {
    C3 { r: fadd(a.r, b.r), g: fadd(a.g, b.g), b: fadd(a.b, b.b) }
}

/// Componentwise product: attenuation of one color by another.
pub open spec fn c3_mul(a: C3, b: C3) -> C3 {
    C3 { r: fmul(a.r, b.r), g: fmul(a.g, b.g), b: fmul(a.b, b.b) }
}

pub open spec fn c3_scale(a: C3, k: int) -> C3 {
    C3 { r: fmul(a.r, k), g: fmul(a.g, k), b: fmul(a.b, k) }
}

pub open spec fn c3_div(a: C3, k: int) -> C3 {
    C3 { r: fdiv(a.r, k), g: fdiv(a.g, k), b: fdiv(a.b, k) }
}

impl Color {
    pub fn new(r: i64, g: i64, b: i64) -> (c: Color)
        ensures
            c.r == r && c.g == g && c.b == b,
    {
        Color { r, g, b }
    }

    pub fn add(&self, o: &Color) -> (c: Color)
        ensures
            c@ == c3_add(self@, o@),
    {
        Color {
            r: crate::fixed::add_fx(self.r, o.r),
            g: crate::fixed::add_fx(self.g, o.g),
            b: crate::fixed::add_fx(self.b, o.b),
        }
    }

    pub fn mul(&self, o: &Color) -> (c: Color)
        ensures
            c@ == c3_mul(self@, o@),
    {
        Color {
            r: crate::fixed::mul_fx(self.r, o.r),
            g: crate::fixed::mul_fx(self.g, o.g),
            b: crate::fixed::mul_fx(self.b, o.b),
        }
    }

    pub fn scale(&self, k: i64) -> (c: Color)
        ensures
            c@ == c3_scale(self@, k as int),
    {
        Color {
            r: crate::fixed::mul_fx(self.r, k),
            g: crate::fixed::mul_fx(self.g, k),
            b: crate::fixed::mul_fx(self.b, k),
        }
    }

    pub fn div(&self, k: i64) -> (c: Color)
        ensures
            c@ == c3_div(self@, k as int),
    {
        Color {
            r: crate::fixed::div_fx(self.r, k),
            g: crate::fixed::div_fx(self.g, k),
            b: crate::fixed::div_fx(self.b, k),
        }
    }
}

/// The ghost image: a row-major grid of colors.
pub struct ImageV {
    pub grid: Seq<Color>,
    pub width: int,
    pub height: int,
}

/// A pixel buffer filled during rendering and handed to the output boundary.
pub struct Writer {
    data: Vec<Color>,
    width: usize,
    height: usize,
}

impl View for Writer {
    type V = ImageV;

    closed spec fn view(&self) -> ImageV {
        ImageV { grid: self.data@, width: self.width as int, height: self.height as int }
    }
}

impl Writer {
    pub fn new(width: usize, height: usize) -> (w: Writer)
        requires
            width * height <= usize::MAX,
        ensures
            w@.width == width,
            w@.height == height,
            w@.grid.len() == width * height,
            forall|i: int| 0 <= i < w@.grid.len() ==> w@.grid[i] == (Color { r: 0, g: 0, b: 0 }),
    {
        let n: usize = width * height;
        let mut data: Vec<Color> = Vec::new();
        let mut i: usize = 0;
        while i < n
            invariant
                i <= n,
                data@.len() == i,
                forall|j: int| 0 <= j < i ==> data@[j] == (Color { r: 0, g: 0, b: 0 }),
            decreases n - i,
        {
            data.push(Color { r: 0, g: 0, b: 0 });
            i = i + 1;
        }
        Writer { data, width, height }
    }

    pub fn width(&self) -> (r: usize)
        ensures
            r == self@.width,
    {
        self.width
    }

    pub fn height(&self) -> (r: usize)
        ensures
            r == self@.height,
    {
        self.height
    }

    pub fn get(&self, x: usize, y: usize) -> (c: Color)
        requires
            x < self@.width,
            y < self@.height,
            self@.grid.len() == self@.width * self@.height,
        ensures
            c == self@.grid[y * self@.width + x],
    {
        proof {
            vstd::std_specs::vec::axiom_spec_len(&self.data);
            lemma_row_major_in_range(x as int, y as int, self@.width, self@.height);
        }
        self.data[y * self.width + x]
    }

    pub fn set(&mut self, x: usize, y: usize, c: Color)
        requires
            x < old(self)@.width,
            y < old(self)@.height,
            old(self)@.grid.len() == old(self)@.width * old(self)@.height,
        ensures
            final(self)@.width == old(self)@.width,
            final(self)@.height == old(self)@.height,
            final(self)@.grid == old(self)@.grid.update(y * old(self)@.width + x, c),
    {
        proof {
            vstd::std_specs::vec::axiom_spec_len(&self.data);
            lemma_row_major_in_range(x as int, y as int, self@.width, self@.height);
        }
        let idx: usize = y * self.width + x;
        self.data.set(idx, c);
    }
}

/// A row-major index lies inside the grid.
proof fn lemma_row_major_in_range(x: int, y: int, width: int, height: int)
    requires
        0 <= x < width,
        0 <= y < height,
    ensures
        0 <= y * width + x < width * height,
{
    assert(y * width + x < width * height) by (nonlinear_arith)
        requires 0 <= x < width, 0 <= y < height;
    assert(y * width >= 0) by (nonlinear_arith)
        requires 0 <= y, 0 < width;
}

} // verus!
