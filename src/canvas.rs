//! A rectangular grid of pixels, stored row by row.

use vstd::prelude::*;
use vstd::std_specs::convert::FromSpec;
use crate::scalar::{Scalar, zero};
use crate::color::{Color, gray_spec};

verus! {

#[derive(Debug)]
pub enum CanvasError {
    /// The coordinates fall outside the pixel buffer.
    InvalidIndex,
}

/// Rectangular grid of pixels; pixel `(x, y)` is at index `x + y * width`.
pub struct Canvas<T> {
    width: usize,
    height: usize,
    pixels: Vec<Color<T>>,
}

impl<T: Scalar> Canvas<T> {
    /// The buffer holds one pixel per cell of the grid.
    pub open spec fn wf(&self) -> bool {
        self.spec_pixels().len() == self.spec_width() * self.spec_height()
    }

    pub closed spec fn spec_width(&self) -> nat {
        self.width as nat
    }

    pub closed spec fn spec_height(&self) -> nat {
        self.height as nat
    }

    /// The pixels, row by row.
    pub closed spec fn spec_pixels(&self) -> Seq<Color<T>> {
        self.pixels@
    }

    /// The index of `(x, y)` in the buffer, as the buffer is laid out.
    pub open spec fn index_of(&self, x: int, y: int) -> int {
        x + y * self.spec_width()
    }

    /// A black canvas.
    pub fn new(width: usize, height: usize) -> (res: Self)
        requires
            width * height <= usize::MAX,
        ensures
            res.spec_width() == width,
            res.spec_height() == height,
            res.spec_pixels().len() == width * height,
            res.wf(),
            T::obeys_from_spec() ==> forall|i: int| 0 <= i < width * height ==> #[trigger] res.spec_pixels()[i] == gray_spec(zero::<T>()),
    {
        Self::with_color(width, height, Color::black())
    }

    /// A canvas with every pixel `color`.
    pub fn with_color(width: usize, height: usize, color: Color<T>) -> (res: Self)
        requires
            width * height <= usize::MAX,
        ensures
            res.spec_width() == width,
            res.spec_height() == height,
            res.spec_pixels().len() == width * height,
            res.wf(),
            forall|i: int| 0 <= i < width * height ==> #[trigger] res.spec_pixels()[i] == color,
    {
        let n: usize = width * height;
        let mut pixels: Vec<Color<T>> = Vec::with_capacity(n);
        let mut i: usize = 0;
        while i < n
            invariant
                i <= n,
                pixels@.len() == i,
                forall|j: int| 0 <= j < i ==> #[trigger] pixels@[j] == color,
            decreases n - i,
        {
            pixels.push(color);
            i = i + 1;
        }
        Canvas { width, height, pixels }
    }

    pub fn width(&self) -> (res: usize)
        ensures
            res == self.spec_width(),
    {
        self.width
    }

    pub fn height(&self) -> (res: usize)
        ensures
            res == self.spec_height(),
    {
        self.height
    }

    /// The buffer index of `(x, y)`, where it falls inside the buffer.
    fn pixel_index(&self, x: usize, y: usize) -> (res: Result<usize, CanvasError>)
        ensures
            res matches Ok(i) ==> i == self.index_of(x as int, y as int),
            res is Ok <==> self.index_of(x as int, y as int) < self.spec_pixels().len(),
    {
        let len = self.pixels.len();
        match y.checked_mul(self.width) {
            Some(row_start) => match x.checked_add(row_start) {
                Some(i) => {
                    if i < len {
                        Ok(i)
                    } else {
                        Err(CanvasError::InvalidIndex)
                    }
                },
                None => Err(CanvasError::InvalidIndex),
            },
            None => {
                assert(y * self.width > usize::MAX);
                assert(x + y * self.width > usize::MAX) by (nonlinear_arith)
                    requires y * self.width > usize::MAX, x >= 0;
                Err(CanvasError::InvalidIndex)
            },
        }
    }

    /// All pixels, row by row.
    pub fn pixels(&self) -> (res: &Vec<Color<T>>)
        ensures
            res@ == self.spec_pixels(),
    {
        &self.pixels
    }

    /// All pixels, row by row, for changing in place.
    pub fn pixels_mut(&mut self) -> (res: &mut Vec<Color<T>>)
        ensures
            res@ == old(self).spec_pixels(),
            final(self).spec_pixels() == final(res)@,
            final(self).spec_width() == old(self).spec_width(),
            final(self).spec_height() == old(self).spec_height(),
    {
        &mut self.pixels
    }

    /// The pixel at `(x, y)`.
    pub fn pixel(&self, x: usize, y: usize) -> (res: Result<&Color<T>, CanvasError>)
        ensures
            res is Ok <==> self.index_of(x as int, y as int) < self.spec_pixels().len(),
            res matches Ok(p) ==> *p == self.spec_pixels()[self.index_of(x as int, y as int)],
    {
        let i = self.pixel_index(x, y)?;
        Ok(&self.pixels[i])
    }

    /// The pixel at `(x, y)`, for changing in place.
    pub fn pixel_mut(&mut self, x: usize, y: usize) -> (res: Result<&mut Color<T>, CanvasError>)
        ensures
            res is Ok <==> old(self).index_of(x as int, y as int) < old(self).spec_pixels().len(),
            final(self).spec_width() == old(self).spec_width(),
            final(self).spec_height() == old(self).spec_height(),
            res matches Ok(p) ==> *p == old(self).spec_pixels()[old(self).index_of(x as int, y as int)],
            res matches Ok(p) ==> final(self).spec_pixels() == old(self).spec_pixels().update(
                old(self).index_of(x as int, y as int),
                *final(p),
            ),
            res is Err ==> final(self).spec_pixels() == old(self).spec_pixels(),
    {
        let i = self.pixel_index(x, y)?;
        Ok(&mut self.pixels[i])
    }
}

} // verus!
