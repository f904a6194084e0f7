//! A square grid stored as a flat row-major sequence.

use vstd::prelude::*;

use crate::decode::{
    decode_luma16, decode_luma8, decoded_luma16, decoded_luma8, decoded_size, image_decodes,
};

verus! {

/// Why an image could not become a matrix.
#[derive(Debug)]
pub enum LoadError {
    /// The bytes are not an image that the decoder can read.
    Decode(image::ImageError),
    /// The image's width differs from its height.
    NotSquare,
}

/// A square grid of `n_rows * n_rows` cells, stored row by row.
#[derive(Debug)]
pub struct Matrix<T> {
    data: Vec<T>,
    n_rows: usize,
}

impl<T> Matrix<T> {
    /// The cells, row by row.
    pub closed spec fn cells(&self) -> Seq<T> {
        self.data@
    }

    /// The side length of the grid.
    pub closed spec fn side(&self) -> nat {
        self.n_rows as nat
    }

    /// The grid holds exactly one cell for each of its `side * side` places.
    pub open spec fn wf(&self) -> bool {
        self.cells().len() == self.side() * self.side()
    }

    /// A matrix with `n_rows` rows of `n_rows` cells, taken from `data` row by row.
    pub fn new(data: Vec<T>, n_rows: usize) -> (m: Self)
        requires
            data@.len() == n_rows * n_rows,
        ensures
            m.side() == n_rows,
            m.cells() == data@,
            m.wf(),
    {
        Matrix { data, n_rows }
    }

    /// The number of rows, which is also the number of columns.
    pub fn n_rows(&self) -> (r: usize)
        ensures
            r == self.side(),
    {
        self.n_rows
    }

    /// The cells, row by row.
    pub fn data(&self) -> (r: &[T])
        ensures
            r@ == self.cells(),
    {
        self.data.as_slice()
    }

    /// The matrix of a decoded image of `width` by `height` luma samples,
    /// given row by row. Only a square image becomes a matrix.
    pub fn from_luma(width: u32, height: u32, pixels: Vec<T>) -> (r: Result<Self, LoadError>)
        requires
            pixels@.len() == width * height,
        ensures
            r matches Err(LoadError::NotSquare) <==> width != height,
            r matches Err(LoadError::Decode(_)) ==> false,
            r matches Ok(m) ==> m.side() == width && m.cells() == pixels@ && m.wf(),
    {
        if width != height {
            return Err(LoadError::NotSquare);
        }
        Ok(Matrix::new(pixels, width as usize))
    }
}

impl Matrix<u8> {
    /// Decodes the contents `bytes` of the image file named `path` into a matrix
    /// of 8-bit luma samples. The file name's extension gives the format.
    pub fn load_image_bytes(path: &str, bytes: &[u8]) -> (r: Result<Matrix<u8>, LoadError>)
        ensures
            r matches Err(LoadError::Decode(_)) <==> !image_decodes(path@, bytes@),
            r matches Err(LoadError::NotSquare) <==> image_decodes(path@, bytes@)
                && decoded_size(path@, bytes@).0 != decoded_size(path@, bytes@).1,
            r matches Ok(m) ==> m.wf() && m.side() == decoded_size(path@, bytes@).0
                && m.cells() == decoded_luma8(path@, bytes@),
    {
        match decode_luma8(path, bytes) {
            Err(e) => Err(LoadError::Decode(e)),
            Ok((width, height, pixels)) => Matrix::from_luma(width, height, pixels),
        }
    }
}

impl Matrix<u16> {
    /// Decodes the contents `bytes` of the image file named `path` into a matrix
    /// of 16-bit luma samples. The file name's extension gives the format.
    pub fn load_image_detail_bytes(path: &str, bytes: &[u8]) -> (r: Result<Matrix<u16>, LoadError>)
        ensures
            r matches Err(LoadError::Decode(_)) <==> !image_decodes(path@, bytes@),
            r matches Err(LoadError::NotSquare) <==> image_decodes(path@, bytes@)
                && decoded_size(path@, bytes@).0 != decoded_size(path@, bytes@).1,
            r matches Ok(m) ==> m.wf() && m.side() == decoded_size(path@, bytes@).0
                && m.cells() == decoded_luma16(path@, bytes@),
    {
        match decode_luma16(path, bytes) {
            Err(e) => Err(LoadError::Decode(e)),
            Ok((width, height, pixels)) => Matrix::from_luma(width, height, pixels),
        }
    }
}

} // verus!
