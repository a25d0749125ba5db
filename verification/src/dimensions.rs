//! Pixel dimensions of an image, and the validation that both images must pass.

use vstd::prelude::*;

use crate::cli::CLIParams;
use crate::error::ViewerError;

verus! {

/// Width and height of an image, in pixels.
#[derive(Clone, Copy, Debug, PartialEq, Eq, Structural)]
pub struct Dimensions {
    pub width: u32,
    pub height: u32,
}

impl Dimensions {
    /// Dimensions of `width` by `height` pixels.
    pub fn new(width: u32, height: u32) -> (dims: Dimensions)
        ensures
            dims == (Dimensions { width, height }),
    {
        Dimensions { width, height }
    }
}

/// What the validation of two images gives, from what the decoder made of
/// each file: its dimensions, or the cause of its failure.
///
/// A file that could not be decoded gives `ViewerError::Decode` with its path
/// and the cause; where both failed, the first image's failure is the one
/// reported. Two decoded images of different dimensions give
/// `ViewerError::DimensionMismatch` with both pairs, the first image's first.
/// Two decoded images of the same width and height give their dimensions.
pub open spec fn validated(
    cli_params: CLIParams,
    first: Result<Dimensions, String>,
    second: Result<Dimensions, String>,
) -> Result<Dimensions, ViewerError> {
    match (first, second) {
        (Err(cause), _) => Err(
            ViewerError::Decode { path: cli_params.first_image_path, cause },
        ),
        (Ok(_), Err(cause)) => Err(
            ViewerError::Decode { path: cli_params.second_image_path, cause },
        ),
        (Ok(a), Ok(b)) => if a == b {
            Ok(a)
        } else {
            Err(ViewerError::DimensionMismatch(a, b))
        },
    }
}

/// The dimensions that the two images share, from what the decoder made of
/// each file.
///
/// Succeeds exactly when both files were decoded and the images agree in
/// width and in height. Every other outcome is the error that `validated`
/// names, and no window is to be opened after one.
pub fn check_dimensions(
    cli_params: &CLIParams,
    first: Result<Dimensions, String>,
    second: Result<Dimensions, String>,
) -> (shared: Result<Dimensions, ViewerError>)
    ensures
        shared == validated(*cli_params, first, second),
        shared is Ok <==> first is Ok && second is Ok && first->Ok_0 == second->Ok_0,
{
    let first_dims = match first {
        Ok(dims) => dims,
        Err(cause) => {
            return Err(ViewerError::Decode { path: cli_params.first_image_path.clone(), cause });
        },
    };
    let second_dims = match second {
        Ok(dims) => dims,
        Err(cause) => {
            return Err(ViewerError::Decode { path: cli_params.second_image_path.clone(), cause });
        },
    };
    if first_dims.width != second_dims.width || first_dims.height != second_dims.height {
        Err(ViewerError::DimensionMismatch(first_dims, second_dims))
    } else {
        Ok(first_dims)
    }
}

} // verus!
