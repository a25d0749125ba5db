//! The two image paths that the viewer is started with.

use vstd::prelude::*;

use crate::error::ViewerError;

verus! {

/// The paths of the two images to compare.
#[derive(Debug, PartialEq, Eq)]
pub struct CLIParams {
    /// The image shown left of the cut.
    pub first_image_path: String,
    /// The image shown right of the cut.
    pub second_image_path: String,
}

/// The parameters of a run, from the values of the two positional arguments.
///
/// Both paths must be there: with both, the parameters hold them as given;
/// with either missing, the error is `ViewerError::Usage`.
pub fn parse_args(first_image: Option<String>, second_image: Option<String>) -> (params: Result<
    CLIParams,
    ViewerError,
>)
    ensures
        first_image is Some && second_image is Some ==> params == Ok::<CLIParams, ViewerError>(
            CLIParams {
                first_image_path: first_image->0,
                second_image_path: second_image->0,
            },
        ),
        first_image is None || second_image is None ==> params == Err::<CLIParams, ViewerError>(
            ViewerError::Usage,
        ),
{
    match (first_image, second_image) {
        (Some(first_image_path), Some(second_image_path)) => Ok(
            CLIParams { first_image_path, second_image_path },
        ),
        _ => Err(ViewerError::Usage),
    }
}

} // verus!
