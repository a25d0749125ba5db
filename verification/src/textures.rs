//! The two textures, one for each image.

use vstd::prelude::*;

use crate::cli::CLIParams;
use crate::compositor::Side;
use crate::error::ViewerError;

verus! {

/// The textures of the two images, made once before the first frame and kept
/// until the viewer shuts down. What a texture is is the caller's choice.
#[derive(Debug, PartialEq, Eq)]
pub struct TexturePair<T> {
    /// The texture of the first image.
    pub left: T,
    /// The texture of the second image.
    pub right: T,
}

impl<T> TexturePair<T> {
    /// The texture of the image on `side`.
    pub open spec fn of(self, side: Side) -> T {
        match side {
            Side::Left => self.left,
            Side::Right => self.right,
        }
    }

    /// The texture that a draw call from the image on `side` draws from.
    pub fn texture(&self, side: Side) -> (texture: &T)
        ensures
            *texture == self.of(side),
    {
        match side {
            Side::Left => &self.left,
            Side::Right => &self.right,
        }
    }
}

/// What the two uploads give together, from what the upload made of each
/// image: its texture, or the cause of its failure.
///
/// An image that could not be uploaded gives `ViewerError::TextureUpload` with
/// its path and the cause; where both failed, the first image's failure is the
/// one reported. Two textures give the pair, the first image's texture left
/// and the second's right.
pub open spec fn paired<T>(
    cli_params: CLIParams,
    first: Result<T, String>,
    second: Result<T, String>,
) -> Result<TexturePair<T>, ViewerError> {
    match (first, second) {
        (Err(cause), _) => Err(
            ViewerError::TextureUpload { path: cli_params.first_image_path, cause },
        ),
        (Ok(_), Err(cause)) => Err(
            ViewerError::TextureUpload { path: cli_params.second_image_path, cause },
        ),
        (Ok(left), Ok(right)) => Ok(TexturePair { left, right }),
    }
}

/// The pair of textures, from what the upload made of each image.
///
/// Succeeds exactly when both uploads succeeded. Every other outcome is the
/// error that `paired` names, and the event loop is not to start after one.
pub fn build_textures<T>(
    cli_params: &CLIParams,
    first: Result<T, String>,
    second: Result<T, String>,
) -> (textures: Result<TexturePair<T>, ViewerError>)
    ensures
        textures == paired(*cli_params, first, second),
        textures is Ok <==> first is Ok && second is Ok,
{
    let left = match first {
        Ok(texture) => texture,
        Err(cause) => {
            return Err(
                ViewerError::TextureUpload { path: cli_params.first_image_path.clone(), cause },
            );
        },
    };
    let right = match second {
        Ok(texture) => texture,
        Err(cause) => {
            return Err(
                ViewerError::TextureUpload { path: cli_params.second_image_path.clone(), cause },
            );
        },
    };
    Ok(TexturePair { left, right })
}

} // verus!
