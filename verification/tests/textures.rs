use sdiff::{build_textures, CLIParams, Side, TexturePair, ViewerError};

fn paths() -> CLIParams {
    CLIParams {
        first_image_path: String::from("before.png"),
        second_image_path: String::from("after.png"),
    }
}

#[test]
fn two_uploads_give_the_pair() {
    assert_eq!(
        build_textures(&paths(), Ok(11u32), Ok(22u32)),
        Ok(TexturePair { left: 11, right: 22 })
    );
}

#[test]
fn failed_first_upload_is_a_texture_error() {
    assert_eq!(
        build_textures(&paths(), Err(String::from("out of memory")), Ok(22u32)),
        Err(ViewerError::TextureUpload {
            path: String::from("before.png"),
            cause: String::from("out of memory"),
        })
    );
}

#[test]
fn failed_second_upload_is_a_texture_error() {
    assert_eq!(
        build_textures(&paths(), Ok(11u32), Err(String::from("unsupported pixel format"))),
        Err(ViewerError::TextureUpload {
            path: String::from("after.png"),
            cause: String::from("unsupported pixel format"),
        })
    );
}

#[test]
fn first_upload_failure_is_the_one_reported() {
    let textures: Result<TexturePair<u32>, ViewerError> =
        build_textures(&paths(), Err(String::from("first")), Err(String::from("second")));
    assert_eq!(
        textures,
        Err(ViewerError::TextureUpload {
            path: String::from("before.png"),
            cause: String::from("first"),
        })
    );
}

#[test]
fn each_side_draws_from_its_own_texture() {
    let pair = TexturePair { left: "first", right: "second" };
    assert_eq!(*pair.texture(Side::Left), "first");
    assert_eq!(*pair.texture(Side::Right), "second");
}
