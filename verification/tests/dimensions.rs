use sdiff::{check_dimensions, CLIParams, Dimensions, ViewerError};

fn params() -> CLIParams {
    CLIParams {
        first_image_path: String::from("before.png"),
        second_image_path: String::from("after.png"),
    }
}

#[test]
fn equal_dimensions_validate() {
    let first = Dimensions::new(400, 300);
    let second = Dimensions::new(400, 300);
    assert_eq!(
        check_dimensions(&params(), Ok(first), Ok(second)),
        Ok(Dimensions { width: 400, height: 300 })
    );
}

#[test]
fn different_widths_are_a_mismatch() {
    let first = Dimensions::new(400, 300);
    let second = Dimensions::new(300, 300);
    assert_eq!(
        check_dimensions(&params(), Ok(first), Ok(second)),
        Err(ViewerError::DimensionMismatch(
            Dimensions { width: 400, height: 300 },
            Dimensions { width: 300, height: 300 },
        ))
    );
}

#[test]
fn different_heights_are_a_mismatch() {
    let first = Dimensions::new(400, 300);
    let second = Dimensions::new(400, 301);
    assert_eq!(
        check_dimensions(&params(), Ok(first), Ok(second)),
        Err(ViewerError::DimensionMismatch(first, second))
    );
}

#[test]
fn mismatch_keeps_the_order_of_the_images() {
    let small = Dimensions::new(1, 2);
    let large = Dimensions::new(2, 1);
    assert_eq!(
        check_dimensions(&params(), Ok(small), Ok(large)),
        Err(ViewerError::DimensionMismatch(small, large))
    );
    assert_eq!(
        check_dimensions(&params(), Ok(large), Ok(small)),
        Err(ViewerError::DimensionMismatch(large, small))
    );
}

#[test]
fn empty_and_largest_images_validate() {
    let empty = Dimensions::new(0, 0);
    assert_eq!(check_dimensions(&params(), Ok(empty), Ok(empty)), Ok(empty));
    let largest = Dimensions::new(u32::MAX, u32::MAX);
    assert_eq!(check_dimensions(&params(), Ok(largest), Ok(largest)), Ok(largest));
}

#[test]
fn undecodable_first_image_is_a_decode_error() {
    let second = Dimensions::new(400, 300);
    assert_eq!(
        check_dimensions(&params(), Err(String::from("unsupported format")), Ok(second)),
        Err(ViewerError::Decode {
            path: String::from("before.png"),
            cause: String::from("unsupported format"),
        })
    );
}

#[test]
fn undecodable_second_image_is_a_decode_error() {
    let first = Dimensions::new(400, 300);
    assert_eq!(
        check_dimensions(&params(), Ok(first), Err(String::from("No such file or directory"))),
        Err(ViewerError::Decode {
            path: String::from("after.png"),
            cause: String::from("No such file or directory"),
        })
    );
}

#[test]
fn first_decode_failure_is_the_one_reported() {
    assert_eq!(
        check_dimensions(&params(), Err(String::from("truncated")), Err(String::from("empty"))),
        Err(ViewerError::Decode {
            path: String::from("before.png"),
            cause: String::from("truncated"),
        })
    );
}

#[test]
fn new_keeps_width_and_height_apart() {
    let dims = Dimensions::new(640, 480);
    assert_eq!(dims.width, 640);
    assert_eq!(dims.height, 480);
}
