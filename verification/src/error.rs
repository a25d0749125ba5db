//! What can end the viewer before or while it runs, and how it is reported.

use vstd::prelude::*;

use crate::dimensions::Dimensions;

verus! {

/// A failure of the viewer. Each one ends the process; none is retried.
#[derive(Debug, PartialEq, Eq)]
pub enum ViewerError {
    /// One of the two image paths was not given.
    Usage,
    /// The image at `path` could not be read or decoded.
    Decode { path: String, cause: String },
    /// The two images differ in size: the first image's dimensions, then the
    /// second's.
    DimensionMismatch(Dimensions, Dimensions),
    /// The image at `path` could not be turned into a texture.
    TextureUpload { path: String, cause: String },
    /// The window could not be created or released.
    DisplaySurface,
}

/// The character that stands for the digit `d`.
pub open spec fn digit(d: nat) -> char
    recommends
        d < 10,
{
    if d == 0 {
        '0'
    } else if d == 1 {
        '1'
    } else if d == 2 {
        '2'
    } else if d == 3 {
        '3'
    } else if d == 4 {
        '4'
    } else if d == 5 {
        '5'
    } else if d == 6 {
        '6'
    } else if d == 7 {
        '7'
    } else if d == 8 {
        '8'
    } else {
        '9'
    }
}

/// The decimal digits of `n`, most significant first, without leading zeros.
pub open spec fn decimal(n: nat) -> Seq<char>
    decreases n,
{
    if n < 10 {
        seq![digit(n)]
    } else {
        decimal(n / 10).push(digit(n % 10))
    }
}

/// Dimensions as they appear in a message: `(width, height)`.
pub open spec fn dimensions_text(dims: Dimensions) -> Seq<char> {
    "("@ + decimal(dims.width as nat) + ", "@ + decimal(dims.height as nat) + ")"@
}

fn digit_text(d: u32) -> (text: &'static str)
    requires
        d < 10,
    ensures
        text@ == seq![digit(d as nat)],
{
    proof {
        reveal_strlit("0");
        reveal_strlit("1");
        reveal_strlit("2");
        reveal_strlit("3");
        reveal_strlit("4");
        reveal_strlit("5");
        reveal_strlit("6");
        reveal_strlit("7");
        reveal_strlit("8");
        reveal_strlit("9");
    }
    let text: &'static str = match d {
        0 => "0",
        1 => "1",
        2 => "2",
        3 => "3",
        4 => "4",
        5 => "5",
        6 => "6",
        7 => "7",
        8 => "8",
        _ => "9",
    };
    assert(text@ =~= seq![digit(d as nat)]);
    text
}

fn append_decimal(out: &mut String, n: u32)
    ensures
        final(out)@ == old(out)@ + decimal(n as nat),
    decreases n,
{
    if n >= 10 {
        append_decimal(out, n / 10);
    }
    out.append(digit_text(n % 10));
    assert(out@ =~= old(out)@ + decimal(n as nat));
}

fn append_dimensions(out: &mut String, dims: Dimensions)
    ensures
        final(out)@ == old(out)@ + dimensions_text(dims),
{
    out.append("(");
    append_decimal(out, dims.width);
    out.append(", ");
    append_decimal(out, dims.height);
    out.append(")");
    assert(out@ =~= old(out)@ + dimensions_text(dims));
}

impl ViewerError {
    /// The text of the message that reports this error. It names the paths and
    /// dimensions that the error carries.
    pub open spec fn message_text(self) -> Seq<char> {
        match self {
            ViewerError::Usage => "missing first_image or second_image"@,
            ViewerError::Decode { path, cause } => "cannot decode "@ + path@ + ": "@ + cause@,
            ViewerError::DimensionMismatch(first, second) => "first_image dimensions "@
                + dimensions_text(first) + " and second_image dimensions "@ + dimensions_text(
                second,
            ) + " do not match"@,
            ViewerError::TextureUpload { path, cause } => "cannot create a texture from "@ + path@
                + ": "@ + cause@,
            ViewerError::DisplaySurface => "the display surface failed"@,
        }
    }

    /// A message for the user that says what went wrong.
    pub fn message(&self) -> (text: String)
        ensures
            text@ == self.message_text(),
    {
        match self {
            ViewerError::Usage => String::from_str("missing first_image or second_image"),
            ViewerError::Decode { path, cause } => {
                let mut text = String::from_str("cannot decode ");
                text.append(path.as_str());
                text.append(": ");
                text.append(cause.as_str());
                text
            },
            ViewerError::DimensionMismatch(first, second) => {
                let mut text = String::from_str("first_image dimensions ");
                append_dimensions(&mut text, *first);
                text.append(" and second_image dimensions ");
                append_dimensions(&mut text, *second);
                text.append(" do not match");
                text
            },
            ViewerError::TextureUpload { path, cause } => {
                let mut text = String::from_str("cannot create a texture from ");
                text.append(path.as_str());
                text.append(": ");
                text.append(cause.as_str());
                text
            },
            ViewerError::DisplaySurface => String::from_str("the display surface failed"),
        }
    }
}

/// The status with which the process ends: 0 after a run that ended with the
/// window's close, 1 after any error.
pub fn exit_code(outcome: &Result<(), ViewerError>) -> (code: u8)
    ensures
        outcome is Ok ==> code == 0,
        outcome is Err ==> code == 1,
{
    match outcome {
        Ok(_) => 0,
        Err(_) => 1,
    }
}

} // verus!
