//! The frame: what is drawn for one cut position.
//!
//! A frame clears the canvas and then draws two rectangles, one from each
//! image. The part of the first image left of the cut goes to the canvas's
//! left, the part of the second image right of the cut goes to its right, each
//! at the place it has in its image.

use vstd::prelude::*;

use crate::dimensions::Dimensions;

verus! {

/// A colour, with its opacity.
#[derive(Clone, Copy, Debug, PartialEq, Eq, Structural)]
pub struct Rgba {
    pub red: u8,
    pub green: u8,
    pub blue: u8,
    pub alpha: u8,
}

impl Rgba {
    /// Opaque white, the colour of the canvas where no image is drawn.
    pub open spec fn white() -> Rgba {
        Rgba { red: 255, green: 255, blue: 255, alpha: 255 }
    }
}

/// The colour to which every frame clears the canvas: opaque white.
pub fn background() -> (color: Rgba)
    ensures
        color == Rgba::white(),
{
    Rgba { red: 255, green: 255, blue: 255, alpha: 255 }
}

/// An axis-aligned rectangle of pixels: its top left corner and its size.
#[derive(Clone, Copy, Debug, PartialEq, Eq, Structural)]
pub struct Rect {
    pub x: u32,
    pub y: u32,
    pub width: u32,
    pub height: u32,
}

impl Rect {
    /// Whether the pixel in column `px` and row `py` lies in the rectangle.
    pub open spec fn covers(self, px: int, py: int) -> bool {
        &&& self.x <= px < self.x + self.width
        &&& self.y <= py < self.y + self.height
    }

    /// The pixels of the rectangle, each as column and row.
    pub open spec fn pixels(self) -> Set<(int, int)> {
        Set::new(|p: (int, int)| self.covers(p.0, p.1))
    }

    /// Whether the pixel in column `px` and row `py` lies in the rectangle.
    pub fn contains(&self, px: u32, py: u32) -> (inside: bool)
        ensures
            inside == self.covers(px as int, py as int),
    {
        px >= self.x && px - self.x < self.width && py >= self.y && py - self.y < self.height
    }
}

impl Dimensions {
    /// The rectangle that an image of these dimensions fills on the canvas.
    pub open spec fn bounds(self) -> Rect {
        Rect { x: 0, y: 0, width: self.width, height: self.height }
    }
}

/// Pixels and their colours, each pixel named by column and row: the model of
/// an image's content and of the canvas.
pub type Raster = Map<(int, int), Rgba>;

/// One of the two images.
#[derive(Clone, Copy, Debug, PartialEq, Eq, Structural)]
pub enum Side {
    /// The first image, shown left of the cut.
    Left,
    /// The second image, shown right of the cut.
    Right,
}

impl Side {
    /// The image that the side names, of `first` and `second`.
    pub open spec fn of(self, first: Raster, second: Raster) -> Raster {
        match self {
            Side::Left => first,
            Side::Right => second,
        }
    }
}

/// One draw call: a region of one image, and where on the canvas its top left
/// corner goes. The region is drawn in its own size.
#[derive(Clone, Copy, Debug, PartialEq, Eq, Structural)]
pub struct DrawCall {
    /// The image to draw from.
    pub texture: Side,
    /// The region of the image that is drawn.
    pub source: Rect,
    /// The canvas column of the region's left edge.
    pub dest_x: u32,
    /// The canvas row of the region's top edge.
    pub dest_y: u32,
}

impl DrawCall {
    /// The region of the canvas that the call writes.
    pub open spec fn destination(self) -> Rect {
        Rect { x: self.dest_x, y: self.dest_y, width: self.source.width, height: self.source.height }
    }

    /// The region of the canvas that the call writes.
    pub fn destination_rect(&self) -> (rect: Rect)
        ensures
            rect == self.destination(),
    {
        Rect { x: self.dest_x, y: self.dest_y, width: self.source.width, height: self.source.height }
    }

    /// The canvas after the call, drawing from `image`. A pixel of the
    /// destination takes the colour of the image's pixel that lies as far from
    /// the source region's corner as it lies from the destination's; every
    /// other pixel of the canvas keeps its colour.
    pub open spec fn drawn(self, image: Raster, canvas: Raster) -> Raster {
        Map::new(
            |p: (int, int)| canvas.dom().contains(p),
            |p: (int, int)|
                if self.destination().covers(p.0, p.1) {
                    image[(p.0 - self.dest_x + self.source.x, p.1 - self.dest_y + self.source.y)]
                } else {
                    canvas[p]
                },
        )
    }
}

/// What is drawn for one frame: the canvas is cleared to `background`, then
/// `left` is drawn, then `right`.
#[derive(Clone, Copy, Debug, PartialEq, Eq, Structural)]
pub struct Frame {
    pub background: Rgba,
    pub left: DrawCall,
    pub right: DrawCall,
}

impl Frame {
    /// The frame for a cut at `cut_at` on images of dimensions `dims`.
    pub open spec fn split(cut_at: u32, dims: Dimensions) -> Frame {
        Frame {
            background: Rgba::white(),
            left: DrawCall {
                texture: Side::Left,
                source: Rect { x: 0, y: 0, width: cut_at, height: dims.height },
                dest_x: 0,
                dest_y: 0,
            },
            right: DrawCall {
                texture: Side::Right,
                source: Rect {
                    x: cut_at,
                    y: 0,
                    width: (dims.width - cut_at) as u32,
                    height: dims.height,
                },
                dest_x: cut_at,
                dest_y: 0,
            },
        }
    }

    /// The canvas after the frame is drawn with `first` as the left image and
    /// `second` as the right one: cleared to the background, then written by
    /// the left call, then by the right call.
    pub open spec fn painted(self, first: Raster, second: Raster, canvas: Raster) -> Raster {
        let cleared = Map::new(|p: (int, int)| canvas.dom().contains(p), |p: (int, int)| self.background);
        let after_left = self.left.drawn(self.left.texture.of(first, second), cleared);
        self.right.drawn(self.right.texture.of(first, second), after_left)
    }

    /// Whether the two destination rectangles tile `area`: together they cover
    /// all of it and nothing else, and no pixel lies in both.
    pub open spec fn tiles(self, area: Rect) -> bool {
        &&& self.left.destination().pixels().union(self.right.destination().pixels())
            == area.pixels()
        &&& self.left.destination().pixels().intersect(self.right.destination().pixels())
            == Set::<(int, int)>::empty()
    }
}

/// The frame for a cut at `cut_at` on images of dimensions `dims`.
///
/// The first image's region from its left edge to the cut is drawn at the
/// canvas's origin; the second image's region from the cut to its right edge is
/// drawn at the cut. With the cut at 0 only the second image shows, with the
/// cut at the full width only the first. The cut must already be clamped to the
/// width; this function does not clamp.
pub fn render(cut_at: u32, dims: Dimensions) -> (frame: Frame)
    requires
        cut_at <= dims.width,
    ensures
        frame == Frame::split(cut_at, dims),
        frame.tiles(dims.bounds()),
{
    proof {
        lemma_split_tiles(cut_at, dims);
    }
    Frame {
        background: background(),
        left: DrawCall {
            texture: Side::Left,
            source: Rect { x: 0, y: 0, width: cut_at, height: dims.height },
            dest_x: 0,
            dest_y: 0,
        },
        right: DrawCall {
            texture: Side::Right,
            source: Rect { x: cut_at, y: 0, width: dims.width - cut_at, height: dims.height },
            dest_x: cut_at,
            dest_y: 0,
        },
    }
}

/// For every cut from 0 to the images' width, the two destination rectangles
/// of the frame tile the image area: their union is the whole area and their
/// intersection is empty.
pub proof fn lemma_split_tiles(cut_at: u32, dims: Dimensions)
    requires
        cut_at <= dims.width,
    ensures
        Frame::split(cut_at, dims).tiles(dims.bounds()),
{
    let frame = Frame::split(cut_at, dims);
    let left = frame.left.destination().pixels();
    let right = frame.right.destination().pixels();
    assert(left.union(right) =~= dims.bounds().pixels());
    assert(left.intersect(right) =~= Set::<(int, int)>::empty());
}

/// What a frame shows. Each pixel of the canvas inside the image area shows
/// the pixel at its own place in one of the images: the first left of the cut,
/// the second from the cut on. Each pixel outside the area is white. Nothing
/// of what the canvas held before is left.
pub proof fn lemma_painted_pixels(
    cut_at: u32,
    dims: Dimensions,
    first: Raster,
    second: Raster,
    canvas: Raster,
)
    requires
        cut_at <= dims.width,
    ensures
        Frame::split(cut_at, dims).painted(first, second, canvas).dom() == canvas.dom(),
        forall|p: (int, int)| #[trigger]
            canvas.dom().contains(p) ==> Frame::split(cut_at, dims).painted(
                first,
                second,
                canvas,
            )[p] == (if !dims.bounds().covers(p.0, p.1) {
                Rgba::white()
            } else if p.0 < cut_at {
                first[p]
            } else {
                second[p]
            }),
{
    let painted = Frame::split(cut_at, dims).painted(first, second, canvas);
    assert(painted.dom() =~= canvas.dom());
}

/// Drawing a frame is idempotent. On canvases of the same pixels, the same
/// cut, dimensions and images give the same colours whatever the canvas held
/// before, so drawing the frame a second time changes nothing.
pub proof fn lemma_render_idempotent(
    cut_at: u32,
    dims: Dimensions,
    first: Raster,
    second: Raster,
    canvas: Raster,
    other: Raster,
)
    requires
        cut_at <= dims.width,
        canvas.dom() == other.dom(),
    ensures
        Frame::split(cut_at, dims).painted(first, second, canvas) == Frame::split(
            cut_at,
            dims,
        ).painted(first, second, other),
        Frame::split(cut_at, dims).painted(
            first,
            second,
            Frame::split(cut_at, dims).painted(first, second, canvas),
        ) == Frame::split(cut_at, dims).painted(first, second, canvas),
{
    let frame = Frame::split(cut_at, dims);
    let once = frame.painted(first, second, canvas);
    assert(once =~= frame.painted(first, second, other));
    assert(frame.painted(first, second, once) =~= once);
}

} // verus!
