//! Packing of many images into one square texture, row by row.
//!
//! The packer works on pixel counts alone. It decides where each image goes
//! and which copies of it have to be painted so that sampling at its border
//! never reads a neighbour; painting is left to the caller.
use vstd::prelude::*;

verus! {

/// Side of the square atlas surface, in pixels.
pub const TEXTURE_SIZE: u32 = 4096;

/// Width of the border of repeated edge pixels around every image.
pub const BLEED: u32 = 1;

/// A region of the atlas surface, in pixels. Divided by `TEXTURE_SIZE`,
/// position and size are the normalized texture coordinates of the region.
#[derive(Clone, Copy, Debug, PartialEq, Eq)]
pub struct TextureRect {
    pub position: (u32, u32),
    pub size: (u32, u32),
}

/// The region to use for geometry that has a color and no texture: it
/// samples the white pixel in the corner of every atlas.
pub fn no_texture_rect() -> (region: TextureRect)
    ensures
        region.position == (0u32, 0u32),
        region.size == (0u32, 0u32),
{
    TextureRect { position: (0, 0), size: (0, 0) }
}

/// The image does not fit into what is left of the atlas surface.
#[derive(Clone, Copy, Debug, PartialEq, Eq, Structural)]
pub struct AtlasOverflow;

/// A rectangle of pixels: `left <= x < right` and `top <= y < bottom`.
pub ghost struct Area {
    pub left: int,
    pub top: int,
    pub right: int,
    pub bottom: int,
}

impl Area {
    /// The two rectangles have no pixel in common.
    pub open spec fn disjoint(self, other: Area) -> bool {
        ||| self.right <= other.left
        ||| other.right <= self.left
        ||| self.bottom <= other.top
        ||| other.bottom <= self.top
    }

    /// The rectangle lies on the atlas surface.
    pub open spec fn on_surface(self) -> bool {
        &&& 0 <= self.left <= self.right <= TEXTURE_SIZE
        &&& 0 <= self.top <= self.bottom <= TEXTURE_SIZE
    }

    /// The white pixel that every atlas keeps in its corner.
    pub open spec fn white_pixel() -> Area {
        Area { left: 0, top: 0, right: 1, bottom: 1 }
    }
}

impl TextureRect {
    /// The pixels of the image itself.
    pub open spec fn interior(self) -> Area {
        Area {
            left: self.position.0 as int,
            top: self.position.1 as int,
            right: self.position.0 + self.size.0,
            bottom: self.position.1 + self.size.1,
        }
    }

    /// The pixels of the image together with its border.
    pub open spec fn footprint(self) -> Area {
        Area {
            left: self.position.0 - BLEED,
            top: self.position.1 - BLEED,
            right: self.position.0 + self.size.0 + BLEED,
            bottom: self.position.1 + self.size.1 + BLEED,
        }
    }

    /// Where the copies of the image go, in painting order: the first
    /// eight, each one pixel off the true position, leave the border; the
    /// last is the true position.
    pub open spec fn copy_origins(self) -> Seq<(u32, u32)> {
        let x = self.position.0;
        let y = self.position.1;
        seq![
            ((x - 1) as u32, (y - 1) as u32),
            ((x + 1) as u32, (y - 1) as u32),
            ((x - 1) as u32, (y + 1) as u32),
            ((x + 1) as u32, (y + 1) as u32),
            ((x - 1) as u32, y),
            ((x + 1) as u32, y),
            (x, (y - 1) as u32),
            (x, (y + 1) as u32),
            (x, y),
        ]
    }

    /// Whether there is a pixel on every side of the position.
    pub open spec fn has_room_for_border(self) -> bool {
        &&& 1 <= self.position.0 < u32::MAX
        &&& 1 <= self.position.1 < u32::MAX
    }

    /// The origins at which to paint the image so that its border repeats
    /// its edge: paint it at each of the first eight, clear the interior,
    /// then paint it at the last. `None` when the position leaves no room
    /// for a border.
    pub fn bleed_origins(&self) -> (origins: Option<[(u32, u32); 9]>)
        ensures
            match origins {
                Some(list) => self.has_room_for_border() && list@ == self.copy_origins(),
                None => !self.has_room_for_border(),
            },
    {
        let x: u32 = self.position.0;
        let y: u32 = self.position.1;
        if x < 1 || x == u32::MAX || y < 1 || y == u32::MAX {
            return None;
        }
        let list: [(u32, u32); 9] = [
            (x - 1, y - 1),
            (x + 1, y - 1),
            (x - 1, y + 1),
            (x + 1, y + 1),
            (x - 1, y),
            (x + 1, y),
            (x, y - 1),
            (x, y + 1),
            (x, y),
        ];
        assert(list@ =~= self.copy_origins());
        Some(list)
    }
}

/// The packing cursor: where the next image of the current row starts, and
/// where the next row starts.
pub ghost struct Cursor {
    pub x: int,
    pub y: int,
    pub next_y: int,
}

impl Cursor {
    /// The cursor of a new atlas, just right of the white pixel.
    pub open spec fn start() -> Cursor {
        Cursor { x: 1, y: 0, next_y: 1 }
    }

    /// Whether an image of this width has to start a new row.
    pub open spec fn wraps(self, width: int) -> bool {
        self.x + width + 2 * BLEED > TEXTURE_SIZE
    }

    /// The corner at which the footprint of an image of this width starts.
    pub open spec fn corner(self, width: int) -> (int, int) {
        if self.wraps(width) {
            (0, self.next_y)
        } else {
            (self.x, self.y)
        }
    }

    /// Whether an image of this size, with its border, fits on the surface.
    pub open spec fn fits(self, width: int, height: int) -> bool {
        &&& self.corner(width).0 + width + 2 * BLEED <= TEXTURE_SIZE
        &&& self.corner(width).1 + height + 2 * BLEED <= TEXTURE_SIZE
    }

    /// The region given to an image of this size.
    pub open spec fn region(self, width: u32, height: u32) -> TextureRect {
        TextureRect {
            position: (
                (self.corner(width as int).0 + BLEED) as u32,
                (self.corner(width as int).1 + BLEED) as u32,
            ),
            size: (width, height),
        }
    }

    /// The cursor after an image of this size was placed.
    pub open spec fn advanced(self, width: int, height: int) -> Cursor {
        let below = self.corner(width).1 + height + 2 * BLEED;
        Cursor {
            x: self.corner(width).0 + width + 2 * BLEED,
            y: self.corner(width).1,
            next_y: if self.next_y > below {
                self.next_y
            } else {
                below
            },
        }
    }
}

/// Hands out regions of the atlas surface, filling it row by row.
pub struct AtlasBuilder {
    x: u32,
    y: u32,
    next_y: u32,
    placed: Ghost<Seq<TextureRect>>,
}

impl AtlasBuilder {
    /// The packing cursor.
    pub closed spec fn cursor(&self) -> Cursor {
        Cursor { x: self.x as int, y: self.y as int, next_y: self.next_y as int }
    }

    /// The regions handed out so far, oldest first.
    pub closed spec fn placed(&self) -> Seq<TextureRect> {
        self.placed@
    }

    /// The invariant of a packer: every footprint handed out lies on the
    /// surface, off the white pixel, behind the cursor, and apart from every
    /// other.
    pub open spec fn wf(&self) -> bool {
        let cursor = self.cursor();
        let placed = self.placed();
        &&& 0 <= cursor.x <= TEXTURE_SIZE
        &&& 0 <= cursor.y <= cursor.next_y <= TEXTURE_SIZE
        &&& 1 <= cursor.next_y
        &&& cursor.y == 0 ==> 1 <= cursor.x
        &&& forall|i: int|
            0 <= i < placed.len() ==> {
                let taken = (#[trigger] placed[i]).footprint();
                &&& taken.on_surface()
                &&& taken.disjoint(Area::white_pixel())
                &&& taken.bottom <= cursor.next_y
                &&& taken.bottom <= cursor.y || (taken.top == cursor.y && taken.right <= cursor.x)
            }
        &&& forall|i: int, j: int|
            0 <= i < j < placed.len() ==> (#[trigger] placed[i]).footprint().disjoint(
                (#[trigger] placed[j]).footprint(),
            )
    }

    /// A packer for an empty surface.
    pub fn new() -> (packer: AtlasBuilder)
        ensures
            packer.wf(),
            packer.cursor() == Cursor::start(),
            packer.placed() == Seq::<TextureRect>::empty(),
    {
        AtlasBuilder { x: 1, y: 0, next_y: 1, placed: Ghost(Seq::empty()) }
    }

    /// The packing cursor: where the next image of the current row starts,
    /// the top of the current row, and the top of the next row.
    pub fn cursor_position(&self) -> (at: (u32, u32, u32))
        ensures
            self.cursor() == (Cursor { x: at.0 as int, y: at.1 as int, next_y: at.2 as int }),
    {
        (self.x, self.y, self.next_y)
    }

    /// Reserves room for an image of `width` by `height` pixels and returns
    /// the region of the image itself. The image goes behind the last one
    /// of the current row, or opens a new row below when the current row is
    /// too short for it. When it does not fit on the surface even then, the
    /// packer stays as it was.
    pub fn insert_image(&mut self, width: u32, height: u32) -> (r: Result<
        TextureRect,
        AtlasOverflow,
    >)
        requires
            old(self).wf(),
        ensures
            final(self).wf(),
            old(self).cursor().fits(width as int, height as int) ==> {
                &&& r == Ok::<TextureRect, AtlasOverflow>(old(self).cursor().region(width, height))
                &&& final(self).cursor() == old(self).cursor().advanced(
                    width as int,
                    height as int,
                )
                &&& final(self).placed() == old(self).placed().push(r.unwrap())
            },
            !old(self).cursor().fits(width as int, height as int) ==> {
                &&& r == Err::<TextureRect, AtlasOverflow>(AtlasOverflow)
                &&& *final(self) == *old(self)
            },
            r is Ok ==> {
                &&& r.unwrap().footprint().on_surface()
                &&& r.unwrap().footprint().disjoint(Area::white_pixel())
                &&& r.unwrap().has_room_for_border()
                &&& forall|i: int|
                    0 <= i < old(self).placed().len() ==> (#[trigger] old(self).placed()[i])
                        .footprint().disjoint(r.unwrap().footprint())
            },
    {
        let limit: u64 = TEXTURE_SIZE as u64;
        let padded_width: u64 = width as u64 + 2 * (BLEED as u64);
        let padded_height: u64 = height as u64 + 2 * (BLEED as u64);
        let wraps: bool = self.x as u64 + padded_width > limit;
        let corner_x: u32 = if wraps {
            0
        } else {
            self.x
        };
        let corner_y: u32 = if wraps {
            self.next_y
        } else {
            self.y
        };
        if corner_x as u64 + padded_width > limit || corner_y as u64 + padded_height > limit {
            return Err(AtlasOverflow);
        }
        let region = TextureRect {
            position: (corner_x + BLEED, corner_y + BLEED),
            size: (width, height),
        };
        let below: u32 = corner_y + height + 2 * BLEED;
        self.x = corner_x + width + 2 * BLEED;
        self.y = corner_y;
        if below > self.next_y {
            self.next_y = below;
        }
        self.placed = Ghost(self.placed@.push(region));
        Ok(region)
    }
}

/// Images whose footprints are apart are apart themselves.
pub proof fn lemma_apart_footprints_apart_images(a: TextureRect, b: TextureRect)
    requires
        a.footprint().disjoint(b.footprint()),
    ensures
        a.interior().disjoint(b.interior()),
{
}

/// An image that is, with its border, wider or higher than the surface
/// fits nowhere, wherever the cursor stands.
pub proof fn lemma_oversized_never_fits(cursor: Cursor, width: int, height: int)
    requires
        0 <= cursor.x,
        0 <= cursor.y,
        0 <= cursor.next_y,
        width + 2 * BLEED > TEXTURE_SIZE || height + 2 * BLEED > TEXTURE_SIZE,
    ensures
        !cursor.fits(width, height),
{
}

/// An image that does not fit behind the last one of the current row goes
/// to the start of a new row, below everything placed so far.
pub proof fn lemma_wrap_opens_row(cursor: Cursor, width: u32, height: u32)
    requires
        cursor.wraps(width as int),
        cursor.fits(width as int, height as int),
        0 <= cursor.next_y,
    ensures
        cursor.region(width, height).position == ((BLEED, (cursor.next_y + BLEED) as u32)),
        cursor.region(width, height).footprint().left == 0,
        cursor.region(width, height).footprint().top == cursor.next_y,
        cursor.advanced(width as int, height as int).y == cursor.next_y,
{
}

} // verus!
