//! Pure geometry: rectangles, sizes and reserved strips, in output pixel
//! coordinates.

use vstd::prelude::*;

verus! {

/// A rectangular region in output pixel coordinates. It carries no identity.
#[derive(Clone, Copy, Debug, PartialEq, Eq, Structural)]
pub struct BBox {
    pub x: i32,
    pub y: i32,
    pub width: i32,
    pub height: i32,
}

impl BBox {
    /// Neither extent is negative. Nothing below demands it, but a box that
    /// breaks it covers no point at all (see [`BBox::lemma_ill_formed_is_empty`]).
    pub open spec fn wf(&self) -> bool {
        self.width >= 0 && self.height >= 0
    }

    /// The point `(x, y)` lies in the closed rectangle
    /// `[x, x + width] × [y, y + height]`, both bounds included.
    pub open spec fn covers(&self, x: int, y: int) -> bool {
        &&& self.x <= x <= self.x + self.width
        &&& self.y <= y <= self.y + self.height
    }

    /// Runtime form of [`BBox::wf`].
    pub fn is_well_formed(&self) -> (ok: bool)
        ensures
            ok == self.wf(),
    {
        self.width >= 0 && self.height >= 0
    }

    /// Containment test on coordinates wider than a pixel coordinate, so that
    /// a sum or difference of two pixel coordinates can be tested without
    /// wrapping.
    pub fn contains(&self, x: i64, y: i64) -> (inside: bool)
        ensures
            inside == self.covers(x as int, y as int),
    {
        let max_x: i64 = self.x as i64 + self.width as i64;
        let max_y: i64 = self.y as i64 + self.height as i64;
        (self.x as i64 <= x && x <= max_x) && (self.y as i64 <= y && y <= max_y)
    }

    /// A well-formed box covers its own four corners.
    pub proof fn lemma_well_formed_covers_corners(self)
        requires
            self.wf(),
        ensures
            self.covers(self.x as int, self.y as int),
            self.covers(self.x + self.width, self.y as int),
            self.covers(self.x as int, self.y + self.height),
            self.covers(self.x + self.width, self.y + self.height),
    {
    }

    /// A box with a negative extent covers no point.
    pub proof fn lemma_ill_formed_is_empty(self, x: int, y: int)
        requires
            !self.wf(),
        ensures
            !self.covers(x, y),
    {
    }
}

/// An extent given either in pixels or as a share of the space available.
#[derive(Clone, Copy, Debug, PartialEq, Eq, Structural)]
pub enum Size {
    /// A number of pixels.
    Pixel(i32),
    /// A share of the available space, held as the bit pattern of an
    /// IEEE 754 single-precision number. This crate never computes with it;
    /// it hands the bits on unchanged.
    Ratio(u32),
}

/// Space reserved along the edges of the combined screen area, as a panel or
/// bar claims it: for each edge a thickness and the coordinate at which the
/// strip starts along that edge. An edge with thickness zero reserves nothing.
#[derive(Clone, Copy, Debug, PartialEq, Eq, Structural)]
pub struct DockArea {
    pub top: i32,
    pub top_start_x: i32,
    pub bottom: i32,
    pub bottom_start_x: i32,
    pub left: i32,
    pub left_start_y: i32,
    pub right: i32,
    pub right_start_y: i32,
}

impl DockArea {
    /// The single point by which a dock area is attributed to a screen.
    ///
    /// Edges are tried in the fixed order top, bottom, left, right, and the
    /// first one with a positive thickness decides; the others are not looked
    /// at. `screens_area` is the pair of extents of the combined screen area:
    /// the bottom edge is measured from its first component, the right edge
    /// from its second.
    ///
    /// The pairing of fields for the bottom and right edges is long-standing
    /// behaviour that existing setups rely on. It is stated here exactly as it
    /// is applied, and is not to be read as a derived geometric fact.
    pub open spec fn anchor(&self, screens_area: (i32, i32)) -> Option<(int, int)> {
        if self.top > 0 {
            Some((self.top_start_x as int, self.top as int))
        } else if self.bottom > 0 {
            Some((self.bottom_start_x as int, screens_area.0 - self.bottom))
        } else if self.left > 0 {
            Some((self.left as int, self.left_start_y as int))
        } else if self.right > 0 {
            Some((screens_area.1 - self.right, self.right_start_y as int))
        } else {
            None
        }
    }
}

} // verus!
