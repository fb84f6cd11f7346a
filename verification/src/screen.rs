//! One physical output as the manager knows it.

use vstd::prelude::*;
use vstd::std_specs::convert::FromSpecImpl;
use crate::geometry::{BBox, DockArea, Size};
use crate::topology::{Monitor, XineramaScreenInfo};
use crate::window::{WindowAttributes, WindowHandle};

verus! {

/// One physical output: where it lies, which root it belongs to and which
/// workspace has been assigned to it.
#[derive(Clone, Copy, Debug, PartialEq, Eq, Structural)]
pub struct Screen {
    /// The root that the output belongs to; a mock handle where none is
    /// known.
    pub root: WindowHandle,
    pub bbox: BBox,
    /// The id of the workspace assigned to this screen, if any.
    pub wsid: Option<i32>,
    pub max_window_width: Option<Size>,
}

impl Screen {
    /// A screen that is known by its rectangle alone.
    pub open spec fn bare(bbox: BBox) -> Screen {
        Screen { root: WindowHandle::MockHandle(0), bbox, wsid: None, max_window_width: None }
    }

    #[must_use]
    pub fn new(bbox: BBox) -> (screen: Screen)
        ensures
            screen == Screen::bare(bbox),
    {
        Screen { root: WindowHandle::MockHandle(0), bbox, wsid: None, max_window_width: None }
    }

    /// Whether the point lies on this screen, bounds included.
    #[must_use]
    pub fn contains_point(&self, x: i32, y: i32) -> (inside: bool)
        ensures
            inside == self.bbox.covers(x as int, y as int),
    {
        self.bbox.contains(x as i64, y as i64)
    }

    /// Whether the reserved strip `dock_area` belongs to this screen: it does
    /// when the screen covers the strip's anchor point, and a dock area that
    /// reserves nothing belongs to no screen.
    #[must_use]
    pub fn contains_dock_area(&self, dock_area: DockArea, screens_area: (i32, i32)) -> (inside: bool)
        ensures
            inside == match dock_area.anchor(screens_area) {
                Some((x, y)) => self.bbox.covers(x, y),
                None => false,
            },
    {
        if dock_area.top > 0 {
            return self.bbox.contains(dock_area.top_start_x as i64, dock_area.top as i64);
        }
        if dock_area.bottom > 0 {
            return self.bbox.contains(
                dock_area.bottom_start_x as i64,
                screens_area.0 as i64 - dock_area.bottom as i64,
            );
        }
        if dock_area.left > 0 {
            return self.bbox.contains(dock_area.left as i64, dock_area.left_start_y as i64);
        }
        if dock_area.right > 0 {
            return self.bbox.contains(
                screens_area.1 as i64 - dock_area.right as i64,
                dock_area.right_start_y as i64,
            );
        }
        false
    }
}

impl Default for Screen {
    /// An 800 by 600 screen at the origin.
    fn default() -> (screen: Screen)
        ensures
            screen == Screen::bare(BBox { x: 0, y: 0, width: 800, height: 600 }),
    {
        Screen {
            root: WindowHandle::MockHandle(0),
            bbox: BBox { height: 600, width: 800, x: 0, y: 0 },
            wsid: None,
            max_window_width: None,
        }
    }
}

impl From<&Monitor> for BBox {
    fn from(m: &Monitor) -> (bbox: BBox) {
        BBox { x: m.x, y: m.y, width: m.width_px, height: m.height_px }
    }
}

impl FromSpecImpl<&Monitor> for BBox {
    open spec fn obeys_from_spec() -> bool {
        true
    }

    /// The monitor's rectangle in pixels.
    open spec fn from_spec(m: &Monitor) -> BBox {
        BBox { x: m.x, y: m.y, width: m.width_px, height: m.height_px }
    }
}

impl From<&Monitor> for Screen {
    fn from(monitor: &Monitor) -> (screen: Screen) {
        Screen {
            root: WindowHandle::MockHandle(0),
            bbox: BBox {
                x: monitor.x,
                y: monitor.y,
                width: monitor.width_px,
                height: monitor.height_px,
            },
            wsid: None,
            max_window_width: None,
        }
    }
}

impl FromSpecImpl<&Monitor> for Screen {
    open spec fn obeys_from_spec() -> bool {
        true
    }

    /// A screen that covers the monitor and belongs to no root or workspace
    /// yet.
    open spec fn from_spec(monitor: &Monitor) -> Screen {
        Screen::bare(
            BBox { x: monitor.x, y: monitor.y, width: monitor.width_px, height: monitor.height_px },
        )
    }
}

impl From<&WindowAttributes> for Screen {
    fn from(root: &WindowAttributes) -> (screen: Screen) {
        Screen {
            root: WindowHandle::XlibHandle(root.root),
            bbox: BBox { height: root.height, width: root.width, x: root.x, y: root.y },
            wsid: None,
            max_window_width: None,
        }
    }
}

impl FromSpecImpl<&WindowAttributes> for Screen {
    open spec fn obeys_from_spec() -> bool {
        true
    }

    /// A screen that covers a root window, from that window's attributes. It
    /// keeps the root's identity.
    open spec fn from_spec(root: &WindowAttributes) -> Screen {
        Screen {
            root: WindowHandle::XlibHandle(root.root),
            bbox: BBox { x: root.x, y: root.y, width: root.width, height: root.height },
            wsid: None,
            max_window_width: None,
        }
    }
}

impl From<&XineramaScreenInfo> for Screen {
    fn from(root: &XineramaScreenInfo) -> (screen: Screen) {
        Screen {
            root: WindowHandle::MockHandle(0),
            bbox: BBox {
                height: root.height as i32,
                width: root.width as i32,
                x: root.x_org as i32,
                y: root.y_org as i32,
            },
            wsid: None,
            max_window_width: None,
        }
    }
}

impl FromSpecImpl<&XineramaScreenInfo> for Screen {
    open spec fn obeys_from_spec() -> bool {
        true
    }

    /// A screen that covers one head of a multi-head display. The sixteen-bit
    /// origin and extents are widened without change of value.
    open spec fn from_spec(root: &XineramaScreenInfo) -> Screen {
        Screen::bare(
            BBox {
                x: root.x_org as i32,
                y: root.y_org as i32,
                width: root.width as i32,
                height: root.height as i32,
            },
        )
    }
}

} // verus!
