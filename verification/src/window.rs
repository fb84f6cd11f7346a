//! Windows as the manager knows them, what the display server reports about
//! a window, and the rule that decides which windows are taken under
//! management.

use vstd::prelude::*;
use crate::geometry::BBox;

verus! {

/// The value of `map_state` that means "viewable": the window is mapped and
/// so are all of its ancestors. This is the one place where the display
/// protocol's numeric code is given its meaning.
pub const IS_VIEWABLE: i32 = 2;

/// Identity of a window or root on the platform.
#[derive(Clone, Copy, Debug, PartialEq, Eq, Hash, Structural)]
pub enum WindowHandle {
    /// A stand-in used where no display is attached.
    MockHandle(i32),
    /// A resource identifier handed out by the display server.
    XlibHandle(u64),
}

/// What the display server reports about one window: its rectangle, the root
/// it belongs to, and the two attributes that decide whether it is managed.
#[derive(Clone, Copy, Debug, PartialEq, Eq, Structural)]
pub struct WindowAttributes {
    pub x: i32,
    pub y: i32,
    pub width: i32,
    pub height: i32,
    pub root: u64,
    pub map_state: i32,
    pub override_redirect: i32,
}

impl WindowAttributes {
    /// The window is mapped and visible.
    pub open spec fn viewable(&self) -> bool {
        self.map_state == IS_VIEWABLE
    }

    /// The window asks the display server to bypass window management, as
    /// menus and tooltips do. By the platform's convention any value above
    /// zero sets the flag.
    pub open spec fn bypasses_management(&self) -> bool {
        self.override_redirect > 0
    }

    /// Whether the manager should track a window with these attributes.
    ///
    /// A window that names a transient owner (a dialog naming its parent) is
    /// eligible exactly when it is viewable. A window without one must in
    /// addition not bypass management.
    pub open spec fn eligible(&self, has_transient_owner: bool) -> bool {
        if has_transient_owner {
            self.viewable()
        } else {
            !self.bypasses_management() && self.viewable()
        }
    }

    pub fn is_viewable(&self) -> (viewable: bool)
        ensures
            viewable == self.viewable(),
    {
        self.map_state == IS_VIEWABLE
    }

    pub fn is_override_redirect(&self) -> (set: bool)
        ensures
            set == self.bypasses_management(),
    {
        self.override_redirect > 0
    }

    /// Decides whether the manager should track a window with these
    /// attributes, given whether it names a transient owner.
    pub fn is_eligible(&self, has_transient_owner: bool) -> (managed: bool)
        ensures
            managed == self.eligible(has_transient_owner),
    {
        if has_transient_owner {
            self.is_viewable()
        } else {
            !self.is_override_redirect() && self.is_viewable()
        }
    }

    /// No window is eligible unless it is viewable, and naming a transient
    /// owner lifts exactly the exclusion of windows that bypass management.
    pub proof fn lemma_eligibility(self, has_transient_owner: bool)
        ensures
            self.eligible(has_transient_owner) ==> self.viewable(),
            self.eligible(true) == self.viewable(),
            self.eligible(false) ==> self.eligible(true),
            self.eligible(has_transient_owner) == (self.viewable() && (has_transient_owner
                || !self.bypasses_management())),
    {
    }
}

/// The text of an optional name.
pub open spec fn name_view(name: Option<String>) -> Option<Seq<char>> {
    match name {
        Some(text) => Some(text@),
        None => None,
    }
}

/// A window under management.
#[derive(Debug, PartialEq, Eq)]
pub struct Window {
    pub handle: WindowHandle,
    pub name: Option<String>,
    /// Position and size that the manager wants the window to have.
    pub geometry: BBox,
}

/// A [`Window`] as a mathematical value.
pub struct WindowView {
    pub handle: WindowHandle,
    pub name: Option<Seq<char>>,
    pub geometry: BBox,
}

impl View for Window {
    type V = WindowView;

    open spec fn view(&self) -> WindowView {
        WindowView { handle: self.handle, name: name_view(self.name), geometry: self.geometry }
    }
}

impl WindowView {
    /// A freshly discovered window: it has no geometry of its own yet.
    pub open spec fn fresh(handle: WindowHandle, name: Option<Seq<char>>) -> WindowView {
        WindowView { handle, name, geometry: BBox { x: 0, y: 0, width: 0, height: 0 } }
    }
}

/// A copy of an optional name.
pub fn clone_name(name: &Option<String>) -> (copy: Option<String>)
    ensures
        copy == *name,
{
    match name {
        Some(text) => Some(text.clone()),
        None => None,
    }
}

impl Window {
    pub fn new(handle: WindowHandle, name: Option<String>) -> (window: Window)
        ensures
            window@ == WindowView::fresh(handle, name_view(name)),
            window.name == name,
    {
        Window { handle, name, geometry: BBox { x: 0, y: 0, width: 0, height: 0 } }
    }
}

impl Clone for Window {
    fn clone(&self) -> (copy: Window)
        ensures
            copy == *self,
    {
        Window { handle: self.handle, name: clone_name(&self.name), geometry: self.geometry }
    }
}

/// The views of a sequence of windows, in order.
pub open spec fn window_views(windows: Seq<Window>) -> Seq<WindowView> {
    windows.map_values(|w: Window| w@)
}

/// Everything the display server was asked about one top-level window while
/// the existing windows are enumerated.
#[derive(Debug, PartialEq, Eq)]
pub struct WindowProbe {
    /// The window's resource identifier.
    pub handle: u64,
    /// The window's attributes, or `None` where the query for them failed.
    pub attrs: Option<WindowAttributes>,
    /// The window that this one names as its transient owner, if any.
    pub transient_for: Option<u64>,
    /// The window's name. It is only read for a window that is managed.
    pub name: Option<String>,
}

impl WindowProbe {
    /// The attribute query for this window failed.
    pub open spec fn query_failed(&self) -> bool {
        self.attrs is None
    }

    /// The window is taken under management: its attributes are known and
    /// make it eligible.
    pub open spec fn managed(&self) -> bool {
        match self.attrs {
            Some(attrs) => attrs.eligible(self.transient_for is Some),
            None => false,
        }
    }

    /// The window that a managed probe gives rise to.
    pub open spec fn window(&self) -> WindowView {
        WindowView::fresh(WindowHandle::XlibHandle(self.handle), name_view(self.name))
    }

    /// Whether this window is taken under management. A caller that fills in
    /// probes can ask this before it fetches the name.
    pub fn is_managed(&self) -> (managed: bool)
        ensures
            managed == self.managed(),
    {
        match &self.attrs {
            Some(attrs) => attrs.is_eligible(self.transient_for.is_some()),
            None => false,
        }
    }

    /// The window for this probe.
    pub fn to_window(&self) -> (window: Window)
        ensures
            window@ == self.window(),
    {
        Window::new(WindowHandle::XlibHandle(self.handle), clone_name(&self.name))
    }
}

} // verus!
