//! The facts that the adapter hands to the rest of the window manager.

use vstd::prelude::*;
use crate::screen::Screen;
use crate::window::{Window, WindowHandle, WindowView};

verus! {

/// One fact about the session. Items are queued in the order in which they
/// are emitted, and each is consumed at most once.
#[derive(Debug, PartialEq, Eq)]
pub enum EventQueueItem {
    /// A physical output exists.
    ScreenCreate(Screen),
    /// A window exists and is to be managed.
    WindowCreate(Window),
    /// A window is gone.
    WindowDestroy(WindowHandle),
}

/// An [`EventQueueItem`] as a mathematical value.
pub enum EventView {
    ScreenCreate(Screen),
    WindowCreate(WindowView),
    WindowDestroy(WindowHandle),
}

impl View for EventQueueItem {
    type V = EventView;

    open spec fn view(&self) -> EventView {
        match *self {
            EventQueueItem::ScreenCreate(screen) => EventView::ScreenCreate(screen),
            EventQueueItem::WindowCreate(window) => EventView::WindowCreate(window@),
            EventQueueItem::WindowDestroy(handle) => EventView::WindowDestroy(handle),
        }
    }
}

/// The views of a sequence of event items, in order.
pub open spec fn event_views(events: Seq<EventQueueItem>) -> Seq<EventView> {
    events.map_values(|e: EventQueueItem| e@)
}

/// One `ScreenCreate` for each screen, in order.
pub open spec fn screen_events(screens: Seq<Screen>) -> Seq<EventView> {
    screens.map_values(|s: Screen| EventView::ScreenCreate(s))
}

/// One `WindowCreate` for each window, in order.
pub open spec fn window_events(windows: Seq<WindowView>) -> Seq<EventView> {
    windows.map_values(|w: WindowView| EventView::WindowCreate(w))
}

} // verus!
