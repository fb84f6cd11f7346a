//! Turning a workspace configuration into a concrete screen.
//!
//! A configuration either gives its rectangle outright, or names an output
//! whose rectangle is looked up among the monitors that are attached. The
//! caller makes the topology query, and only where
//! [`Workspace::needs_topology`] says that the answer will be read.

use vstd::prelude::*;
use crate::config::Workspace;
use crate::geometry::BBox;
use crate::screen::Screen;
use crate::topology::{
    find_monitor, first_named, has_named, is_first_named, lemma_first_named_unique, Monitor,
    Topology,
};
use crate::window::WindowHandle;

verus! {

/// Why a workspace configuration could not be turned into a screen.
#[derive(Clone, Copy, Debug, PartialEq, Eq, Structural)]
pub enum ResolveError {
    /// The configuration names an output, and the monitors could not be
    /// queried.
    TopologyUnavailable,
    /// The configuration names an output that no attached monitor bears.
    MonitorNotFound,
    /// The configuration names no output and gives only part of a rectangle.
    AmbiguousWorkspaceConfig,
}

/// `value` where it is given, else `fallback`.
pub open spec fn or_else(value: Option<i32>, fallback: i32) -> i32 {
    match value {
        Some(v) => v,
        None => fallback,
    }
}

impl Screen {
    /// The screen of a configuration that gives its whole rectangle.
    pub open spec fn literal(wsc: Workspace) -> Screen
        recommends
            wsc.literal(),
    {
        Screen {
            root: WindowHandle::MockHandle(0),
            bbox: BBox {
                x: wsc.x->Some_0,
                y: wsc.y->Some_0,
                width: wsc.width->Some_0,
                height: wsc.height->Some_0,
            },
            wsid: wsc.id,
            max_window_width: wsc.max_window_width,
        }
    }

    /// The screen of a configuration that names the output `monitor`: each
    /// coordinate is taken from the configuration where it is given there and
    /// from the monitor otherwise.
    ///
    /// One coordinate is an exception that existing configurations depend on:
    /// the vertical origin follows the configured *horizontal* origin `x`,
    /// and a configured `y` is not read. It is kept as it is, and stated here
    /// so that nobody takes it for the rule of the other three.
    pub open spec fn on_monitor(wsc: Workspace, monitor: Monitor) -> Screen {
        Screen {
            root: WindowHandle::MockHandle(0),
            bbox: BBox {
                x: or_else(wsc.x, monitor.x),
                y: or_else(wsc.x, monitor.y),
                width: or_else(wsc.width, monitor.width_px),
                height: or_else(wsc.height, monitor.height_px),
            },
            wsid: wsc.id,
            max_window_width: wsc.max_window_width,
        }
    }

    /// What a configuration resolves to against a topology.
    ///
    /// * A configuration that names an output is resolved on the first
    ///   monitor of that name, whatever coordinates it gives besides. Without
    ///   a topology it fails as `TopologyUnavailable`, without such a monitor
    ///   as `MonitorNotFound`.
    /// * One that names none and gives all four coordinates is taken
    ///   literally; the topology is not read.
    /// * Any other fails as `AmbiguousWorkspaceConfig`.
    pub open spec fn resolution(wsc: Workspace, topology: Topology) -> Result<Screen, ResolveError> {
        match wsc.output_name {
            Some(name) => match topology {
                Topology::Unavailable => Err(ResolveError::TopologyUnavailable),
                Topology::Monitors(monitors) => if has_named(monitors@, name@) {
                    Ok(Screen::on_monitor(wsc, monitors@[first_named(monitors@, name@)]))
                } else {
                    Err(ResolveError::MonitorNotFound)
                },
            },
            None => if wsc.literal() {
                Ok(Screen::literal(wsc))
            } else {
                Err(ResolveError::AmbiguousWorkspaceConfig)
            },
        }
    }

    /// Resolves a workspace configuration to a screen.
    ///
    /// `topology` is read only where the configuration names an output; for
    /// any other configuration the caller may pass `Topology::Unavailable`
    /// without having asked the display server anything.
    pub fn try_from(wsc: &Workspace, topology: &Topology) -> (resolved: Result<Screen, ResolveError>)
        ensures
            resolved == Screen::resolution(*wsc, *topology),
    {
        match &wsc.output_name {
            None => match (wsc.x, wsc.y, wsc.width, wsc.height) {
                (Some(x), Some(y), Some(width), Some(height)) => Ok(
                    Screen {
                        root: WindowHandle::MockHandle(0),
                        wsid: wsc.id,
                        max_window_width: wsc.max_window_width,
                        bbox: BBox { x, y, width, height },
                    },
                ),
                _ => Err(ResolveError::AmbiguousWorkspaceConfig),
            },
            Some(name) => match topology {
                Topology::Unavailable => Err(ResolveError::TopologyUnavailable),
                Topology::Monitors(monitors) => match find_monitor(monitors, name) {
                    None => Err(ResolveError::MonitorNotFound),
                    Some(i) => {
                        proof {
                            lemma_first_named_unique(monitors@, name@, i as int);
                        }
                        let monitor = &monitors[i];
                        Ok(
                            Screen {
                                root: WindowHandle::MockHandle(0),
                                wsid: wsc.id,
                                max_window_width: wsc.max_window_width,
                                bbox: BBox {
                                    x: wsc.x.unwrap_or(monitor.x),
                                    y: wsc.x.unwrap_or(monitor.y),
                                    width: wsc.width.unwrap_or(monitor.width_px),
                                    height: wsc.height.unwrap_or(monitor.height_px),
                                },
                            },
                        )
                    },
                },
            },
        }
    }

    /// A configuration that gives its whole rectangle and names no output
    /// resolves to that rectangle against every topology, so that no
    /// topology has to be queried for it.
    pub proof fn lemma_literal_ignores_topology(wsc: Workspace, a: Topology, b: Topology)
        requires
            wsc.literal(),
        ensures
            Screen::resolution(wsc, a) == Screen::resolution(wsc, b),
            Screen::resolution(wsc, a) == Ok::<Screen, ResolveError>(Screen::literal(wsc)),
    {
    }

    /// A configuration that names an output resolves on the first monitor of
    /// that name.
    pub proof fn lemma_named_output_found(wsc: Workspace, monitors: Vec<Monitor>, i: int)
        requires
            wsc.output_name is Some,
            is_first_named(monitors@, wsc.output_name->Some_0@, i),
        ensures
            Screen::resolution(wsc, Topology::Monitors(monitors)) == Ok::<Screen, ResolveError>(
                Screen::on_monitor(wsc, monitors@[i]),
            ),
    {
        lemma_first_named_unique(monitors@, wsc.output_name->Some_0@, i);
    }

    /// A configuration that names an output which no monitor bears fails as
    /// `MonitorNotFound`, whatever coordinates it gives: it never falls back
    /// to them.
    pub proof fn lemma_missing_output_is_not_found(wsc: Workspace, monitors: Vec<Monitor>)
        requires
            wsc.output_name is Some,
            !has_named(monitors@, wsc.output_name->Some_0@),
        ensures
            Screen::resolution(wsc, Topology::Monitors(monitors)) == Err::<Screen, ResolveError>(
                ResolveError::MonitorNotFound,
            ),
    {
    }

    /// A configuration that names no output and leaves out any of the four
    /// coordinates fails as `AmbiguousWorkspaceConfig` against every
    /// topology.
    pub proof fn lemma_partial_rectangle_is_ambiguous(wsc: Workspace, topology: Topology)
        requires
            wsc.output_name is None,
            !wsc.literal(),
        ensures
            Screen::resolution(wsc, topology) == Err::<Screen, ResolveError>(
                ResolveError::AmbiguousWorkspaceConfig,
            ),
    {
    }

    /// Whatever a configuration resolves to, the screen carries the
    /// configuration's workspace id and width limit, and no root.
    pub proof fn lemma_resolved_carries_config(wsc: Workspace, topology: Topology)
        requires
            Screen::resolution(wsc, topology) is Ok,
        ensures
            Screen::resolution(wsc, topology)->Ok_0.wsid == wsc.id,
            Screen::resolution(wsc, topology)->Ok_0.max_window_width == wsc.max_window_width,
            Screen::resolution(wsc, topology)->Ok_0.root == WindowHandle::MockHandle(0),
    {
    }
}

} // verus!
