//! The geometry hints that a user gives for a workspace.

use vstd::prelude::*;
use crate::geometry::Size;

verus! {

/// What the user asks of one workspace: a rectangle given outright, or the
/// name of the output it should cover, or a mix of the two. Every field is
/// optional; how the gaps are filled is the resolver's business
/// (see [`crate::resolver`]).
#[derive(Debug, Clone, PartialEq)]
pub struct Workspace {
    pub x: Option<i32>,
    pub y: Option<i32>,
    pub height: Option<i32>,
    pub width: Option<i32>,
    pub id: Option<i32>,
    pub output_name: Option<String>,
    pub max_window_width: Option<Size>,
    /// Names of the layouts offered on this workspace. They are carried for
    /// the layout engine and play no part in resolving the geometry.
    pub layouts: Option<Vec<String>>,
}

impl Workspace {
    /// The configuration names no output and gives the whole rectangle.
    pub open spec fn literal(&self) -> bool {
        &&& self.output_name is None
        &&& self.x is Some
        &&& self.y is Some
        &&& self.width is Some
        &&& self.height is Some
    }

    /// The configuration can be resolved from its own fields, without a look
    /// at the monitors that are attached.
    pub fn is_literal(&self) -> (literal: bool)
        ensures
            literal == self.literal(),
    {
        self.output_name.is_none() && self.x.is_some() && self.y.is_some() && self.width.is_some()
            && self.height.is_some()
    }

    /// Whether resolving this configuration reads the monitor topology. Only
    /// then does a caller have to query it.
    pub fn needs_topology(&self) -> (needed: bool)
        ensures
            needed == (self.output_name is Some),
    {
        self.output_name.is_some()
    }
}

impl Default for Workspace {
    /// The configuration that says nothing.
    fn default() -> (config: Workspace)
        ensures
            config.x is None,
            config.y is None,
            config.height is None,
            config.width is None,
            config.id is None,
            config.output_name is None,
            config.max_window_width is None,
            config.layouts is None,
    {
        Workspace {
            x: None,
            y: None,
            height: None,
            width: None,
            id: None,
            output_name: None,
            max_window_width: None,
            layouts: None,
        }
    }
}

} // verus!
