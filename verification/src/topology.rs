//! The outputs of a display as the display server reports them.

use vstd::prelude::*;

verus! {

/// One monitor of the live topology: its name and its rectangle in pixels.
#[derive(Debug, Clone, PartialEq, Eq)]
pub struct Monitor {
    pub name: String,
    pub x: i32,
    pub y: i32,
    pub width_px: i32,
    pub height_px: i32,
}

/// One screen as the multi-head extension reports it. Origin and extents are
/// sixteen bits wide on the wire.
#[derive(Clone, Copy, Debug, PartialEq, Eq, Structural)]
pub struct XineramaScreenInfo {
    pub screen_number: i32,
    pub x_org: i16,
    pub y_org: i16,
    pub width: i16,
    pub height: i16,
}

/// The answer to a query for the monitors that are attached.
#[derive(Debug, Clone, PartialEq, Eq)]
pub enum Topology {
    /// The query failed, or was never made.
    Unavailable,
    /// The monitors, in the order in which the display server listed them.
    Monitors(Vec<Monitor>),
}

/// `monitors[i]` bears the name `name`, and no monitor before it does.
pub open spec fn is_first_named(monitors: Seq<Monitor>, name: Seq<char>, i: int) -> bool {
    &&& 0 <= i < monitors.len()
    &&& monitors[i].name@ == name
    &&& forall|j: int| 0 <= j < i ==> (#[trigger] monitors[j]).name@ != name
}

/// Some monitor bears the name `name`.
pub open spec fn has_named(monitors: Seq<Monitor>, name: Seq<char>) -> bool {
    exists|i: int| 0 <= i < monitors.len() && (#[trigger] monitors[i]).name@ == name
}

/// The index of the first monitor that bears the name `name`; meaningful
/// where [`has_named`] holds.
pub open spec fn first_named(monitors: Seq<Monitor>, name: Seq<char>) -> int {
    choose|i: int| is_first_named(monitors, name, i)
}

/// There is at most one first monitor of a given name, and [`first_named`]
/// is it.
pub proof fn lemma_first_named_unique(monitors: Seq<Monitor>, name: Seq<char>, i: int)
    requires
        is_first_named(monitors, name, i),
    ensures
        has_named(monitors, name),
        first_named(monitors, name) == i,
{
    let k = first_named(monitors, name);
    assert(is_first_named(monitors, name, k));
    assert(monitors[i].name@ == name);
    assert(monitors[k].name@ == name);
    if k < i {
        assert(monitors[k].name@ != name);
    }
    if i < k {
        assert(monitors[i].name@ != name);
    }
}

/// Looks for the first monitor named `name`.
pub fn find_monitor(monitors: &Vec<Monitor>, name: &String) -> (found: Option<usize>)
    ensures
        match found {
            Some(i) => is_first_named(monitors@, name@, i as int),
            None => !has_named(monitors@, name@),
        },
{
    let mut i: usize = 0;
    while i < monitors.len()
        invariant
            i <= monitors.len(),
            forall|j: int| 0 <= j < i ==> (#[trigger] monitors@[j]).name@ != name@,
        decreases monitors.len() - i,
    {
        if monitors[i].name == *name {
            return Some(i);
        }
        i += 1;
    }
    None
}

} // verus!
