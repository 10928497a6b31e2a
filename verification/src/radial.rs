//! A radial menu — choices arranged around the point you pressed.
//!
//! The hub holds how many wedges hang off it and which one the hand is
//! pointing at; the paint pass reads that to decide each wedge's ink. Color
//! here is *state*, not theme: a wedge that cannot be chosen is dimmed but
//! still legible, the chosen one wears the accent, and the rest plain ink.

use vstd::prelude::*;

use crate::theme::Role;

verus! {

/// The hub of a radial menu. Holds the state its wedges are painted from.
#[derive(Debug, Clone, Copy, PartialEq, Eq, Structural)]
pub struct Radial {
    /// How many wedges hang off this hub. Sets their spacing, so it has to
    /// agree with the number actually spawned.
    pub count: usize,
    /// Which wedge the hand is pointing at, or `None` inside the dead zone.
    /// The game writes this; the paint pass reads it.
    pub selected: Option<usize>,
}

impl Radial {
    /// A hub with `count` wedges and none of them chosen yet.
    pub fn new(count: usize) -> (hub: Self)
        ensures
            hub.count == count,
            hub.selected is None,
    {
        Radial { count, selected: None }
    }

    /// The ink wedge `index` is painted in, as a value.
    pub open spec fn ink_of(self, index: usize, spent: bool) -> Role {
        if spent {
            Role::InkDim
        } else if self.selected == Some(index) {
            Role::Accent
        } else {
            Role::Ink
        }
    }

    /// The ink wedge `index` is painted in. A spent wedge — shown but not
    /// choosable — is dimmed, found second but still found; the wedge the
    /// hand points at wears the accent; the rest plain ink.
    pub fn wedge_ink(&self, index: usize, spent: bool) -> (role: Role)
        ensures
            role == self.ink_of(index, spent),
    {
        if spent {
            Role::InkDim
        } else if self.selected == Some(index) {
            Role::Accent
        } else {
            Role::Ink
        }
    }
}

/// At most one wedge of a hub is ever lit: two different wedges are never
/// both in the accent, a spent wedge never is, and with nothing chosen none is.
pub proof fn at_most_one_wedge_lit(hub: Radial, i: usize, j: usize, spent_i: bool, spent_j: bool)
    requires
        i != j,
    ensures
        !(hub.ink_of(i, spent_i) == Role::Accent && hub.ink_of(j, spent_j) == Role::Accent),
        hub.ink_of(i, true) == Role::InkDim,
        hub.selected is None ==> hub.ink_of(i, spent_i) != Role::Accent,
{
}

/// Each wedge's ink follows from the hub and the wedge alone, whichever wedge
/// it is: a spent wedge is dimmed; otherwise the wedge the hand points at
/// wears the accent, and every other wedge plain ink.
pub proof fn the_pointed_wedge_is_lit(hub: Radial, index: usize, spent: bool)
    ensures
        spent ==> hub.ink_of(index, spent) == Role::InkDim,
        !spent && hub.selected == Some(index) ==> hub.ink_of(index, spent) == Role::Accent,
        !spent && hub.selected != Some(index) ==> hub.ink_of(index, spent) == Role::Ink,
{
}

} // verus!
