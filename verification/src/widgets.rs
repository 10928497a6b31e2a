//! Where an anchored panel sits, and how a button is painted.
//!
//! A HUD is furniture, and furniture stands against the walls: a panel is
//! anchored to a corner, an edge midpoint, or the centre, a theme margin off
//! the edges it stands against. The geometry of that — which sides are pinned
//! and how, which axis is pulled back by half the panel's size to centre it,
//! and which way a stack of cards against that wall lines up — is decided
//! here, and the three answers always agree with each other.

use vstd::prelude::*;

use crate::tabs::{is_selected, selected_face};
use crate::theme::{Metric, Role};

verus! {

/// Where a panel sits. Corners and edge-midpoints rather than free placement.
#[derive(Debug, Clone, Copy, PartialEq, Eq, Hash, Structural)]
pub enum Anchor {
    TopLeft,
    TopRight,
    BottomLeft,
    BottomRight,
    /// Centered on an edge — a quest tracker's home, halfway up the left.
    Left,
    Right,
    Top,
    Bottom,
    /// Dead center — nothing lives here long.
    Center,
    /// High and centered, about a third of the way down: where a herald
    /// stands, clear of the world's own business at dead centre.
    Herald,
}

/// How one side of an anchored panel is pinned.
#[derive(Debug, Clone, Copy, PartialEq, Eq, Hash, Structural)]
pub enum Inset {
    /// The theme's margin off this edge.
    Margin,
    /// Not pinned: layout decides.
    Auto,
    /// This percentage of the way across the screen.
    Percent(u32),
}

impl Inset {
    pub open spec fn is_auto(self) -> bool {
        self == Inset::Auto
    }
}

/// The four sides of an anchored panel.
#[derive(Debug, Clone, Copy, PartialEq, Eq, Hash, Structural)]
pub struct Insets {
    pub top: Inset,
    pub right: Inset,
    pub bottom: Inset,
    pub left: Inset,
}

/// How far a panel is pulled back along one axis.
#[derive(Debug, Clone, Copy, PartialEq, Eq, Hash, Structural)]
pub enum Pull {
    /// Not at all.
    Zero,
    /// By half its own size, which turns a pin at a point into a centre on it.
    HalfBack,
}

/// The pull on both axes.
#[derive(Debug, Clone, Copy, PartialEq, Eq, Hash, Structural)]
pub struct Centering {
    pub x: Pull,
    pub y: Pull,
}

/// How a stack against a wall lines its cards up.
#[derive(Debug, Clone, Copy, PartialEq, Eq, Hash, Structural)]
pub enum Rank {
    Start,
    End,
    Center,
}

impl Anchor {
    /// The sides, as a value.
    pub open spec fn insets(self) -> Insets {
        let m = Inset::Margin;
        let a = Inset::Auto;
        let half = Inset::Percent(50);
        match self {
            Anchor::TopLeft => Insets { top: m, right: a, bottom: a, left: m },
            Anchor::TopRight => Insets { top: m, right: m, bottom: a, left: a },
            Anchor::BottomLeft => Insets { top: a, right: a, bottom: m, left: m },
            Anchor::BottomRight => Insets { top: a, right: m, bottom: m, left: a },
            Anchor::Left => Insets { top: half, right: a, bottom: a, left: m },
            Anchor::Right => Insets { top: half, right: m, bottom: a, left: a },
            Anchor::Top => Insets { top: m, right: a, bottom: a, left: half },
            Anchor::Bottom => Insets { top: a, right: a, bottom: m, left: half },
            Anchor::Center => Insets { top: half, right: a, bottom: a, left: half },
            Anchor::Herald => Insets { top: Inset::Percent(30), right: a, bottom: a, left: half },
        }
    }

    /// How each side is pinned. A centred axis pins at fifty percent (a third
    /// of the way down for the herald); [`Anchor::centering`] hands the
    /// matching pullback.
    pub fn offsets(self) -> (sides: Insets)
        ensures
            sides == self.insets(),
    {
        let m = Inset::Margin;
        let a = Inset::Auto;
        let half = Inset::Percent(50);
        match self {
            Anchor::TopLeft => Insets { top: m, right: a, bottom: a, left: m },
            Anchor::TopRight => Insets { top: m, right: m, bottom: a, left: a },
            Anchor::BottomLeft => Insets { top: a, right: a, bottom: m, left: m },
            Anchor::BottomRight => Insets { top: a, right: m, bottom: m, left: a },
            Anchor::Left => Insets { top: half, right: a, bottom: a, left: m },
            Anchor::Right => Insets { top: half, right: m, bottom: a, left: a },
            Anchor::Top => Insets { top: m, right: a, bottom: a, left: half },
            Anchor::Bottom => Insets { top: a, right: a, bottom: m, left: half },
            Anchor::Center => Insets { top: half, right: a, bottom: a, left: half },
            Anchor::Herald => Insets { top: Inset::Percent(30), right: a, bottom: a, left: half },
        }
    }

    /// The pullback, as a value.
    pub open spec fn pullback(self) -> Option<Centering> {
        match self {
            Anchor::Left | Anchor::Right => Some(Centering { x: Pull::Zero, y: Pull::HalfBack }),
            Anchor::Top | Anchor::Bottom => Some(Centering { x: Pull::HalfBack, y: Pull::Zero }),
            Anchor::Center | Anchor::Herald => Some(Centering { x: Pull::HalfBack, y: Pull::HalfBack }),
            _ => None,
        }
    }

    /// The translation that turns an edge pin into an edge CENTRE — minus half
    /// the panel's own size along the pinned axis. `None` for corners, which
    /// sit where their offsets put them.
    pub fn centering(self) -> (pull: Option<Centering>)
        ensures
            pull == self.pullback(),
    {
        match self {
            Anchor::Left | Anchor::Right => Some(Centering { x: Pull::Zero, y: Pull::HalfBack }),
            Anchor::Top | Anchor::Bottom => Some(Centering { x: Pull::HalfBack, y: Pull::Zero }),
            Anchor::Center | Anchor::Herald => Some(Centering { x: Pull::HalfBack, y: Pull::HalfBack }),
            _ => None,
        }
    }

    /// The rank, as a value.
    pub open spec fn rank(self) -> Rank {
        match self {
            Anchor::TopLeft | Anchor::BottomLeft | Anchor::Left => Rank::Start,
            Anchor::TopRight | Anchor::BottomRight | Anchor::Right => Rank::End,
            Anchor::Top | Anchor::Bottom | Anchor::Center | Anchor::Herald => Rank::Center,
        }
    }

    /// How a stack against this wall lines its cards up: hugging the edge it
    /// stands on.
    pub fn ranks(self) -> (rank: Rank)
        ensures
            rank == self.rank(),
    {
        match self {
            Anchor::TopLeft | Anchor::BottomLeft | Anchor::Left => Rank::Start,
            Anchor::TopRight | Anchor::BottomRight | Anchor::Right => Rank::End,
            Anchor::Top | Anchor::Bottom | Anchor::Center | Anchor::Herald => Rank::Center,
        }
    }
}

/// The pull along the horizontal axis, `Zero` where there is no centering.
pub open spec fn pull_x(anchor: Anchor) -> Pull {
    match anchor.pullback() {
        Some(c) => c.x,
        None => Pull::Zero,
    }
}

/// The pull along the vertical axis, `Zero` where there is no centering.
pub open spec fn pull_y(anchor: Anchor) -> Pull {
    match anchor.pullback() {
        Some(c) => c.y,
        None => Pull::Zero,
    }
}

/// The three answers an anchor gives agree with each other:
///
/// - each axis is pinned from exactly one side;
/// - an axis is pulled back by half the panel exactly when it is pinned at a
///   percentage of the screen, so a pin at a point becomes a centre on it, and
///   a corner, pinned by margins alone, is not pulled at all;
/// - a stack lines up at the start exactly when it stands against the left
///   wall, at the end exactly against the right, and centred exactly when its
///   horizontal pin is a percentage.
pub proof fn anchor_geometry_agrees(anchor: Anchor)
    ensures
        anchor.insets().left.is_auto() != anchor.insets().right.is_auto(),
        anchor.insets().top.is_auto() != anchor.insets().bottom.is_auto(),
        (pull_x(anchor) == Pull::HalfBack) == (anchor.insets().left is Percent),
        (pull_y(anchor) == Pull::HalfBack) == (anchor.insets().top is Percent),
        anchor.pullback() is None == (!(anchor.insets().left is Percent) && !(
        anchor.insets().top is Percent)),
        (anchor.rank() == Rank::Start) == (anchor.insets().left == Inset::Margin),
        (anchor.rank() == Rank::End) == (anchor.insets().right == Inset::Margin),
        (anchor.rank() == Rank::Center) == (anchor.insets().left is Percent),
{
}

/// An anchor stands a margin off exactly the walls its name names, and its
/// name says where the rest of it is pinned:
///
/// - `TopLeft`, `TopRight` and `Top` stand off the top wall, with the bottom
///   left free; `BottomLeft`, `BottomRight` and `Bottom` stand off the bottom
///   wall, with the top left free;
/// - `TopLeft`, `BottomLeft` and `Left` stand off the left wall, with the
///   right left free; `TopRight`, `BottomRight` and `Right` stand off the
///   right wall, with the left left free;
/// - the anchors centred across the screen (`Top`, `Bottom`, `Center`,
///   `Herald`) pin their left side halfway across and leave the right free;
///   those centred down it (`Left`, `Right`, `Center`) pin their top halfway
///   down and leave the bottom free; the herald pins its top a third of the
///   way down — thirty percent.
pub proof fn anchors_stand_against_the_walls_they_name(anchor: Anchor)
    ensures
        (anchor == Anchor::TopLeft || anchor == Anchor::TopRight || anchor == Anchor::Top)
            <==> anchor.insets().top == Inset::Margin,
        (anchor == Anchor::BottomLeft || anchor == Anchor::BottomRight || anchor == Anchor::Bottom)
            <==> anchor.insets().bottom == Inset::Margin,
        (anchor == Anchor::TopLeft || anchor == Anchor::BottomLeft || anchor == Anchor::Left)
            <==> anchor.insets().left == Inset::Margin,
        (anchor == Anchor::TopRight || anchor == Anchor::BottomRight || anchor == Anchor::Right)
            <==> anchor.insets().right == Inset::Margin,
        (anchor == Anchor::Top || anchor == Anchor::Bottom || anchor == Anchor::Center || anchor
            == Anchor::Herald) <==> anchor.insets().left == Inset::Percent(50),
        (anchor == Anchor::Left || anchor == Anchor::Right || anchor == Anchor::Center)
            <==> anchor.insets().top == Inset::Percent(50),
        (anchor == Anchor::Herald) <==> anchor.insets().top == Inset::Percent(30),
        anchor.insets().bottom == Inset::Margin || anchor.insets().bottom == Inset::Auto,
        anchor.insets().right == Inset::Margin || anchor.insets().right == Inset::Auto,
        anchor.insets().top == Inset::Margin ==> anchor.insets().bottom == Inset::Auto,
        anchor.insets().bottom == Inset::Margin ==> anchor.insets().top == Inset::Auto,
        anchor.insets().left == Inset::Margin ==> anchor.insets().right == Inset::Auto,
        anchor.insets().right == Inset::Margin ==> anchor.insets().left == Inset::Auto,
        anchor.insets().left is Percent ==> anchor.insets().right == Inset::Auto,
        anchor.insets().top is Percent ==> anchor.insets().bottom == Inset::Auto,
{
}

// ---------------------------------------------------------------------------
// Chrome
// ---------------------------------------------------------------------------

/// A length in the theme's terms.
#[derive(Debug, Clone, Copy, PartialEq, Eq, Hash, Structural)]
pub enum Measure {
    /// Nothing: a zero length.
    Nothing,
    /// The metric's value.
    Metric(Metric),
    /// Twice the metric's value.
    Twice(Metric),
}

/// Which lengths a node's chrome takes. `None` leaves a length as the node
/// already has it.
#[derive(Debug, Clone, Copy, PartialEq, Eq, Hash, Structural)]
pub struct Chrome {
    pub padding_top: Option<Measure>,
    /// Right, bottom and left padding.
    pub padding_rest: Option<Measure>,
    /// Row and column gap.
    pub gap: Option<Measure>,
    pub border_top: Option<Measure>,
    /// Right, bottom and left border.
    pub border_rest: Option<Measure>,
    /// Top-left and top-right corner radius.
    pub radius_top: Option<Measure>,
    /// Bottom-left and bottom-right corner radius.
    pub radius_bottom: Option<Measure>,
}

/// The chrome of a panel, as a value.
pub open spec fn chrome_of(padded: bool, hanging: bool) -> Chrome {
    let pad = if padded { Some(Measure::Metric(Metric::Pad)) } else { None };
    let border = if padded { Some(Measure::Metric(Metric::Border)) } else { None };
    let radius = if padded { Some(Measure::Metric(Metric::Radius)) } else { None };
    Chrome {
        padding_top: if hanging { Some(Measure::Twice(Metric::Pad)) } else { pad },
        padding_rest: pad,
        gap: if padded { Some(Measure::Metric(Metric::Gap)) } else { None },
        border_top: if hanging { Some(Measure::Nothing) } else { border },
        border_rest: border,
        radius_top: if hanging { Some(Measure::Nothing) } else { radius },
        radius_bottom: if hanging { Some(Measure::Metric(Metric::Radius)) } else { radius },
    }
}

/// The lengths a node's chrome follows from the theme.
///
/// A padded node takes the theme's padding, gap, hairline border and corner
/// radius all round. A hanging one — fixed to the top edge — is then undone
/// along the top, after the padding rather than instead of it: no border and
/// no rounding across the edge it is flush with, and twice the padding,
/// because half of it is slid up off the screen.
pub fn chrome(padded: bool, hanging: bool) -> (plan: Chrome)
    ensures
        plan == chrome_of(padded, hanging),
{
    let pad = if padded { Some(Measure::Metric(Metric::Pad)) } else { None };
    let border = if padded { Some(Measure::Metric(Metric::Border)) } else { None };
    let radius = if padded { Some(Measure::Metric(Metric::Radius)) } else { None };
    Chrome {
        padding_top: if hanging { Some(Measure::Twice(Metric::Pad)) } else { pad },
        padding_rest: pad,
        gap: if padded { Some(Measure::Metric(Metric::Gap)) } else { None },
        border_top: if hanging { Some(Measure::Nothing) } else { border },
        border_rest: border,
        radius_top: if hanging { Some(Measure::Nothing) } else { radius },
        radius_bottom: if hanging { Some(Measure::Metric(Metric::Radius)) } else { radius },
    }
}

/// What each flag of a panel's chrome does, length by length: a node neither
/// padded nor hanging keeps every length it has; a padded one takes the
/// theme's padding, gap, border and radius on every side; and hanging swaps
/// the top edge alone — twice the padding, no border, square corners — while
/// the bottom corners are rounded by the theme's radius.
pub proof fn what_the_chrome_flags_do(padded: bool, hanging: bool)
    ensures
        !padded && !hanging ==> chrome_of(padded, hanging) == (Chrome {
            padding_top: None,
            padding_rest: None,
            gap: None,
            border_top: None,
            border_rest: None,
            radius_top: None,
            radius_bottom: None,
        }),
        padded ==> chrome_of(padded, hanging).padding_rest == Some(Measure::Metric(Metric::Pad)),
        padded ==> chrome_of(padded, hanging).gap == Some(Measure::Metric(Metric::Gap)),
        padded ==> chrome_of(padded, hanging).border_rest == Some(Measure::Metric(Metric::Border)),
        padded ==> chrome_of(padded, hanging).radius_bottom == Some(Measure::Metric(Metric::Radius)),
        padded && !hanging ==> chrome_of(padded, hanging).padding_top == Some(
            Measure::Metric(Metric::Pad),
        ),
        padded && !hanging ==> chrome_of(padded, hanging).border_top == Some(
            Measure::Metric(Metric::Border),
        ),
        padded && !hanging ==> chrome_of(padded, hanging).radius_top == Some(
            Measure::Metric(Metric::Radius),
        ),
        !padded ==> chrome_of(padded, hanging).padding_rest is None && chrome_of(
            padded,
            hanging,
        ).gap is None && chrome_of(padded, hanging).border_rest is None,
        hanging ==> chrome_of(padded, hanging).padding_top == Some(Measure::Twice(Metric::Pad)),
        hanging ==> chrome_of(padded, hanging).border_top == Some(Measure::Nothing),
        hanging ==> chrome_of(padded, hanging).radius_top == Some(Measure::Nothing),
        hanging ==> chrome_of(padded, hanging).radius_bottom == Some(
            Measure::Metric(Metric::Radius),
        ),
{
}

/// A hanging panel is an ordinary padded panel with one edge given away to
/// the screen: every length but the top's is the same as a padded panel's,
/// the top has no border and square corners, and its padding is doubled.
pub proof fn hanging_gives_away_the_top_edge()
    ensures
        chrome_of(true, true).padding_rest == chrome_of(true, false).padding_rest,
        chrome_of(true, true).gap == chrome_of(true, false).gap,
        chrome_of(true, true).border_rest == chrome_of(true, false).border_rest,
        chrome_of(true, true).radius_bottom == chrome_of(true, false).radius_bottom,
        chrome_of(true, true).border_top == Some(Measure::Nothing),
        chrome_of(true, true).radius_top == Some(Measure::Nothing),
        chrome_of(true, true).padding_top == Some(Measure::Twice(Metric::Pad)),
        chrome_of(true, false).padding_top == chrome_of(true, false).padding_rest,
{
}

// ---------------------------------------------------------------------------
// Button
// ---------------------------------------------------------------------------

/// The face and edge roles a button is painted in.
pub open spec fn face_of(pressed: bool, hovered: bool, selected: bool) -> (Role, Role) {
    if pressed {
        (Role::ButtonPressed, Role::Accent)
    } else if hovered {
        (Role::ButtonHover, Role::Accent)
    } else if selected {
        selected_face()
    } else {
        (Role::ButtonIdle, Role::PanelBorder)
    }
}

/// Paints a button from what the pointer is doing and whether it is on.
///
/// Pressed beats hovered beats open: an open tab still lights under the
/// pointer, or the thing already being looked at stops answering.
pub fn button_face(pressed: bool, hovered: bool, selected: bool) -> (roles: (Role, Role))
    ensures
        roles == face_of(pressed, hovered, selected),
{
    match (pressed, hovered, is_selected(selected)) {
        (true, _, _) => (Role::ButtonPressed, Role::Accent),
        (false, true, _) => (Role::ButtonHover, Role::Accent),
        (false, false, Some(open)) => open,
        (false, false, None) => (Role::ButtonIdle, Role::PanelBorder),
    }
}

/// A pressed button always wears the pressed face and an accent edge,
/// whatever else is true of it; an open tab the pointer is not on wears the
/// very same face; an idle button sits on a plain panel border.
pub proof fn pressed_face_wins(hovered: bool, selected: bool)
    ensures
        face_of(true, hovered, selected) == (Role::ButtonPressed, Role::Accent),
        face_of(false, false, true) == face_of(true, hovered, selected),
        face_of(false, false, false) == (Role::ButtonIdle, Role::PanelBorder),
{
}

/// The pointer lights a button: whatever else is true of it, a button held
/// down wears the pressed face, and one the pointer merely rests on wears the
/// hover face — open tab or not — both with an accent edge. Only a button
/// the pointer leaves alone shows whether it is open: an open one wears the
/// pressed face, any other the idle face on a plain panel border.
pub proof fn the_pointer_lights_a_button(pressed: bool, hovered: bool, selected: bool)
    ensures
        pressed ==> face_of(pressed, hovered, selected) == (Role::ButtonPressed, Role::Accent),
        !pressed && hovered ==> face_of(pressed, hovered, selected) == (
            Role::ButtonHover,
            Role::Accent,
        ),
        !pressed && !hovered && selected ==> face_of(pressed, hovered, selected) == (
            Role::ButtonPressed,
            Role::Accent,
        ),
        !pressed && !hovered && !selected ==> face_of(pressed, hovered, selected) == (
            Role::ButtonIdle,
            Role::PanelBorder,
        ),
        face_of(pressed, hovered, selected).1 == Role::Accent <==> (pressed || hovered || selected),
{
}

/// Which buttons the button painter repaints this frame.
///
/// When the theme itself moves, every button. Otherwise the ones the pointer
/// or a fade touched, and — because a *removed* component is not a change any
/// filter can watch for — the ones just released and the tabs just closed,
/// collected separately so that no clicked button stays lit and no closed
/// tab keeps its pressed face.
pub fn button_repaints<E>(theme_changed: bool, every: Vec<E>, touched: Vec<E>, released: Vec<E>, closed: Vec<E>) -> (due: Vec<E>)
    ensures
        theme_changed ==> due@ == every@,
        !theme_changed ==> due@ == touched@ + released@ + closed@,
{
    if theme_changed {
        return every;
    }
    let mut due = touched;
    let mut released = released;
    let mut closed = closed;
    due.append(&mut released);
    due.append(&mut closed);
    due
}

} // verus!
