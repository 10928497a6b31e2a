//! Things that float above the interface.
//!
//! The same shape turns up again and again — toasts, hover hints, a herald's
//! card: put something on top, cap how many can exist, let it wait its turn.
//! This module holds the decisions in that shape: the stacking ladder, the
//! queue a notice waits in until there is a shelf to put it on, how many of
//! the oldest toasts a full shelf gives up, and the line proclamations wait in
//! so that two great things happening at once are announced one at a time.

use vstd::prelude::*;

use crate::theme::Role;

verus! {

// ---------------------------------------------------------------------------
// Layering
// ---------------------------------------------------------------------------

/// Where something sits in the stack. One vocabulary rather than scattered
/// z-index literals.
#[derive(Debug, Clone, Copy, PartialEq, Eq, Hash, Structural)]
pub enum Layer {
    /// Pinned to things in the WORLD — nameplates, placards, bubbles. Under
    /// everything: interface chrome dragged across a world-anchored card must
    /// cover it.
    World,
    /// Anchored furniture — the HUD.
    Panel,
    /// Movable windows, which sort among themselves above the furniture.
    Window,
    /// A modal and its scrim.
    Modal,
    /// Transient notices.
    Toast,
    /// Hover hints, which must clear everything or they are pointless.
    Tooltip,
}

impl Layer {
    /// The stacking index of a layer.
    pub open spec fn depth(self) -> int {
        match self {
            Layer::World => -10,
            Layer::Panel => 0,
            Layer::Window => 10,
            Layer::Modal => 100,
            Layer::Toast => 200,
            Layer::Tooltip => 300,
        }
    }

    /// The global z-index a node on this layer is given.
    pub fn z(self) -> (z: i32)
        ensures
            z == self.depth(),
    {
        match self {
            Layer::World => -10,
            Layer::Panel => 0,
            Layer::Window => 10,
            Layer::Modal => 100,
            Layer::Toast => 200,
            Layer::Tooltip => 300,
        }
    }

    /// The layers from the bottom of the stack to the top.
    pub open spec fn ladder() -> Seq<Layer> {
        seq![Layer::World, Layer::Panel, Layer::Window, Layer::Modal, Layer::Toast, Layer::Tooltip]
    }
}

/// The ladder is strictly ordered: every rung sits below every rung above
/// it, so no two layers ever share a depth and none can be drawn out of turn.
pub proof fn layers_are_strictly_ordered()
    ensures
        forall|i: int, j: int|
            0 <= i < j < Layer::ladder().len() ==> (#[trigger] Layer::ladder()[i]).depth()
                < (#[trigger] Layer::ladder()[j]).depth(),
        forall|l: Layer| #[trigger] Layer::ladder().contains(l),
{
    let ladder = Layer::ladder();
    assert forall|l: Layer| #[trigger] ladder.contains(l) by {
        match l {
            Layer::World => assert(ladder[0] == l),
            Layer::Panel => assert(ladder[1] == l),
            Layer::Window => assert(ladder[2] == l),
            Layer::Modal => assert(ladder[3] == l),
            Layer::Toast => assert(ladder[4] == l),
            Layer::Tooltip => assert(ladder[5] == l),
        }
    }
}

// ---------------------------------------------------------------------------
// Notices
// ---------------------------------------------------------------------------

/// Something worth telling the player, briefly.
#[derive(Debug, Clone, PartialEq, Eq)]
pub struct Notice {
    pub text: String,
    /// Emphasis: an event that deserves the accent color rather than a
    /// routine notice.
    pub fanfare: bool,
}

impl Notice {
    /// A routine notice.
    pub fn new(text: impl Into<String>) -> (notice: Self)
        ensures
            !notice.fanfare,
            call_ensures(Into::<String>::into, (text,), notice.text),
    {
        Notice { text: text.into(), fanfare: false }
    }

    /// A notice that deserves the accent.
    pub fn fanfare(text: impl Into<String>) -> (notice: Self)
        ensures
            notice.fanfare,
            call_ensures(Into::<String>::into, (text,), notice.text),
    {
        Notice { text: text.into(), fanfare: true }
    }

    /// The role a notice's words are inked in: the accent for fanfare, plain
    /// ink otherwise.
    pub fn ink(&self) -> (role: Role)
        ensures
            role == (if self.fanfare { Role::Accent } else { Role::Ink }),
    {
        if self.fanfare {
            Role::Accent
        } else {
            Role::Ink
        }
    }
}

/// Push notices here; a shelf drains it.
///
/// A plain queue rather than an event, so a game can post one from anywhere
/// without caring whether a shelf exists yet.
pub struct Notices(Vec<Notice>);

impl View for Notices {
    type V = Seq<Notice>;

    closed spec fn view(&self) -> Seq<Notice> {
        self.0@
    }
}

impl Default for Notices {
    fn default() -> (notices: Self)
        ensures
            notices@ == Seq::<Notice>::empty(),
    {
        Notices(Vec::new())
    }
}

impl Notices {
    /// Queues a notice behind the ones already waiting.
    pub fn push(&mut self, notice: Notice)
        ensures
            final(self)@ == old(self)@.push(notice),
    {
        self.0.push(notice);
    }

    /// Queues a routine notice.
    pub fn say(&mut self, text: impl Into<String>)
        ensures
            final(self)@.len() == old(self)@.len() + 1,
            final(self)@.drop_last() == old(self)@,
            !final(self)@.last().fanfare,
            call_ensures(Into::<String>::into, (text,), final(self)@.last().text),
    {
        self.push(Notice::new(text));
        assert(final(self)@.drop_last() =~= old(self)@);
    }

    /// How many are still waiting for a shelf.
    pub fn pending(&self) -> (n: usize)
        ensures
            n == self@.len(),
    {
        self.0.len()
    }

    /// Hands every waiting notice over, oldest first, when there is exactly
    /// one shelf to put them on.
    ///
    /// With no shelf on screen — or more than one, when there is no telling
    /// which is meant — they are held rather than thrown away: a notice
    /// posted during loading should still arrive. Either way nothing is lost:
    /// what is handed over followed by what is still held is exactly what was
    /// waiting.
    pub fn deliver(&mut self, shelves: usize) -> (handed: Vec<Notice>)
        ensures
            shelves == 1 ==> handed@ == old(self)@ && final(self)@ == Seq::<Notice>::empty(),
            shelves != 1 ==> handed@ == Seq::<Notice>::empty() && final(self)@ == old(self)@,
            handed@ + final(self)@ == old(self)@,
    {
        if self.0.is_empty() || shelves != 1 {
            assert(Seq::<Notice>::empty() + self@ =~= self@);
            return Vec::new();
        }
        let mut handed: Vec<Notice> = Vec::new();
        std::mem::swap(&mut handed, &mut self.0);
        assert(handed@ + self@ =~= handed@);
        handed
    }
}

/// Past this many, the oldest toast goes. A shelf that grows without limit
/// stops being a notification and becomes a log nobody reads.
pub const TOAST_CAP: usize = 6;

/// How many toasts a shelf holding `count` must give up, taken from the front
/// — the oldest — so that what stays is the newest, and never more than
/// [`TOAST_CAP`] of them.
pub fn shelf_overflow(count: usize) -> (evict: usize)
    ensures
        evict == (if count > TOAST_CAP { count - TOAST_CAP } else { 0 }),
        count - evict == (if count < TOAST_CAP { count } else { TOAST_CAP }),
{
    count.saturating_sub(TOAST_CAP)
}

// ---------------------------------------------------------------------------
// Tooltips
// ---------------------------------------------------------------------------

/// A hover hint. Two parts: a title and a line beneath.
#[derive(Debug, Clone, PartialEq, Eq)]
pub struct Tooltip {
    pub title: String,
    pub line: String,
}

impl Tooltip {
    pub fn new(title: impl Into<String>, line: impl Into<String>) -> (hint: Self)
        ensures
            call_ensures(Into::<String>::into, (title,), hint.title),
            call_ensures(Into::<String>::into, (line,), hint.line),
    {
        Tooltip { title: title.into(), line: line.into() }
    }
}

/// What the hint pass does with the hint views on screen.
#[derive(Debug, Clone, Copy, PartialEq, Eq, Structural)]
pub enum HintAction {
    /// Take down every hint on screen.
    Clear,
    /// Put up the wanted hint.
    Show,
    /// Leave things as they are.
    Keep,
}

/// Decides the hint pass: with no hint wanted, every view on screen comes
/// down; with one wanted, it goes up only if none is showing yet — so there
/// is never more than one hint on screen, and a showing hint is not put up
/// again every frame.
pub fn hint_action(wanted: bool, showing: usize) -> (action: HintAction)
    ensures
        !wanted ==> action == HintAction::Clear,
        wanted && showing == 0 ==> action == HintAction::Show,
        wanted && showing > 0 ==> action == HintAction::Keep,
{
    if !wanted {
        HintAction::Clear
    } else if showing == 0 {
        HintAction::Show
    } else {
        HintAction::Keep
    }
}

// ---------------------------------------------------------------------------
// Proclamations
// ---------------------------------------------------------------------------

/// The trumpet, not the doorbell: a centre-stage card for the events a
/// session gets a handful of. `C` is the card's ink — color is the KIND here,
/// part of a game's own language, so it arrives as paint rather than as a
/// theme role.
pub struct Proclamation<C> {
    pub title: String,
    pub line: String,
    pub color: C,
    /// An opaque token handed back on the card's press.
    pub token: Option<u64>,
}

/// The waiting line. Push from anywhere; the stage takes one at a time.
pub struct Proclamations<C>(pub Vec<Proclamation<C>>);

impl<C> Default for Proclamations<C> {
    fn default() -> (line: Self)
        ensures
            line.0@ == Seq::<Proclamation<C>>::empty(),
    {
        Proclamations(Vec::new())
    }
}

impl<C> Proclamations<C> {
    /// Joins the back of the line.
    pub fn push(&mut self, proclamation: Proclamation<C>)
        ensures
            final(self).0@ == old(self).0@.push(proclamation),
    {
        self.0.push(proclamation);
    }

    /// The next proclamation to go on stage, if it may go now.
    ///
    /// Only onto an empty stage — when two great things happen at once, the
    /// second WAITS: ceremony that queues is ceremony; ceremony that stacks
    /// is noise — and only when there is exactly one stage to play on.
    /// Otherwise the line is left as it is, and nothing is lost.
    pub fn next_on_stage(&mut self, stages: usize, playing: bool) -> (next: Option<Proclamation<C>>)
        ensures
            (old(self).0@.len() > 0 && stages == 1 && !playing) ==> next == Some(old(self).0@[0])
                && final(self).0@ == old(self).0@.drop_first(),
            !(old(self).0@.len() > 0 && stages == 1 && !playing) ==> next is None && final(self).0@
                == old(self).0@,
    {
        if self.0.is_empty() || playing || stages != 1 {
            return None;
        }
        let first = self.0.remove(0);
        assert(self.0@ =~= old(self).0@.drop_first());
        Some(first)
    }
}

} // verus!
