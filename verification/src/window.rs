//! Windows, stacked by whoever touched one last.
//!
//! A window raised — by being opened, or by a click anywhere on it — goes in
//! front of every window raised before it. Which window a click touched is
//! the last one, in stacking order, whose area holds the pointer.

use vstd::prelude::*;

verus! {

/// The z-order windows are raised through. Each raise hands out a depth above
/// every depth handed out before it.
pub struct WindowStack {
    top: i32,
}

impl WindowStack {
    /// The depth most recently handed out, or nought before the first raise.
    pub closed spec fn height(self) -> int {
        self.top as int
    }

    /// A stack nothing has been raised through yet.
    pub fn new() -> (stack: Self)
        ensures
            stack.height() == 0,
    {
        WindowStack { top: 0 }
    }

    /// The depth most recently handed out.
    pub fn top(&self) -> (z: i32)
        ensures
            z == self.height(),
    {
        self.top
    }

    /// Raises a window: the depth it is given is above every depth handed
    /// out before, so the window last touched is the window in front.
    pub fn raise(&mut self) -> (z: i32)
        requires
            old(self).height() < i32::MAX,
        ensures
            z == old(self).height() + 1,
            final(self).height() == z,
    {
        self.top = self.top + 1;
        self.top
    }
}

/// Which of the windows a click touched: the last one, in stacking order,
/// whose area holds the pointer — `None` if the click touched none of them.
pub fn last_hit(hits: &Vec<bool>) -> (hit: Option<usize>)
    ensures
        match hit {
            Some(i) => i < hits@.len() && hits@[i as int] && forall|j: int|
                i < j < hits@.len() ==> !#[trigger] hits@[j],
            None => forall|j: int| 0 <= j < hits@.len() ==> !#[trigger] hits@[j],
        },
{
    let mut found: Option<usize> = None;
    let mut i: usize = 0;
    while i < hits.len()
        invariant
            i <= hits@.len(),
            match found {
                Some(k) => k < i && hits@[k as int] && forall|j: int| k < j < i ==> !#[trigger] hits@[j],
                None => forall|j: int| 0 <= j < i ==> !#[trigger] hits@[j],
            },
        decreases hits@.len() - i,
    {
        if hits[i] {
            found = Some(i);
        }
        i = i + 1;
    }
    found
}

/// The index of the last `true` in `hits`, if there is one.
pub open spec fn last_true(hits: Seq<bool>) -> Option<int>
    decreases hits.len(),
{
    if hits.len() == 0 {
        None
    } else if hits.last() {
        Some(hits.len() - 1)
    } else {
        last_true(hits.drop_last())
    }
}

/// `last_true` answers with the last `true` there is, and with nothing when
/// there is none.
pub proof fn lemma_last_true(hits: Seq<bool>)
    ensures
        match last_true(hits) {
            Some(i) => 0 <= i < hits.len() && hits[i] && forall|j: int|
                i < j < hits.len() ==> !#[trigger] hits[j],
            None => forall|j: int| 0 <= j < hits.len() ==> !#[trigger] hits[j],
        },
    decreases hits.len(),
{
    if hits.len() > 0 {
        lemma_last_true(hits.drop_last());
        assert forall|j: int| 0 <= j < hits.len() - 1 implies #[trigger] hits[j] == hits.drop_last()[j] by {}
    }
}

/// The depths the windows opened in a frame are given, in the order they
/// were opened, when the stack stood at `before`.
pub open spec fn frame_depths(before: int, opened: nat) -> Seq<int> {
    Seq::new(opened, |i: int| before + i + 1)
}

/// The window a frame's click touched and the depth it is given: the last
/// window hit, raised above the ones opened that frame — nothing without a
/// click, or when the click hit no window.
pub open spec fn frame_touch(before: int, opened: nat, click: Option<Seq<bool>>) -> Option<(int, int)> {
    match click {
        Some(hits) => match last_true(hits) {
            Some(w) => Some((w, before + opened + 1)),
            None => None,
        },
        None => None,
    }
}

/// Where the stack stands after a frame.
pub open spec fn frame_top(before: int, opened: nat, click: Option<Seq<bool>>) -> int {
    before + opened + if frame_touch(before, opened, click) is Some {
        1int
    } else {
        0int
    }
}

/// What one frame of focusing hands out.
pub struct FrameRaises {
    /// The depth of each window opened this frame, in the order given.
    pub opened: Vec<i32>,
    /// The window a click touched, by its place among the windows tested, and
    /// the depth it is given.
    pub touched: Option<(usize, i32)>,
}

impl WindowStack {
    /// One frame of focusing. Every window opened this frame comes to the
    /// front without being clicked — opening one IS reaching for it — each in
    /// turn; then, on a click, the last window in stacking order whose area
    /// holds the pointer (`hits` says which do) is raised above them all.
    pub fn focus(&mut self, opened: usize, click: Option<&Vec<bool>>) -> (frame: FrameRaises)
        requires
            old(self).height() + opened + (if click is Some { 1int } else { 0int }) <= i32::MAX,
        ensures
            frame.opened@.len() == opened,
            forall|i: int|
                0 <= i < opened ==> #[trigger] frame.opened@[i] == frame_depths(
                    old(self).height(),
                    opened as nat,
                )[i],
            match frame.touched {
                Some((w, z)) => frame_touch(
                    old(self).height(),
                    opened as nat,
                    match click {
                        Some(hits) => Some(hits@),
                        None => None,
                    },
                ) == Some((w as int, z as int)),
                None => frame_touch(
                    old(self).height(),
                    opened as nat,
                    match click {
                        Some(hits) => Some(hits@),
                        None => None,
                    },
                ) is None,
            },
            final(self).height() == frame_top(
                old(self).height(),
                opened as nat,
                match click {
                    Some(hits) => Some(hits@),
                    None => None,
                },
            ),
    {
        let ghost before = self.height();
        let mut depths: Vec<i32> = Vec::new();
        let mut i: usize = 0;
        while i < opened
            invariant
                i <= opened,
                before + opened + (if click is Some { 1int } else { 0int }) <= i32::MAX,
                self.height() == before + i,
                depths@.len() == i,
                forall|j: int| 0 <= j < i ==> #[trigger] depths@[j] == before + j + 1,
            decreases opened - i,
        {
            let z = self.raise();
            depths.push(z);
            i = i + 1;
        }
        let touched = match click {
            Some(hits) => {
                proof {
                    lemma_last_true(hits@);
                }
                match last_hit(hits) {
                    Some(w) => {
                        proof {
                            if last_true(hits@) != Some(w as int) {
                                match last_true(hits@) {
                                    Some(v) => {
                                        if v < w {
                                            assert(!hits@[w as int]);
                                        } else {
                                            assert(!hits@[v]);
                                        }
                                    },
                                    None => {
                                        assert(!hits@[w as int]);
                                    },
                                }
                            }
                        }
                        let z = self.raise();
                        Some((w, z))
                    },
                    None => {
                        proof {
                            if let Some(v) = last_true(hits@) {
                                assert(!hits@[v]);
                            }
                        }
                        None
                    },
                }
            },
            None => None,
        };
        FrameRaises { opened: depths, touched }
    }
}

/// The window last touched is the window in front. Over one frame, starting
/// from a stack at `before`: the windows opened get depths each of their own,
/// climbing in the order they were opened and all above every depth handed
/// out before the frame; a window touched by the click goes above every one of
/// them; and the stack never sinks, ending at the highest depth handed out.
pub proof fn the_window_last_touched_is_in_front(before: int, opened: nat, click: Option<Seq<bool>>)
    ensures
        forall|i: int, j: int|
            0 <= i < j < opened ==> #[trigger] frame_depths(before, opened)[i] < #[trigger] frame_depths(
                before,
                opened,
            )[j],
        forall|i: int|
            0 <= i < opened ==> before < #[trigger] frame_depths(before, opened)[i] <= frame_top(
                before,
                opened,
                click,
            ),
        match frame_touch(before, opened, click) {
            Some((w, z)) => z == frame_top(before, opened, click) && forall|i: int|
                0 <= i < opened ==> #[trigger] frame_depths(before, opened)[i] < z,
            None => frame_top(before, opened, click) == before + opened,
        },
        click is None ==> frame_touch(before, opened, click) is None,
        frame_top(before, opened, click) >= before,
{
}

/// A click on a window always raises it, whether or not any window was
/// opened the same frame: when some window holds the pointer, the frame
/// touches the last of them in stacking order and gives it the depth just
/// above the windows opened that frame; when none does, nothing is touched
/// and the stack rises by the opened windows alone.
pub proof fn a_click_on_a_window_raises_it(before: int, opened: nat, hits: Seq<bool>)
    ensures
        (exists|j: int| 0 <= j < hits.len() && #[trigger] hits[j]) ==> match frame_touch(
            before,
            opened,
            Some(hits),
        ) {
            Some((w, z)) => 0 <= w < hits.len() && hits[w] && (forall|j: int|
                w < j < hits.len() ==> !#[trigger] hits[j]) && z == before + opened + 1
                && frame_top(before, opened, Some(hits)) == z,
            None => false,
        },
        (forall|j: int| 0 <= j < hits.len() ==> !#[trigger] hits[j]) ==> frame_touch(
            before,
            opened,
            Some(hits),
        ) is None && frame_top(before, opened, Some(hits)) == before + opened,
        frame_touch(before, opened, None) is None,
        frame_top(before, opened, None) == before + opened,
{
    lemma_last_true(hits);
}

} // verus!
