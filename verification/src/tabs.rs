//! Tabs, and the panes behind them.
//!
//! The part of tabs that isn't furniture is **which one is open**: a selected
//! index, which tab wears the "on" face, which pane shows, and how the strip's
//! chrome is painted. A strip opens on its first tab, exactly one tab of a
//! strip is ever open, and exactly the pane with its index is shown.

use vstd::prelude::*;

use crate::theme::Role;

verus! {

/// A strip of tabs, and which of them is open.
#[derive(Debug, Clone, Copy, PartialEq, Eq, Structural)]
pub struct Tabs {
    pub selected: usize,
}

impl Default for Tabs {
    /// A strip opens on its first tab.
    fn default() -> (tabs: Self)
        ensures
            tabs.selected == 0,
    {
        Tabs { selected: 0 }
    }
}

/// Which tab this is, within its strip. Stated rather than counted from
/// sibling order, so a game that adds, hides or reorders tabs does not have
/// the meaning of its panes shift underneath it.
#[derive(Debug, Clone, Copy, PartialEq, Eq, Structural)]
pub struct Tab(pub usize);

/// What a tab's "on" marker has to do to agree with its strip.
#[derive(Debug, Clone, Copy, PartialEq, Eq, Structural)]
pub enum MarkChange {
    /// The tab is open and not yet marked.
    Mark,
    /// The tab is marked and no longer open.
    Unmark,
    /// The marker already agrees.
    Keep,
}

impl MarkChange {
    /// Whether a tab carries the marker once this change is made to it.
    pub open spec fn marked_after(self, marked_before: bool) -> bool {
        match self {
            MarkChange::Mark => true,
            MarkChange::Unmark => false,
            MarkChange::Keep => marked_before,
        }
    }
}

impl Tabs {
    /// Opens a tab: clicking it, or activating it from the keyboard. Writes
    /// only when the selection actually moves, so an already open tab does
    /// not count as a change.
    pub fn open(&mut self, index: usize)
        ensures
            final(self).selected == index,
    {
        if self.selected != index {
            self.selected = index;
        }
    }

    /// Whether tab `index` of this strip is the open one.
    pub fn is_open(&self, index: usize) -> (open: bool)
        ensures
            open == (index == self.selected),
    {
        self.selected == index
    }

    /// Whether the pane answering to `index` is the one shown.
    pub fn shows(&self, index: usize) -> (shown: bool)
        ensures
            shown == (index == self.selected),
    {
        self.selected == index
    }

    /// The change [`Tabs::mark`] makes, as a value.
    pub open spec fn mark_spec(self, index: usize, marked: bool) -> MarkChange {
        let open = self.selected == index;
        if open && !marked {
            MarkChange::Mark
        } else if !open && marked {
            MarkChange::Unmark
        } else {
            MarkChange::Keep
        }
    }

    /// What tab `index`, currently `marked` or not, must have done to its
    /// marker so that it is marked exactly when it is open.
    pub fn mark(&self, index: usize, marked: bool) -> (change: MarkChange)
        ensures
            change == self.mark_spec(index, marked),
            change.marked_after(marked) == (index == self.selected),
            change == MarkChange::Keep <==> marked == (index == self.selected),
    {
        let open = self.selected == index;
        if open && !marked {
            MarkChange::Mark
        } else if !open && marked {
            MarkChange::Unmark
        } else {
            MarkChange::Keep
        }
    }
}

/// After a strip's markers are brought into agreement with it, exactly one
/// tab index is marked open — the selected one — and exactly its pane shows;
/// two different tabs of one strip are never both open.
pub proof fn one_tab_open(tabs: Tabs, i: usize, j: usize, marked_i: bool, marked_j: bool)
    requires
        i != j,
    ensures
        !(tabs.mark_spec(i, marked_i).marked_after(marked_i) && tabs.mark_spec(j, marked_j).marked_after(
            marked_j,
        )),
        tabs.mark_spec(tabs.selected, marked_i).marked_after(marked_i),
{
}

/// The roles an open tab's chrome takes: the pressed face and an accent edge,
/// the same language a held-down button already speaks.
pub open spec fn selected_face() -> (Role, Role) {
    (Role::ButtonPressed, Role::Accent)
}

/// Is this button an open tab? `Some` with its face if it is.
pub fn is_selected(marked: bool) -> (face: Option<(Role, Role)>)
    ensures
        face == (if marked { Some(selected_face()) } else { None }),
{
    if marked {
        Some((Role::ButtonPressed, Role::Accent))
    } else {
        None
    }
}

/// The roles a tab is painted in, edge by edge.
#[derive(Debug, Clone, Copy, PartialEq, Eq, Structural)]
pub struct TabChrome {
    pub fill: Role,
    pub top: Role,
    pub left: Role,
    pub right: Role,
    pub bottom: Role,
}

/// How a tab is painted.
///
/// An open tab is filled with the *content's* color, which joins it to the
/// pane below, wears the accent along its top and has no line at its foot —
/// it is continuous with the pane. A closed one keeps a button's face, lit
/// under the pointer, and a plain edge all round.
pub fn tab_chrome(open: bool, hovered: bool) -> (chrome: TabChrome)
    ensures
        chrome.fill == (if open {
            Role::CardBg
        } else if hovered {
            Role::ButtonHover
        } else {
            Role::ButtonIdle
        }),
        chrome.top == (if open { Role::Accent } else { Role::PanelBorder }),
        chrome.left == Role::PanelBorder,
        chrome.right == Role::PanelBorder,
        chrome.bottom == (if open { Role::CardBg } else { Role::PanelBorder }),
{
    let fill = if open {
        Role::CardBg
    } else if hovered {
        Role::ButtonHover
    } else {
        Role::ButtonIdle
    };
    TabChrome {
        fill,
        top: if open { Role::Accent } else { Role::PanelBorder },
        left: Role::PanelBorder,
        right: Role::PanelBorder,
        bottom: if open { Role::CardBg } else { Role::PanelBorder },
    }
}

/// The roles a folder tab is painted in, edge by edge, and how it is weighted.
#[derive(Debug, Clone, Copy, PartialEq, Eq, Structural)]
pub struct FolderChrome {
    pub fill: Role,
    pub top: Role,
    pub left: Role,
    pub right: Role,
    pub bottom: Role,
    /// Whether the fill and the top, left and right edges are faded back:
    /// a closed folder tab recedes behind the open one.
    pub muted: bool,
    /// Whether the top edge is the heavy bar rather than a hairline.
    pub heavy_top: bool,
}

/// How a folder tab is painted.
///
/// A folder is defined by its sides DIFFERING: the open tab wears the accent
/// along its top, card borders down its sides and a bottom in the page's own
/// fill — which is what makes the line appear to open there — and is filled
/// like the page. A closed one is a faded panel with faded panel-border sides
/// and a card border along its foot, the rule the open tab breaks.
pub fn folder_chrome(open: bool) -> (chrome: FolderChrome)
    ensures
        chrome.fill == (if open { Role::CardBg } else { Role::PanelBg }),
        chrome.top == (if open { Role::Accent } else { Role::PanelBorder }),
        chrome.left == (if open { Role::CardBorder } else { Role::PanelBorder }),
        chrome.right == (if open { Role::CardBorder } else { Role::PanelBorder }),
        chrome.bottom == (if open { Role::CardBg } else { Role::CardBorder }),
        chrome.muted == !open,
        chrome.heavy_top == open,
        chrome == folder_chrome_spec(open),
{
    if open {
        FolderChrome {
            fill: Role::CardBg,
            top: Role::Accent,
            left: Role::CardBorder,
            right: Role::CardBorder,
            bottom: Role::CardBg,
            muted: false,
            heavy_top: true,
        }
    } else {
        FolderChrome {
            fill: Role::PanelBg,
            top: Role::PanelBorder,
            left: Role::PanelBorder,
            right: Role::PanelBorder,
            bottom: Role::CardBorder,
            muted: true,
            heavy_top: false,
        }
    }
}

/// An open folder tab joins its page: its foot is painted in the very role
/// its page is filled with, and so is its own fill, so no line is drawn where
/// the two meet; a closed tab's foot is the page's border, so the line runs on.
pub proof fn an_open_folder_tab_joins_its_page()
    ensures
        folder_chrome_spec(true).bottom == folder_chrome_spec(true).fill,
        folder_chrome_spec(true).fill == Role::CardBg,
        folder_chrome_spec(false).bottom == Role::CardBorder,
{
}

/// The chrome [`folder_chrome`] gives, as a value.
pub open spec fn folder_chrome_spec(open: bool) -> FolderChrome {
    if open {
        FolderChrome {
            fill: Role::CardBg,
            top: Role::Accent,
            left: Role::CardBorder,
            right: Role::CardBorder,
            bottom: Role::CardBg,
            muted: false,
            heavy_top: true,
        }
    } else {
        FolderChrome {
            fill: Role::PanelBg,
            top: Role::PanelBorder,
            left: Role::PanelBorder,
            right: Role::PanelBorder,
            bottom: Role::CardBorder,
            muted: true,
            heavy_top: false,
        }
    }
}

} // verus!
