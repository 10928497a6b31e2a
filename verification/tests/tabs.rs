use ordo::tabs::{is_selected, tab_chrome, MarkChange, Tab, Tabs};
use ordo::theme::Role;

#[test]
fn a_strip_opens_on_its_first_tab() {
    assert_eq!(Tabs::default().selected, 0);
}

#[test]
fn an_open_tab_wears_the_pressed_face_and_an_accent_edge() {
    assert_eq!(is_selected(true), Some((Role::ButtonPressed, Role::Accent)));
    assert_eq!(is_selected(false), None);
}

#[test]
fn opening_a_tab_shows_its_pane_and_closes_the_last_one() {
    let mut strip = Tabs::default();
    let video = Tab(0);
    let audio = Tab(1);
    // First frame: nothing marked yet.
    assert_eq!(strip.mark(video.0, false), MarkChange::Mark, "a strip should open on its first tab");
    assert_eq!(strip.mark(audio.0, false), MarkChange::Keep);
    assert!(strip.shows(0) && !strip.shows(1));

    strip.open(audio.0);
    assert_eq!(strip.mark(video.0, true), MarkChange::Unmark, "the tab left behind is still marked open");
    assert_eq!(strip.mark(audio.0, false), MarkChange::Mark);
    assert!(strip.shows(1) && !strip.shows(0));
    assert!(strip.is_open(1) && !strip.is_open(0));
}

#[test]
fn opening_the_open_tab_changes_nothing() {
    let mut strip = Tabs { selected: 2 };
    strip.open(2);
    assert_eq!(strip, Tabs { selected: 2 });
    assert_eq!(strip.mark(2, true), MarkChange::Keep);
    assert_eq!(strip.mark(5, false), MarkChange::Keep);
}

#[test]
fn an_open_tab_joins_its_pane() {
    let open = tab_chrome(true, false);
    assert_eq!(open.fill, Role::CardBg);
    assert_eq!(open.top, Role::Accent);
    assert_eq!(open.bottom, Role::CardBg);
    assert_eq!(tab_chrome(true, true), open);

    let closed = tab_chrome(false, false);
    assert_eq!(closed.fill, Role::ButtonIdle);
    assert_eq!((closed.top, closed.left, closed.right, closed.bottom), (Role::PanelBorder, Role::PanelBorder, Role::PanelBorder, Role::PanelBorder));
    assert_eq!(tab_chrome(false, true).fill, Role::ButtonHover);
}

#[test]
fn an_open_folder_tab_opens_its_foot_onto_the_page() {
    let open = ordo::tabs::folder_chrome(true);
    assert_eq!((open.top, open.left, open.right, open.bottom, open.fill), (Role::Accent, Role::CardBorder, Role::CardBorder, Role::CardBg, Role::CardBg));
    assert!(!open.muted && open.heavy_top);
    let closed = ordo::tabs::folder_chrome(false);
    assert_eq!((closed.top, closed.left, closed.right, closed.bottom, closed.fill), (Role::PanelBorder, Role::PanelBorder, Role::PanelBorder, Role::CardBorder, Role::PanelBg));
    assert!(closed.muted && !closed.heavy_top);
}
