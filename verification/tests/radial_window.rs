use ordo::radial::Radial;
use ordo::theme::Role;
use ordo::window::{last_hit, WindowStack};

#[test]
fn an_empty_hub_has_nothing_chosen() {
    let hub = Radial::new(0);
    assert_eq!(hub.count, 0);
    assert_eq!(hub.selected, None);
}

#[test]
fn the_chosen_wedge_is_lit_and_a_spent_one_dimmed() {
    let mut hub = Radial::new(4);
    assert_eq!(hub.wedge_ink(1, false), Role::Ink);
    hub.selected = Some(1);
    assert_eq!(hub.wedge_ink(1, false), Role::Accent);
    assert_eq!(hub.wedge_ink(2, false), Role::Ink);
    assert_eq!(hub.wedge_ink(1, true), Role::InkDim);
}

#[test]
fn the_window_last_raised_is_in_front() {
    let mut stack = WindowStack::new();
    assert_eq!(stack.top(), 0);
    let first = stack.raise();
    let second = stack.raise();
    assert!(second > first);
    assert_eq!(stack.top(), 2);
}

#[test]
fn a_click_touches_the_last_window_under_it() {
    assert_eq!(last_hit(&vec![]), None);
    assert_eq!(last_hit(&vec![false, false]), None);
    assert_eq!(last_hit(&vec![true, false, true, false]), Some(2));
    assert_eq!(last_hit(&vec![true]), Some(0));
}

#[test]
fn a_frame_raises_the_opened_windows_then_the_one_clicked() {
    let mut stack = WindowStack::new();
    stack.raise();
    let hits = vec![true, false, true, false];
    let frame = stack.focus(2, Some(&hits));
    assert_eq!(frame.opened, vec![2, 3]);
    assert_eq!(frame.touched, Some((2, 4)));
    assert_eq!(stack.top(), 4);
}

#[test]
fn a_frame_without_a_click_raises_only_what_opened() {
    let mut stack = WindowStack::new();
    let frame = stack.focus(1, None);
    assert_eq!(frame.opened, vec![1]);
    assert_eq!(frame.touched, None);
    let missed = vec![false, false];
    let frame = stack.focus(0, Some(&missed));
    assert!(frame.opened.is_empty());
    assert_eq!(frame.touched, None);
    assert_eq!(stack.top(), 1);
}
