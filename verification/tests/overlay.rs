use ordo::overlay::{
    hint_action, shelf_overflow, HintAction, Layer, Notice, Notices, Proclamation, Proclamations, Tooltip, TOAST_CAP,
};
use ordo::theme::Role;

#[test]
fn the_layers_are_strictly_ordered() {
    let ladder = [Layer::Panel, Layer::Window, Layer::Modal, Layer::Toast, Layer::Tooltip];
    for rung in ladder.windows(2) {
        assert!(rung[0].z() < rung[1].z(), "{:?} should sit below {:?}", rung[0], rung[1]);
    }
}

#[test]
fn the_world_sits_under_all_interface_chrome() {
    assert_eq!(Layer::World.z(), -10);
    assert_eq!(Layer::Panel.z(), 0);
    assert_eq!(Layer::Window.z(), 10);
    assert_eq!(Layer::Modal.z(), 100);
    assert_eq!(Layer::Toast.z(), 200);
    assert_eq!(Layer::Tooltip.z(), 300);
}

#[test]
fn notices_wait_for_a_shelf_rather_than_being_dropped() {
    let mut notices = Notices::default();
    notices.say("held");
    // No shelf on screen, two frames running.
    assert!(notices.deliver(0).is_empty());
    assert!(notices.deliver(0).is_empty());
    assert_eq!(notices.pending(), 1, "the notice should still be queued with no shelf on screen");

    // A shelf arrives.
    let handed = notices.deliver(1);
    assert_eq!(notices.pending(), 0);
    assert_eq!(handed.len(), 1);
    assert_eq!(handed[0].text, "held");
}

#[test]
fn two_shelves_hold_the_queue_too() {
    let mut notices = Notices::default();
    notices.push(Notice::fanfare("a founding"));
    assert!(notices.deliver(2).is_empty());
    assert_eq!(notices.pending(), 1);
}

#[test]
fn notices_are_handed_over_oldest_first() {
    let mut notices = Notices::default();
    notices.say("first");
    notices.push(Notice::fanfare("second"));
    notices.say(String::from("third"));
    let handed = notices.deliver(1);
    let texts: Vec<&str> = handed.iter().map(|n| n.text.as_str()).collect();
    assert_eq!(texts, ["first", "second", "third"]);
    assert!(!handed[0].fanfare && handed[1].fanfare && !handed[2].fanfare);
}

#[test]
fn a_fanfare_is_inked_in_the_accent() {
    assert_eq!(Notice::fanfare("a birth").ink(), Role::Accent);
    assert_eq!(Notice::new("rain").ink(), Role::Ink);
}

#[test]
fn the_shelf_evicts_down_to_its_cap() {
    let mut notices = Notices::default();
    for i in 0..(TOAST_CAP + 4) {
        notices.say(format!("notice {i}"));
    }
    let on_shelf = notices.deliver(1).len();
    let evicted = shelf_overflow(on_shelf);
    assert_eq!(
        on_shelf - evicted,
        TOAST_CAP,
        "the shelf should have evicted the oldest down to the cap"
    );
}

#[test]
fn a_shelf_under_its_cap_keeps_everything() {
    assert_eq!(shelf_overflow(0), 0);
    assert_eq!(shelf_overflow(5), 0);
    assert_eq!(shelf_overflow(6), 0);
    assert_eq!(shelf_overflow(7), 1);
    assert_eq!(shelf_overflow(usize::MAX), usize::MAX - 6);
}

#[test]
fn a_tooltip_keeps_its_two_parts() {
    let hint = Tooltip::new("Granary", String::from("Holds the harvest"));
    assert_eq!(hint.title, "Granary");
    assert_eq!(hint.line, "Holds the harvest");
}

fn proclamation(title: &str) -> Proclamation<u32> {
    Proclamation { title: title.into(), line: String::new(), color: 0, token: None }
}

#[test]
fn the_second_great_thing_waits_for_the_first() {
    let mut line: Proclamations<u32> = Proclamations::default();
    line.push(proclamation("A birth"));
    line.push(Proclamation { token: Some(7), ..proclamation("A founding") });

    // No stage yet: nothing plays, nothing is lost.
    assert!(line.next_on_stage(0, false).is_none());
    assert_eq!(line.0.len(), 2);

    let first = line.next_on_stage(1, false).expect("an empty stage takes the first");
    assert_eq!(first.title, "A birth");
    // While it plays, the second waits.
    assert!(line.next_on_stage(1, true).is_none());
    assert_eq!(line.0.len(), 1);

    let second = line.next_on_stage(1, false).expect("then the second");
    assert_eq!(second.title, "A founding");
    assert_eq!(second.token, Some(7));
    assert!(line.next_on_stage(1, false).is_none());
}

#[test]
fn there_is_never_more_than_one_hint_on_screen() {
    assert_eq!(hint_action(true, 0), HintAction::Show);
    assert_eq!(hint_action(true, 1), HintAction::Keep);
    assert_eq!(hint_action(false, 1), HintAction::Clear);
    assert_eq!(hint_action(false, 0), HintAction::Clear);
}
