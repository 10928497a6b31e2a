use ordo::theme::{Metric, Role};
use ordo::widgets::{button_face, button_repaints, chrome, Measure, Anchor, Centering, Inset, Insets, Pull, Rank};

const ALL: [Anchor; 10] = [
    Anchor::TopLeft,
    Anchor::TopRight,
    Anchor::BottomLeft,
    Anchor::BottomRight,
    Anchor::Left,
    Anchor::Right,
    Anchor::Top,
    Anchor::Bottom,
    Anchor::Center,
    Anchor::Herald,
];

#[test]
fn corners_stand_a_margin_off_both_walls_and_are_not_pulled() {
    assert_eq!(
        Anchor::TopLeft.offsets(),
        Insets { top: Inset::Margin, right: Inset::Auto, bottom: Inset::Auto, left: Inset::Margin }
    );
    assert_eq!(
        Anchor::BottomRight.offsets(),
        Insets { top: Inset::Auto, right: Inset::Margin, bottom: Inset::Margin, left: Inset::Auto }
    );
    for corner in [Anchor::TopLeft, Anchor::TopRight, Anchor::BottomLeft, Anchor::BottomRight] {
        assert_eq!(corner.centering(), None);
    }
}

#[test]
fn the_herald_stands_a_third_of_the_way_down() {
    assert_eq!(Anchor::Herald.offsets().top, Inset::Percent(30));
    assert_eq!(Anchor::Herald.offsets().left, Inset::Percent(50));
    assert_eq!(Anchor::Herald.centering(), Some(Centering { x: Pull::HalfBack, y: Pull::HalfBack }));
}

#[test]
fn an_edge_anchor_is_pulled_back_along_the_axis_it_centres_on() {
    assert_eq!(Anchor::Left.centering(), Some(Centering { x: Pull::Zero, y: Pull::HalfBack }));
    assert_eq!(Anchor::Top.centering(), Some(Centering { x: Pull::HalfBack, y: Pull::Zero }));
    for anchor in ALL {
        let sides = anchor.offsets();
        let pull = anchor.centering().unwrap_or(Centering { x: Pull::Zero, y: Pull::Zero });
        assert_eq!(pull.x == Pull::HalfBack, matches!(sides.left, Inset::Percent(_)), "{anchor:?}");
        assert_eq!(pull.y == Pull::HalfBack, matches!(sides.top, Inset::Percent(_)), "{anchor:?}");
    }
}

#[test]
fn a_stack_hugs_the_wall_it_stands_on() {
    assert_eq!(Anchor::TopLeft.ranks(), Rank::Start);
    assert_eq!(Anchor::Right.ranks(), Rank::End);
    assert_eq!(Anchor::Bottom.ranks(), Rank::Center);
    assert_eq!(Anchor::Herald.ranks(), Rank::Center);
}

#[test]
fn pressed_beats_hovered_beats_open() {
    assert_eq!(button_face(true, true, true), (Role::ButtonPressed, Role::Accent));
    assert_eq!(button_face(false, true, true), (Role::ButtonHover, Role::Accent));
    assert_eq!(button_face(false, false, true), (Role::ButtonPressed, Role::Accent));
    assert_eq!(button_face(false, false, false), (Role::ButtonIdle, Role::PanelBorder));
}

#[test]
fn a_hanging_panel_gives_its_top_edge_to_the_screen() {
    let plain = chrome(true, false);
    let hanging = chrome(true, true);
    assert_eq!(plain.padding_top, Some(Measure::Metric(Metric::Pad)));
    assert_eq!(hanging.padding_top, Some(Measure::Twice(Metric::Pad)));
    assert_eq!(hanging.border_top, Some(Measure::Nothing));
    assert_eq!(hanging.radius_top, Some(Measure::Nothing));
    assert_eq!(hanging.radius_bottom, plain.radius_bottom);
    assert_eq!(hanging.border_rest, Some(Measure::Metric(Metric::Border)));
    let bare = chrome(false, false);
    assert_eq!(bare.padding_top, None);
    assert_eq!(bare.gap, None);
}

#[test]
fn a_release_is_repainted_even_though_nothing_watched_it() {
    assert_eq!(button_repaints(false, vec![1, 2, 3, 4], vec![2], vec![3], vec![4]), vec![2, 3, 4]);
    assert_eq!(button_repaints(true, vec![1, 2, 3, 4], vec![2], vec![3], vec![]), vec![1, 2, 3, 4]);
    assert_eq!(button_repaints::<u8>(false, vec![], vec![], vec![], vec![]), Vec::<u8>::new());
}
