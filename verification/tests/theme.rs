use bevy::color::{Alpha, Color};
use ordo::theme::{
    generic_family, FaceSource, FaceStyle, FontFace, FontRole, FontSpec, GenericFamily, Metric,
    MetricTable, Ramps, Role, Theme, ThemeAsset, NORMAL_WEIGHT,
};

fn roles() -> [Role; 12] {
    [
        Role::PanelBg,
        Role::TitleBg,
        Role::CardBg,
        Role::CardBorder,
        Role::PanelBorder,
        Role::Scrim,
        Role::Ink,
        Role::InkDim,
        Role::Accent,
        Role::ButtonIdle,
        Role::ButtonHover,
        Role::ButtonPressed,
    ]
}

fn metrics() -> [Metric; 14] {
    [
        Metric::TitleSize,
        Metric::HeraldSize,
        Metric::HeraldLineSize,
        Metric::BodySize,
        Metric::SmallSize,
        Metric::Pad,
        Metric::Gap,
        Metric::Margin,
        Metric::LabelWidth,
        Metric::RowHeight,
        Metric::Border,
        Metric::Radius,
        Metric::RadialRadius,
        Metric::RadialDeadZone,
    ]
}

#[test]
fn every_role_and_metric_has_a_value_from_the_start() {
    let theme: Theme<u32, f32, ()> = Theme::new(7, 1.5);
    for role in roles() {
        assert_eq!(theme.color(role), 7, "no color for {role:?}");
    }
    for metric in metrics() {
        assert_eq!(theme.metric(metric), 1.5, "no value for {metric:?}");
    }
    assert!(theme.font(FontRole::Body).is_none());
}

#[test]
fn a_written_color_is_read_back_and_nothing_else_moves() {
    let mut theme: Theme<u32, u32, ()> = Theme::new(0, 0);
    theme.set_color(Role::Accent, 9);
    assert_eq!(theme.color(Role::Accent), 9);
    for role in roles() {
        if role != Role::Accent {
            assert_eq!(theme.color(role), 0);
        }
    }
    for metric in metrics() {
        assert_eq!(theme.metric(metric), 0);
    }
}

#[test]
fn a_written_metric_is_read_back() {
    let mut theme: Theme<u32, f32, ()> = Theme::new(0, 0.0);
    theme.set_metric(Metric::LabelWidth, -1.0);
    assert_eq!(theme.metric(Metric::LabelWidth), -1.0);
    theme.set_metric(Metric::LabelWidth, 112.0);
    assert_eq!(theme.metric(Metric::LabelWidth), 112.0);
    assert_eq!(theme.metric(Metric::Pad), 0.0);
}

#[test]
fn a_named_font_is_read_back_for_its_role_only() {
    let mut theme: Theme<u32, u32, &str> = Theme::new(0, 0);
    theme.set_font(FontRole::Display, "Cinzel");
    assert_eq!(theme.font(FontRole::Display), Some(&"Cinzel"));
    assert_eq!(theme.font(FontRole::Body), None);
    assert_eq!(theme.font(FontRole::DisplayBold), None);
}

#[test]
fn colors_fold_in_order_and_the_later_statement_stands() {
    let mut theme: Theme<u32, u32, ()> = Theme::new(1, 0);
    theme.apply_colors(vec![(Role::Ink, 5), (Role::Accent, 6), (Role::Ink, 8)]);
    assert_eq!(theme.color(Role::Ink), 8);
    assert_eq!(theme.color(Role::Accent), 6);
    assert_eq!(theme.color(Role::PanelBg), 1);
}

#[test]
fn a_partial_metric_table_leaves_the_rest_alone() {
    let mut theme: Theme<u32, f32, ()> = Theme::new(0, 3.0);
    let mut table: MetricTable<f32> = MetricTable::empty();
    table.pad = Some(20.0);
    theme.apply_metric_table(&table);
    assert_eq!(theme.metric(Metric::Pad), 20.0);
    assert_eq!(theme.metric(Metric::Gap), 3.0);
    assert_eq!(theme.metric(Metric::LabelWidth), 3.0);
}

#[test]
fn a_table_lists_only_what_it_states_in_declaration_order() {
    let mut asset: ThemeAsset<u8, f32, FontSpec> = ThemeAsset::empty();
    assert!(asset.color.entries().is_empty());
    asset.color.button_pressed = Some(3);
    asset.color.panel_bg = Some(1);
    let entries = asset.color.entries();
    assert_eq!(entries, vec![(Role::PanelBg, &1), (Role::ButtonPressed, &3)]);
    asset.font.body = Some(FontSpec::default());
    assert_eq!(asset.font.entries().len(), 1);
    assert_eq!(asset.font.entries()[0].0, FontRole::Body);
}

#[test]
fn fonts_fold_in_order() {
    let mut theme: Theme<u8, u8, &str> = Theme::new(0, 0);
    theme.apply_fonts(vec![(FontRole::Body, "Garamond"), (FontRole::Body, "Caslon")]);
    assert_eq!(theme.font(FontRole::Body), Some(&"Caslon"));
    assert_eq!(theme.font(FontRole::Display), None);
}

#[test]
fn a_ramp_resolves_through_the_games_own_sampler() {
    let mut ramps: Ramps<Box<dyn Fn(f32) -> Color>> = Ramps::new();
    // Deliberately not a plain lerp: the point of handing over a closure is
    // that whatever the game does here is what the theme gets.
    ramps.register("gold".to_string(), Box::new(|t| Color::srgb(t * t, 0.0, 0.0)));
    let (shade, alpha) = (0.5, 0.25);
    let color = ramps
        .find("gold")
        .map(|sample| sample(shade).with_alpha(alpha))
        .expect("registered ramp should resolve");
    assert_eq!(color.to_srgba().red, 0.25);
    assert_eq!(color.alpha(), 0.25);
}

#[test]
fn a_ramp_no_game_registered_resolves_to_nothing() {
    let ramps: Ramps<Box<dyn Fn(f32) -> f32>> = Ramps::new();
    assert!(ramps.find("nobody_lent_this").is_none());
}

#[test]
fn registering_a_name_again_replaces_it_and_leaves_the_others() {
    let mut ramps: Ramps<u32> = Ramps::new();
    ramps.register("gold".to_string(), 1);
    ramps.register("bone".to_string(), 2);
    ramps.register("gold".to_string(), 3);
    assert_eq!(ramps.find("gold"), Some(&3));
    assert_eq!(ramps.find("bone"), Some(&2));
    assert_eq!(ramps.find("gol"), None);
}

fn spec() -> FontSpec {
    FontSpec::default()
}

#[test]
fn a_font_can_be_named_three_ways() {
    let by_path = FontSpec { path: Some("fonts/Cinzel.ttf".into()), ..spec() };
    assert_eq!(
        by_path.resolve(),
        Some(FontFace {
            source: FaceSource::Path("fonts/Cinzel.ttf".into()),
            weight: NORMAL_WEIGHT,
            style: FaceStyle::Normal,
        })
    );
    let by_family = FontSpec { family: Some("EB Garamond".into()), italic: true, ..spec() };
    assert_eq!(
        by_family.resolve(),
        Some(FontFace {
            source: FaceSource::Family("EB Garamond".into()),
            weight: 400,
            style: FaceStyle::Italic,
        })
    );
    let by_generic = FontSpec { generic: Some("monospace".into()), weight: Some(700), ..spec() };
    assert_eq!(
        by_generic.resolve(),
        Some(FontFace {
            source: FaceSource::Generic(GenericFamily::Monospace),
            weight: 700,
            style: FaceStyle::Normal,
        })
    );
}

#[test]
fn a_nameless_font_resolves_to_nothing() {
    assert_eq!(FontSpec { weight: Some(700), ..spec() }.resolve(), None);
    assert_eq!(FontSpec { generic: Some("gothic".into()), ..spec() }.resolve(), None);
}

#[test]
fn the_path_wins_over_the_family_and_the_family_over_the_generic() {
    let all = FontSpec {
        path: Some("a.ttf".into()),
        family: Some("B".into()),
        generic: Some("serif".into()),
        ..spec()
    };
    assert_eq!(all.resolve().unwrap().source, FaceSource::Path("a.ttf".into()));
    let two = FontSpec { family: Some("B".into()), generic: Some("serif".into()), ..spec() };
    assert_eq!(two.resolve().unwrap().source, FaceSource::Family("B".into()));
}

#[test]
fn the_css_generic_families_are_spelled_as_css_spells_them() {
    let names = [
        ("serif", GenericFamily::Serif),
        ("sans-serif", GenericFamily::SansSerif),
        ("monospace", GenericFamily::Monospace),
        ("cursive", GenericFamily::Cursive),
        ("fantasy", GenericFamily::Fantasy),
        ("system-ui", GenericFamily::SystemUi),
        ("ui-serif", GenericFamily::UiSerif),
        ("ui-sans-serif", GenericFamily::UiSansSerif),
        ("ui-monospace", GenericFamily::UiMonospace),
        ("ui-rounded", GenericFamily::UiRounded),
        ("emoji", GenericFamily::Emoji),
        ("math", GenericFamily::Math),
    ];
    for (name, family) in names {
        assert_eq!(generic_family(name), Some(family), "{name}");
    }
    assert_eq!(generic_family("Serif"), None);
    assert_eq!(generic_family("sans serif"), None);
    assert_eq!(generic_family(""), None);
}

#[test]
fn every_named_font_is_resolved_in_order_and_a_nameless_one_reported() {
    let mut asset: ThemeAsset<u8, f32, FontSpec> = ThemeAsset::empty();
    asset.font.body = Some(FontSpec { generic: Some("monospace".into()), ..FontSpec::default() });
    asset.font.display = Some(FontSpec { path: Some("fonts/Cinzel.ttf".into()), ..FontSpec::default() });
    asset.font.display_bold = Some(FontSpec { weight: Some(700), ..FontSpec::default() });
    let resolved = asset.font.resolve_all();
    assert_eq!(resolved.len(), 3);
    assert_eq!(resolved[0].0, FontRole::Display);
    assert_eq!(resolved[0].1.as_ref().unwrap().source, FaceSource::Path("fonts/Cinzel.ttf".into()));
    assert_eq!(resolved[1], (FontRole::DisplayBold, None));
    assert_eq!(resolved[2].1.as_ref().unwrap().source, FaceSource::Generic(GenericFamily::Monospace));
}
