//! Roles, metrics, and the store that maps them to the game's own values.
//!
//! Ordo does not own color. It owns the *vocabulary* — what a `CardBorder` is
//! for, how wide a label column should be — and the game supplies the pigment.
//! The store here is therefore generic over what a color, a measurement and a
//! typeface actually are: the game's renderer decides that, and nothing in the
//! bookkeeping depends on it.

use vstd::prelude::*;

verus! {

/// What a color is *for*. Roles, not names: a panel border stays a panel
/// border when the game turns from gold to verdigris.
#[derive(Debug, Clone, Copy, PartialEq, Eq, Hash, Structural)]
pub enum Role {
    /// Panel background. Near opaque by convention.
    PanelBg,
    /// Title-bar fill, a shade off the panel so chrome reads as its own part.
    TitleBg,
    /// The warm well: detail panes that should read as a second material.
    CardBg,
    CardBorder,
    PanelBorder,
    /// The dimmer a modal sits on.
    Scrim,
    /// Primary text.
    Ink,
    /// Secondary text — found second, but still found.
    InkDim,
    /// Emphasis. Titles, and the occasional word that matters.
    Accent,
    ButtonIdle,
    ButtonHover,
    ButtonPressed,
}

/// What a typeface is *for*.
#[derive(Debug, Clone, Copy, PartialEq, Eq, Hash, Structural)]
pub enum FontRole {
    Display,
    DisplayBold,
    Body,
}

/// A tunable number. The call site asks for the label column, not for 112
/// pixels.
#[derive(Debug, Clone, Copy, PartialEq, Eq, Hash, Structural)]
pub enum Metric {
    TitleSize,
    /// A herald's voice: the proclamation card's title, and nothing else.
    HeraldSize,
    /// The line beneath a herald's title.
    HeraldLineSize,
    BodySize,
    SmallSize,
    /// Inner padding of a panel.
    Pad,
    /// Gap between rows inside a panel.
    Gap,
    /// Distance from the screen edge to an anchored panel.
    Margin,
    /// Width of the label column in a stat row.
    LabelWidth,
    RowHeight,
    Border,
    Radius,
    /// Distance from a radial menu's hub to its wedges.
    RadialRadius,
    /// Radius around a radial hub inside which nothing is selected yet.
    RadialDeadZone,
}

/// How many color roles there are.
pub const ROLE_COUNT: usize = 12;

/// How many metrics there are.
pub const METRIC_COUNT: usize = 14;

/// How many font roles there are.
pub const FONT_ROLE_COUNT: usize = 3;

/// Where a role's color is kept: its place in declaration order.
pub open spec fn role_slot(role: Role) -> int {
    match role {
        Role::PanelBg => 0,
        Role::TitleBg => 1,
        Role::CardBg => 2,
        Role::CardBorder => 3,
        Role::PanelBorder => 4,
        Role::Scrim => 5,
        Role::Ink => 6,
        Role::InkDim => 7,
        Role::Accent => 8,
        Role::ButtonIdle => 9,
        Role::ButtonHover => 10,
        Role::ButtonPressed => 11,
    }
}

/// Where a metric's value is kept: its place in declaration order.
pub open spec fn metric_slot(metric: Metric) -> int {
    match metric {
        Metric::TitleSize => 0,
        Metric::HeraldSize => 1,
        Metric::HeraldLineSize => 2,
        Metric::BodySize => 3,
        Metric::SmallSize => 4,
        Metric::Pad => 5,
        Metric::Gap => 6,
        Metric::Margin => 7,
        Metric::LabelWidth => 8,
        Metric::RowHeight => 9,
        Metric::Border => 10,
        Metric::Radius => 11,
        Metric::RadialRadius => 12,
        Metric::RadialDeadZone => 13,
    }
}

/// Where a font role's face is kept: its place in declaration order.
pub open spec fn font_slot(role: FontRole) -> int {
    match role {
        FontRole::Display => 0,
        FontRole::DisplayBold => 1,
        FontRole::Body => 2,
    }
}

impl Role {
    /// This role's place in declaration order.
    pub fn slot(self) -> (i: usize)
        ensures
            i == role_slot(self),
            i < ROLE_COUNT,
    {
        match self {
            Role::PanelBg => 0,
            Role::TitleBg => 1,
            Role::CardBg => 2,
            Role::CardBorder => 3,
            Role::PanelBorder => 4,
            Role::Scrim => 5,
            Role::Ink => 6,
            Role::InkDim => 7,
            Role::Accent => 8,
            Role::ButtonIdle => 9,
            Role::ButtonHover => 10,
            Role::ButtonPressed => 11,
        }
    }
}

impl Metric {
    /// This metric's place in declaration order.
    pub fn slot(self) -> (i: usize)
        ensures
            i == metric_slot(self),
            i < METRIC_COUNT,
    {
        match self {
            Metric::TitleSize => 0,
            Metric::HeraldSize => 1,
            Metric::HeraldLineSize => 2,
            Metric::BodySize => 3,
            Metric::SmallSize => 4,
            Metric::Pad => 5,
            Metric::Gap => 6,
            Metric::Margin => 7,
            Metric::LabelWidth => 8,
            Metric::RowHeight => 9,
            Metric::Border => 10,
            Metric::Radius => 11,
            Metric::RadialRadius => 12,
            Metric::RadialDeadZone => 13,
        }
    }
}

impl FontRole {
    /// This font role's place in declaration order.
    pub fn slot(self) -> (i: usize)
        ensures
            i == font_slot(self),
            i < FONT_ROLE_COUNT,
    {
        match self {
            FontRole::Display => 0,
            FontRole::DisplayBold => 1,
            FontRole::Body => 2,
        }
    }
}

/// The resolved theme: a color for every role, a value for every metric, and
/// a typeface for whichever font roles the game has named.
///
/// `C` is what the renderer calls a color, `M` a measurement and `F` a
/// typeface. Every role and every metric always holds a value — a theme is
/// complete from the moment it exists — which is what lets a game with no
/// theme file at all look deliberate rather than half-painted.
pub struct Theme<C, M, F> {
    colors: Vec<C>,
    metrics: Vec<M>,
    fonts: Vec<Option<F>>,
}

impl<C, M, F> Theme<C, M, F> {
    #[verifier::type_invariant]
    spec fn complete(self) -> bool {
        &&& self.colors@.len() == ROLE_COUNT
        &&& self.metrics@.len() == METRIC_COUNT
        &&& self.fonts@.len() == FONT_ROLE_COUNT
    }

    /// The color a role currently has.
    pub closed spec fn color_of(self, role: Role) -> C {
        self.colors@[role_slot(role)]
    }

    /// The value a metric currently has.
    pub closed spec fn metric_of(self, metric: Metric) -> M {
        self.metrics@[metric_slot(metric)]
    }

    /// The typeface a font role currently has, if the game named one.
    pub closed spec fn font_of(self, role: FontRole) -> Option<F> {
        self.fonts@[font_slot(role)]
    }
}

/// The value the last pair naming `key` carries, if any pair names it.
///
/// A theme file is folded in order, so of two statements about one role the
/// later one is what stands.
pub open spec fn last_stated<K, V>(pairs: Seq<(K, V)>, key: K) -> Option<V>
    decreases pairs.len(),
{
    if pairs.len() == 0 {
        None
    } else if pairs.last().0 == key {
        Some(pairs.last().1)
    } else {
        last_stated(pairs.drop_last(), key)
    }
}

/// What a key holds after `pairs` are folded over `before`.
pub open spec fn stated_or<K, V>(pairs: Seq<(K, V)>, key: K, before: V) -> V {
    match last_stated(pairs, key) {
        Some(v) => v,
        None => before,
    }
}

impl<C: Copy, M: Copy, F> Theme<C, M, F> {
    /// A theme with every role painted `paint` and every metric at `measure`,
    /// and no typeface named. A game's defaults are written over this.
    pub fn new(paint: C, measure: M) -> (theme: Self)
        ensures
            forall|r: Role| #[trigger] theme.color_of(r) == paint,
            forall|m: Metric| #[trigger] theme.metric_of(m) == measure,
            forall|f: FontRole| #[trigger] theme.font_of(f) is None,
    {
        let mut colors: Vec<C> = Vec::new();
        while colors.len() < ROLE_COUNT
            invariant
                colors@.len() <= ROLE_COUNT,
                forall|i: int| 0 <= i < colors@.len() ==> colors@[i] == paint,
            decreases ROLE_COUNT - colors@.len(),
        {
            colors.push(paint);
        }
        let mut metrics: Vec<M> = Vec::new();
        while metrics.len() < METRIC_COUNT
            invariant
                metrics@.len() <= METRIC_COUNT,
                forall|i: int| 0 <= i < metrics@.len() ==> metrics@[i] == measure,
            decreases METRIC_COUNT - metrics@.len(),
        {
            metrics.push(measure);
        }
        let mut fonts: Vec<Option<F>> = Vec::new();
        while fonts.len() < FONT_ROLE_COUNT
            invariant
                fonts@.len() <= FONT_ROLE_COUNT,
                forall|i: int| 0 <= i < fonts@.len() ==> fonts@[i] is None,
            decreases FONT_ROLE_COUNT - fonts@.len(),
        {
            fonts.push(None);
        }
        Theme { colors, metrics, fonts }
    }

    /// The color a role currently has. Total: there is no role without one.
    pub fn color(&self, role: Role) -> (c: C)
        ensures
            c == self.color_of(role),
    {
        proof {
            use_type_invariant(self);
        }
        self.colors[role.slot()]
    }

    /// Paints a role. Every other role, every metric and every typeface
    /// stays as it was.
    pub fn set_color(&mut self, role: Role, color: C)
        ensures
            final(self).color_of(role) == color,
            forall|r: Role| r != role ==> #[trigger] final(self).color_of(r) == old(self).color_of(r),
            forall|m: Metric| #[trigger] final(self).metric_of(m) == old(self).metric_of(m),
            forall|f: FontRole| #[trigger] final(self).font_of(f) == old(self).font_of(f),
    {
        proof {
            use_type_invariant(&*self);
        }
        let i = role.slot();
        self.colors[i] = color;
    }

    /// The value a metric currently has. Total: there is no metric without one.
    pub fn metric(&self, metric: Metric) -> (v: M)
        ensures
            v == self.metric_of(metric),
    {
        proof {
            use_type_invariant(self);
        }
        self.metrics[metric.slot()]
    }

    /// Sets a metric. Every other metric, every color and every typeface
    /// stays as it was.
    pub fn set_metric(&mut self, metric: Metric, value: M)
        ensures
            final(self).metric_of(metric) == value,
            forall|m: Metric| m != metric ==> #[trigger] final(self).metric_of(m) == old(self).metric_of(m),
            forall|r: Role| #[trigger] final(self).color_of(r) == old(self).color_of(r),
            forall|f: FontRole| #[trigger] final(self).font_of(f) == old(self).font_of(f),
    {
        proof {
            use_type_invariant(&*self);
        }
        let i = metric.slot();
        self.metrics[i] = value;
    }
}

impl<C: Copy, M: Copy, F> Theme<C, M, F> {
    /// Folds resolved colors into the theme, in order.
    ///
    /// A role a file does not state keeps what it had, which is what lets a
    /// game's file state only what it disagrees with; of two statements about
    /// one role, the later stands.
    pub fn apply_colors(&mut self, stated: Vec<(Role, C)>)
        ensures
            forall|r: Role| #[trigger] final(self).color_of(r) == stated_or(stated@, r, old(self).color_of(r)),
            forall|m: Metric| #[trigger] final(self).metric_of(m) == old(self).metric_of(m),
            forall|f: FontRole| #[trigger] final(self).font_of(f) == old(self).font_of(f),
    {
        let mut i: usize = 0;
        while i < stated.len()
            invariant
                i <= stated@.len(),
                forall|r: Role| #[trigger] self.color_of(r) == stated_or(stated@.take(i as int), r, old(self).color_of(r)),
                forall|m: Metric| #[trigger] self.metric_of(m) == old(self).metric_of(m),
                forall|f: FontRole| #[trigger] self.font_of(f) == old(self).font_of(f),
            decreases stated@.len() - i,
        {
            let (role, color) = stated[i];
            self.set_color(role, color);
            assert(stated@.take(i + 1).drop_last() =~= stated@.take(i as int));
            i = i + 1;
        }
        assert(stated@.take(i as int) =~= stated@);
    }

    /// Folds stated metrics into the theme, in order. A metric a file does
    /// not state keeps what it had; of two statements, the later stands.
    pub fn apply_metrics(&mut self, stated: Vec<(Metric, M)>)
        ensures
            forall|m: Metric| #[trigger] final(self).metric_of(m) == stated_or(stated@, m, old(self).metric_of(m)),
            forall|r: Role| #[trigger] final(self).color_of(r) == old(self).color_of(r),
            forall|f: FontRole| #[trigger] final(self).font_of(f) == old(self).font_of(f),
    {
        let mut i: usize = 0;
        while i < stated.len()
            invariant
                i <= stated@.len(),
                forall|m: Metric| #[trigger] self.metric_of(m) == stated_or(stated@.take(i as int), m, old(self).metric_of(m)),
                forall|r: Role| #[trigger] self.color_of(r) == old(self).color_of(r),
                forall|f: FontRole| #[trigger] self.font_of(f) == old(self).font_of(f),
            decreases stated@.len() - i,
        {
            let (metric, value) = stated[i];
            self.set_metric(metric, value);
            assert(stated@.take(i + 1).drop_last() =~= stated@.take(i as int));
            i = i + 1;
        }
        assert(stated@.take(i as int) =~= stated@);
    }
}

impl<C: Copy, M: Copy, F> Theme<C, M, F> {
    /// Folds a file's `[metric]` table into the theme: every metric it states
    /// takes the stated value, and every metric it leaves out keeps its own.
    pub fn apply_metric_table(&mut self, table: &MetricTable<M>)
        ensures
            forall|m: Metric| #[trigger] final(self).metric_of(m) == match table.entry(m) {
                Some(v) => v,
                None => old(self).metric_of(m),
            },
            forall|r: Role| #[trigger] final(self).color_of(r) == old(self).color_of(r),
            forall|f: FontRole| #[trigger] final(self).font_of(f) == old(self).font_of(f),
    {
        let entries = table.entries();
        let mut pairs: Vec<(Metric, M)> = Vec::new();
        let mut i: usize = 0;
        while i < entries.len()
            invariant
                i <= entries@.len(),
                derefs(entries@) == table.stated(),
                pairs@ == table.stated().take(i as int),
            decreases entries@.len() - i,
        {
            let (metric, value) = entries[i];
            pairs.push((metric, *value));
            assert(pairs@ =~= table.stated().take(i + 1));
            i = i + 1;
        }
        assert(pairs@ =~= table.stated());
        self.apply_metrics(pairs);
        proof {
            assert forall|m: Metric| #[trigger] last_stated(table.stated(), m) == table.entry(m) by {
                table.lookup_stated(m);
            }
        }
    }
}

impl<C, M, F> Theme<C, M, F> {
    /// The typeface for a role, if the game named one.
    ///
    /// `None` is the ordinary case for a game that has no opinion, and it
    /// means "leave the text's face alone".
    pub fn font(&self, role: FontRole) -> (face: Option<&F>)
        ensures
            match self.font_of(role) {
                Some(f) => face == Some(&f),
                None => face is None,
            },
    {
        proof {
            use_type_invariant(self);
        }
        self.fonts[role.slot()].as_ref()
    }

    /// Folds resolved typefaces into the theme, in order. A font role a file
    /// does not name keeps what it had; of two statements, the later stands.
    pub fn apply_fonts(&mut self, stated: Vec<(FontRole, F)>)
        ensures
            forall|f: FontRole| #[trigger] final(self).font_of(f) == match last_stated(stated@, f) {
                Some(face) => Some(face),
                None => old(self).font_of(f),
            },
            forall|r: Role| #[trigger] final(self).color_of(r) == old(self).color_of(r),
            forall|m: Metric| #[trigger] final(self).metric_of(m) == old(self).metric_of(m),
    {
        let ghost all = stated@;
        let n = stated.len();
        assert(all.len() == n);
        let mut rest = stated;
        let mut done: usize = 0;
        while rest.len() > 0
            invariant
                done <= all.len(),
                all.len() <= usize::MAX,
                rest@ == all.skip(done as int),
                forall|f: FontRole| #[trigger] self.font_of(f) == match last_stated(all.take(done as int), f) {
                    Some(face) => Some(face),
                    None => old(self).font_of(f),
                },
                forall|r: Role| #[trigger] self.color_of(r) == old(self).color_of(r),
                forall|m: Metric| #[trigger] self.metric_of(m) == old(self).metric_of(m),
            decreases rest@.len(),
        {
            let (role, face) = rest.remove(0);
            assert(all[done as int] == (role, face));
            self.set_font(role, face);
            assert(all.take(done + 1).drop_last() =~= all.take(done as int));
            assert(all.skip(done + 1) =~= all.skip(done as int).remove(0));
            done = done + 1;
        }
        assert(all.take(done as int) =~= all);
    }

    /// Names the typeface for a role. Every other font role, every color and
    /// every metric stays as it was.
    pub fn set_font(&mut self, role: FontRole, face: F)
        ensures
            final(self).font_of(role) == Some(face),
            forall|f: FontRole| f != role ==> #[trigger] final(self).font_of(f) == old(self).font_of(f),
            forall|r: Role| #[trigger] final(self).color_of(r) == old(self).color_of(r),
            forall|m: Metric| #[trigger] final(self).metric_of(m) == old(self).metric_of(m),
    {
        proof {
            use_type_invariant(&*self);
        }
        let i = role.slot();
        self.fonts[i] = Some(face);
    }
}

/// `acc` with one more pair on the end when `value` is stated, and unchanged
/// when it is not.
pub open spec fn with_stated<K, V>(acc: Seq<(K, V)>, key: K, value: Option<V>) -> Seq<(K, V)> {
    match value {
        Some(v) => acc.push((key, v)),
        None => acc,
    }
}

/// Pairs of a key and a borrowed value, read as pairs of a key and the value.
pub open spec fn derefs<K, V>(pairs: Seq<(K, &V)>) -> Seq<(K, V)> {
    pairs.map_values(|p: (K, &V)| (p.0, *p.1))
}

/// Looking a key up after one more stated step: the new pair answers for its
/// own key, and every other key is looked up as before.
pub proof fn lemma_with_stated<K, V>(acc: Seq<(K, V)>, key: K, value: Option<V>, probe: K)
    ensures
        last_stated(with_stated(acc, key, value), probe) == if key == probe && value is Some {
            value
        } else {
            last_stated(acc, probe)
        },
{
    if let Some(v) = value {
        let pushed = acc.push((key, v));
        assert(pushed.drop_last() =~= acc);
    }
}

/// Appends `(key, value)` when `value` is stated.
fn push_stated<'a, K, V>(out: &mut Vec<(K, &'a V)>, key: K, value: &'a Option<V>)
    ensures
        derefs(final(out)@) == with_stated(derefs(old(out)@), key, *value),
{
    if let Some(v) = value {
        out.push((key, v));
        assert(derefs(final(out)@) =~= derefs(old(out)@).push((key, *v)));
    }
}

/// The `[color]` table of a theme file: one optional entry per role.
pub struct ColorTable<S> {
    pub panel_bg: Option<S>,
    pub title_bg: Option<S>,
    pub card_bg: Option<S>,
    pub card_border: Option<S>,
    pub panel_border: Option<S>,
    pub scrim: Option<S>,
    pub ink: Option<S>,
    pub ink_dim: Option<S>,
    pub accent: Option<S>,
    pub button_idle: Option<S>,
    pub button_hover: Option<S>,
    pub button_pressed: Option<S>,
}

impl<S> ColorTable<S> {
    /// Folding a table's stated pairs gives each key its own entry: a key
    /// the table states once is found, and a key it leaves out is not.
    pub proof fn lookup_stated(self, key: Role)
        ensures
            last_stated(self.stated(), key) == self.entry(key),
    {
        let a0 = Seq::<(Role, S)>::empty();
        let a1 = with_stated(a0, Role::PanelBg, self.panel_bg);
        lemma_with_stated(a0, Role::PanelBg, self.panel_bg, key);
        let a2 = with_stated(a1, Role::TitleBg, self.title_bg);
        lemma_with_stated(a1, Role::TitleBg, self.title_bg, key);
        let a3 = with_stated(a2, Role::CardBg, self.card_bg);
        lemma_with_stated(a2, Role::CardBg, self.card_bg, key);
        let a4 = with_stated(a3, Role::CardBorder, self.card_border);
        lemma_with_stated(a3, Role::CardBorder, self.card_border, key);
        let a5 = with_stated(a4, Role::PanelBorder, self.panel_border);
        lemma_with_stated(a4, Role::PanelBorder, self.panel_border, key);
        let a6 = with_stated(a5, Role::Scrim, self.scrim);
        lemma_with_stated(a5, Role::Scrim, self.scrim, key);
        let a7 = with_stated(a6, Role::Ink, self.ink);
        lemma_with_stated(a6, Role::Ink, self.ink, key);
        let a8 = with_stated(a7, Role::InkDim, self.ink_dim);
        lemma_with_stated(a7, Role::InkDim, self.ink_dim, key);
        let a9 = with_stated(a8, Role::Accent, self.accent);
        lemma_with_stated(a8, Role::Accent, self.accent, key);
        let a10 = with_stated(a9, Role::ButtonIdle, self.button_idle);
        lemma_with_stated(a9, Role::ButtonIdle, self.button_idle, key);
        let a11 = with_stated(a10, Role::ButtonHover, self.button_hover);
        lemma_with_stated(a10, Role::ButtonHover, self.button_hover, key);
        let a12 = with_stated(a11, Role::ButtonPressed, self.button_pressed);
        lemma_with_stated(a11, Role::ButtonPressed, self.button_pressed, key);
        assert(self.stated() == a12);
    }

    /// A table that states nothing.
    pub fn empty() -> (table: Self)
        ensures
            forall|k: Role| #[trigger] table.entry(k) is None,
    {
        ColorTable {
            panel_bg: None,
            title_bg: None,
            card_bg: None,
            card_border: None,
            panel_border: None,
            scrim: None,
            ink: None,
            ink_dim: None,
            accent: None,
            button_idle: None,
            button_hover: None,
            button_pressed: None,
        }
    }

    /// The entry the table holds for `key`, if it states one.
    pub open spec fn entry(self, key: Role) -> Option<S> {
        match key {
            Role::PanelBg => self.panel_bg,
            Role::TitleBg => self.title_bg,
            Role::CardBg => self.card_bg,
            Role::CardBorder => self.card_border,
            Role::PanelBorder => self.panel_border,
            Role::Scrim => self.scrim,
            Role::Ink => self.ink,
            Role::InkDim => self.ink_dim,
            Role::Accent => self.accent,
            Role::ButtonIdle => self.button_idle,
            Role::ButtonHover => self.button_hover,
            Role::ButtonPressed => self.button_pressed,
        }
    }

    /// What the table states, in declaration order, one pair per stated
    /// entry and none for the rest.
    pub open spec fn stated(self) -> Seq<(Role, S)> {
        let acc = Seq::<(Role, S)>::empty();
        let acc = with_stated(acc, Role::PanelBg, self.panel_bg);
        let acc = with_stated(acc, Role::TitleBg, self.title_bg);
        let acc = with_stated(acc, Role::CardBg, self.card_bg);
        let acc = with_stated(acc, Role::CardBorder, self.card_border);
        let acc = with_stated(acc, Role::PanelBorder, self.panel_border);
        let acc = with_stated(acc, Role::Scrim, self.scrim);
        let acc = with_stated(acc, Role::Ink, self.ink);
        let acc = with_stated(acc, Role::InkDim, self.ink_dim);
        let acc = with_stated(acc, Role::Accent, self.accent);
        let acc = with_stated(acc, Role::ButtonIdle, self.button_idle);
        let acc = with_stated(acc, Role::ButtonHover, self.button_hover);
        let acc = with_stated(acc, Role::ButtonPressed, self.button_pressed);
        acc
    }

    /// The entries that were actually stated, in declaration order.
    pub fn entries(&self) -> (out: Vec<(Role, &S)>)
        ensures
            derefs(out@) == self.stated(),
    {
        let mut out: Vec<(Role, &S)> = Vec::new();
        assert(derefs(out@) =~= Seq::<(Role, S)>::empty());
        push_stated(&mut out, Role::PanelBg, &self.panel_bg);
        push_stated(&mut out, Role::TitleBg, &self.title_bg);
        push_stated(&mut out, Role::CardBg, &self.card_bg);
        push_stated(&mut out, Role::CardBorder, &self.card_border);
        push_stated(&mut out, Role::PanelBorder, &self.panel_border);
        push_stated(&mut out, Role::Scrim, &self.scrim);
        push_stated(&mut out, Role::Ink, &self.ink);
        push_stated(&mut out, Role::InkDim, &self.ink_dim);
        push_stated(&mut out, Role::Accent, &self.accent);
        push_stated(&mut out, Role::ButtonIdle, &self.button_idle);
        push_stated(&mut out, Role::ButtonHover, &self.button_hover);
        push_stated(&mut out, Role::ButtonPressed, &self.button_pressed);
        out
    }
}

/// The `[font]` table of a theme file: one optional entry per font role.
pub struct FontTable<S> {
    pub display: Option<S>,
    pub display_bold: Option<S>,
    pub body: Option<S>,
}

impl<S> FontTable<S> {
    /// Folding a table's stated pairs gives each key its own entry: a key
    /// the table states once is found, and a key it leaves out is not.
    pub proof fn lookup_stated(self, key: FontRole)
        ensures
            last_stated(self.stated(), key) == self.entry(key),
    {
        let a0 = Seq::<(FontRole, S)>::empty();
        let a1 = with_stated(a0, FontRole::Display, self.display);
        lemma_with_stated(a0, FontRole::Display, self.display, key);
        let a2 = with_stated(a1, FontRole::DisplayBold, self.display_bold);
        lemma_with_stated(a1, FontRole::DisplayBold, self.display_bold, key);
        let a3 = with_stated(a2, FontRole::Body, self.body);
        lemma_with_stated(a2, FontRole::Body, self.body, key);
        assert(self.stated() == a3);
    }

    /// A table that states nothing.
    pub fn empty() -> (table: Self)
        ensures
            forall|k: FontRole| #[trigger] table.entry(k) is None,
    {
        FontTable {
            display: None,
            display_bold: None,
            body: None,
        }
    }

    /// The entry the table holds for `key`, if it states one.
    pub open spec fn entry(self, key: FontRole) -> Option<S> {
        match key {
            FontRole::Display => self.display,
            FontRole::DisplayBold => self.display_bold,
            FontRole::Body => self.body,
        }
    }

    /// What the table states, in declaration order, one pair per stated
    /// entry and none for the rest.
    pub open spec fn stated(self) -> Seq<(FontRole, S)> {
        let acc = Seq::<(FontRole, S)>::empty();
        let acc = with_stated(acc, FontRole::Display, self.display);
        let acc = with_stated(acc, FontRole::DisplayBold, self.display_bold);
        let acc = with_stated(acc, FontRole::Body, self.body);
        acc
    }

    /// The entries that were actually stated, in declaration order.
    pub fn entries(&self) -> (out: Vec<(FontRole, &S)>)
        ensures
            derefs(out@) == self.stated(),
    {
        let mut out: Vec<(FontRole, &S)> = Vec::new();
        assert(derefs(out@) =~= Seq::<(FontRole, S)>::empty());
        push_stated(&mut out, FontRole::Display, &self.display);
        push_stated(&mut out, FontRole::DisplayBold, &self.display_bold);
        push_stated(&mut out, FontRole::Body, &self.body);
        out
    }
}

/// The `[metric]` table of a theme file: one optional entry per metric.
pub struct MetricTable<S> {
    pub title_size: Option<S>,
    pub herald_size: Option<S>,
    pub herald_line_size: Option<S>,
    pub body_size: Option<S>,
    pub small_size: Option<S>,
    pub pad: Option<S>,
    pub gap: Option<S>,
    pub margin: Option<S>,
    pub label_width: Option<S>,
    pub row_height: Option<S>,
    pub border: Option<S>,
    pub radius: Option<S>,
    pub radial_radius: Option<S>,
    pub radial_dead_zone: Option<S>,
}

impl<S> MetricTable<S> {
    /// Folding a table's stated pairs gives each key its own entry: a key
    /// the table states once is found, and a key it leaves out is not.
    pub proof fn lookup_stated(self, key: Metric)
        ensures
            last_stated(self.stated(), key) == self.entry(key),
    {
        let a0 = Seq::<(Metric, S)>::empty();
        let a1 = with_stated(a0, Metric::TitleSize, self.title_size);
        lemma_with_stated(a0, Metric::TitleSize, self.title_size, key);
        let a2 = with_stated(a1, Metric::HeraldSize, self.herald_size);
        lemma_with_stated(a1, Metric::HeraldSize, self.herald_size, key);
        let a3 = with_stated(a2, Metric::HeraldLineSize, self.herald_line_size);
        lemma_with_stated(a2, Metric::HeraldLineSize, self.herald_line_size, key);
        let a4 = with_stated(a3, Metric::BodySize, self.body_size);
        lemma_with_stated(a3, Metric::BodySize, self.body_size, key);
        let a5 = with_stated(a4, Metric::SmallSize, self.small_size);
        lemma_with_stated(a4, Metric::SmallSize, self.small_size, key);
        let a6 = with_stated(a5, Metric::Pad, self.pad);
        lemma_with_stated(a5, Metric::Pad, self.pad, key);
        let a7 = with_stated(a6, Metric::Gap, self.gap);
        lemma_with_stated(a6, Metric::Gap, self.gap, key);
        let a8 = with_stated(a7, Metric::Margin, self.margin);
        lemma_with_stated(a7, Metric::Margin, self.margin, key);
        let a9 = with_stated(a8, Metric::LabelWidth, self.label_width);
        lemma_with_stated(a8, Metric::LabelWidth, self.label_width, key);
        let a10 = with_stated(a9, Metric::RowHeight, self.row_height);
        lemma_with_stated(a9, Metric::RowHeight, self.row_height, key);
        let a11 = with_stated(a10, Metric::Border, self.border);
        lemma_with_stated(a10, Metric::Border, self.border, key);
        let a12 = with_stated(a11, Metric::Radius, self.radius);
        lemma_with_stated(a11, Metric::Radius, self.radius, key);
        let a13 = with_stated(a12, Metric::RadialRadius, self.radial_radius);
        lemma_with_stated(a12, Metric::RadialRadius, self.radial_radius, key);
        let a14 = with_stated(a13, Metric::RadialDeadZone, self.radial_dead_zone);
        lemma_with_stated(a13, Metric::RadialDeadZone, self.radial_dead_zone, key);
        assert(self.stated() == a14);
    }

    /// A table that states nothing.
    pub fn empty() -> (table: Self)
        ensures
            forall|k: Metric| #[trigger] table.entry(k) is None,
    {
        MetricTable {
            title_size: None,
            herald_size: None,
            herald_line_size: None,
            body_size: None,
            small_size: None,
            pad: None,
            gap: None,
            margin: None,
            label_width: None,
            row_height: None,
            border: None,
            radius: None,
            radial_radius: None,
            radial_dead_zone: None,
        }
    }

    /// The entry the table holds for `key`, if it states one.
    pub open spec fn entry(self, key: Metric) -> Option<S> {
        match key {
            Metric::TitleSize => self.title_size,
            Metric::HeraldSize => self.herald_size,
            Metric::HeraldLineSize => self.herald_line_size,
            Metric::BodySize => self.body_size,
            Metric::SmallSize => self.small_size,
            Metric::Pad => self.pad,
            Metric::Gap => self.gap,
            Metric::Margin => self.margin,
            Metric::LabelWidth => self.label_width,
            Metric::RowHeight => self.row_height,
            Metric::Border => self.border,
            Metric::Radius => self.radius,
            Metric::RadialRadius => self.radial_radius,
            Metric::RadialDeadZone => self.radial_dead_zone,
        }
    }

    /// What the table states, in declaration order, one pair per stated
    /// entry and none for the rest.
    pub open spec fn stated(self) -> Seq<(Metric, S)> {
        let acc = Seq::<(Metric, S)>::empty();
        let acc = with_stated(acc, Metric::TitleSize, self.title_size);
        let acc = with_stated(acc, Metric::HeraldSize, self.herald_size);
        let acc = with_stated(acc, Metric::HeraldLineSize, self.herald_line_size);
        let acc = with_stated(acc, Metric::BodySize, self.body_size);
        let acc = with_stated(acc, Metric::SmallSize, self.small_size);
        let acc = with_stated(acc, Metric::Pad, self.pad);
        let acc = with_stated(acc, Metric::Gap, self.gap);
        let acc = with_stated(acc, Metric::Margin, self.margin);
        let acc = with_stated(acc, Metric::LabelWidth, self.label_width);
        let acc = with_stated(acc, Metric::RowHeight, self.row_height);
        let acc = with_stated(acc, Metric::Border, self.border);
        let acc = with_stated(acc, Metric::Radius, self.radius);
        let acc = with_stated(acc, Metric::RadialRadius, self.radial_radius);
        let acc = with_stated(acc, Metric::RadialDeadZone, self.radial_dead_zone);
        acc
    }

    /// The entries that were actually stated, in declaration order.
    pub fn entries(&self) -> (out: Vec<(Metric, &S)>)
        ensures
            derefs(out@) == self.stated(),
    {
        let mut out: Vec<(Metric, &S)> = Vec::new();
        assert(derefs(out@) =~= Seq::<(Metric, S)>::empty());
        push_stated(&mut out, Metric::TitleSize, &self.title_size);
        push_stated(&mut out, Metric::HeraldSize, &self.herald_size);
        push_stated(&mut out, Metric::HeraldLineSize, &self.herald_line_size);
        push_stated(&mut out, Metric::BodySize, &self.body_size);
        push_stated(&mut out, Metric::SmallSize, &self.small_size);
        push_stated(&mut out, Metric::Pad, &self.pad);
        push_stated(&mut out, Metric::Gap, &self.gap);
        push_stated(&mut out, Metric::Margin, &self.margin);
        push_stated(&mut out, Metric::LabelWidth, &self.label_width);
        push_stated(&mut out, Metric::RowHeight, &self.row_height);
        push_stated(&mut out, Metric::Border, &self.border);
        push_stated(&mut out, Metric::Radius, &self.radius);
        push_stated(&mut out, Metric::RadialRadius, &self.radial_radius);
        push_stated(&mut out, Metric::RadialDeadZone, &self.radial_dead_zone);
        out
    }
}

/// Everything a theme file says. Every table is optional in every entry, so a
/// game's file states only what it disagrees with and inherits the rest.
pub struct ThemeAsset<S, M, P> {
    pub color: ColorTable<S>,
    pub metric: MetricTable<M>,
    pub font: FontTable<P>,
}

impl<S, M, P> ThemeAsset<S, M, P> {
    /// A file that states nothing.
    pub fn empty() -> (asset: Self)
        ensures
            forall|r: Role| #[trigger] asset.color.entry(r) is None,
            forall|m: Metric| #[trigger] asset.metric.entry(m) is None,
            forall|f: FontRole| #[trigger] asset.font.entry(f) is None,
    {
        ThemeAsset { color: ColorTable::empty(), metric: MetricTable::empty(), font: FontTable::empty() }
    }
}

// ---------------------------------------------------------------------------
// Typefaces
// ---------------------------------------------------------------------------

/// The CSS generic families, which a platform resolves to a face of its own.
#[derive(Debug, Clone, Copy, PartialEq, Eq, Hash, Structural)]
pub enum GenericFamily {
    Serif,
    SansSerif,
    Monospace,
    Cursive,
    Fantasy,
    SystemUi,
    UiSerif,
    UiSansSerif,
    UiMonospace,
    UiRounded,
    Emoji,
    Math,
}

/// The generic family a name denotes, spelled the way CSS spells it.
pub open spec fn generic_named(name: Seq<char>) -> Option<GenericFamily> {
    if name == "serif"@ {
        Some(GenericFamily::Serif)
    } else if name == "sans-serif"@ {
        Some(GenericFamily::SansSerif)
    } else if name == "monospace"@ {
        Some(GenericFamily::Monospace)
    } else if name == "cursive"@ {
        Some(GenericFamily::Cursive)
    } else if name == "fantasy"@ {
        Some(GenericFamily::Fantasy)
    } else if name == "system-ui"@ {
        Some(GenericFamily::SystemUi)
    } else if name == "ui-serif"@ {
        Some(GenericFamily::UiSerif)
    } else if name == "ui-sans-serif"@ {
        Some(GenericFamily::UiSansSerif)
    } else if name == "ui-monospace"@ {
        Some(GenericFamily::UiMonospace)
    } else if name == "ui-rounded"@ {
        Some(GenericFamily::UiRounded)
    } else if name == "emoji"@ {
        Some(GenericFamily::Emoji)
    } else if name == "math"@ {
        Some(GenericFamily::Math)
    } else {
        None
    }
}

/// Every generic family CSS has answers to exactly one name: no two names
/// denote the same family, and each family is denoted by some name.
pub proof fn each_generic_family_has_one_name(a: Seq<char>, b: Seq<char>, family: GenericFamily)
    ensures
        generic_named(a) is Some && generic_named(a) == generic_named(b) ==> a == b,
        exists|name: Seq<char>| generic_named(name) == Some(family),
{
    reveal_strlit("serif");
    reveal_strlit("sans-serif");
    reveal_strlit("monospace");
    reveal_strlit("cursive");
    reveal_strlit("fantasy");
    reveal_strlit("system-ui");
    reveal_strlit("ui-serif");
    reveal_strlit("ui-sans-serif");
    reveal_strlit("ui-monospace");
    reveal_strlit("ui-rounded");
    reveal_strlit("emoji");
    reveal_strlit("math");
    assert("serif"@.len() == 5 && "sans-serif"@.len() == 10 && "monospace"@.len() == 9);
    assert("cursive"@.len() == 7 && "fantasy"@.len() == 7 && "system-ui"@.len() == 9);
    assert("ui-serif"@.len() == 8 && "ui-sans-serif"@.len() == 13 && "ui-monospace"@.len() == 12);
    assert("ui-rounded"@.len() == 10 && "emoji"@.len() == 5 && "math"@.len() == 4);
    match family {
        GenericFamily::Serif => assert(generic_named("serif"@) == Some(family)),
        GenericFamily::SansSerif => assert(generic_named("sans-serif"@) == Some(family)),
        GenericFamily::Monospace => assert(generic_named("monospace"@) == Some(family)),
        GenericFamily::Cursive => assert(generic_named("cursive"@) == Some(family)),
        GenericFamily::Fantasy => {
            assert("fantasy"@[0] != "cursive"@[0]);
            assert(generic_named("fantasy"@) == Some(family));
        },
        GenericFamily::SystemUi => {
            assert("system-ui"@[0] != "monospace"@[0]);
            assert(generic_named("system-ui"@) == Some(family));
        },
        GenericFamily::UiSerif => assert(generic_named("ui-serif"@) == Some(family)),
        GenericFamily::UiSansSerif => assert(generic_named("ui-sans-serif"@) == Some(family)),
        GenericFamily::UiMonospace => assert(generic_named("ui-monospace"@) == Some(family)),
        GenericFamily::UiRounded => {
            assert("ui-rounded"@[0] != "sans-serif"@[0]);
            assert(generic_named("ui-rounded"@) == Some(family));
        },
        GenericFamily::Emoji => {
            assert("emoji"@[0] != "serif"@[0]);
            assert(generic_named("emoji"@) == Some(family));
        },
        GenericFamily::Math => assert(generic_named("math"@) == Some(family)),
    }
}

/// Whether two string slices hold the same text: std's `==` on `str`.
#[verifier::external_body]
fn same_text(a: &str, b: &str) -> (same: bool)
    ensures
        same == (a@ == b@),
{
    a == b
}

/// The generic family `name` denotes, or `None` for a name CSS does not have.
pub fn generic_family(name: &str) -> (family: Option<GenericFamily>)
    ensures
        family == generic_named(name@),
{
    if same_text(name, "serif") {
        Some(GenericFamily::Serif)
    } else if same_text(name, "sans-serif") {
        Some(GenericFamily::SansSerif)
    } else if same_text(name, "monospace") {
        Some(GenericFamily::Monospace)
    } else if same_text(name, "cursive") {
        Some(GenericFamily::Cursive)
    } else if same_text(name, "fantasy") {
        Some(GenericFamily::Fantasy)
    } else if same_text(name, "system-ui") {
        Some(GenericFamily::SystemUi)
    } else if same_text(name, "ui-serif") {
        Some(GenericFamily::UiSerif)
    } else if same_text(name, "ui-sans-serif") {
        Some(GenericFamily::UiSansSerif)
    } else if same_text(name, "ui-monospace") {
        Some(GenericFamily::UiMonospace)
    } else if same_text(name, "ui-rounded") {
        Some(GenericFamily::UiRounded)
    } else if same_text(name, "emoji") {
        Some(GenericFamily::Emoji)
    } else if same_text(name, "math") {
        Some(GenericFamily::Math)
    } else {
        None
    }
}

/// Where a typeface comes from.
#[derive(Debug, Clone, PartialEq, Eq)]
pub enum FaceSource {
    /// An asset the game ships, by its path under the asset root.
    Path(String),
    /// A family by name, from the font database.
    Family(String),
    /// A CSS generic family, which the platform decides.
    Generic(GenericFamily),
}

/// Upright or italic.
#[derive(Debug, Clone, Copy, PartialEq, Eq, Hash, Structural)]
pub enum FaceStyle {
    Normal,
    Italic,
}

/// The CSS weight of an ordinary face, used when a spec names none.
pub const NORMAL_WEIGHT: u16 = 400;

/// A typeface the theme resolved: where it comes from, how heavy, and whether
/// it leans.
#[derive(Debug, Clone, PartialEq, Eq)]
pub struct FontFace {
    pub source: FaceSource,
    pub weight: u16,
    pub style: FaceStyle,
}

/// A typeface in the theme file. Three ways to name one, in order of how
/// specific they are: an asset `path`, a `family` by name, or a CSS `generic`.
#[derive(Debug, Clone, PartialEq, Eq)]
pub struct FontSpec {
    pub path: Option<String>,
    pub family: Option<String>,
    pub generic: Option<String>,
    /// 1–1000. Only variable fonts honor anything but the weight they were
    /// cut at.
    pub weight: Option<u16>,
    pub italic: bool,
}

impl Default for FontSpec {
    fn default() -> (spec: Self)
        ensures
            spec.path is None,
            spec.family is None,
            spec.generic is None,
            spec.weight is None,
            !spec.italic,
    {
        FontSpec { path: None, family: None, generic: None, weight: None, italic: false }
    }
}

impl FontSpec {
    /// Where the face this spec names comes from: the path if there is one,
    /// else the family, else the generic — and nothing when none is given or
    /// the generic is not one CSS knows.
    pub open spec fn source_named(self) -> Option<FaceSource> {
        if self.path is Some {
            Some(FaceSource::Path(self.path.unwrap()))
        } else if self.family is Some {
            Some(FaceSource::Family(self.family.unwrap()))
        } else if self.generic is Some {
            match generic_named(self.generic.unwrap()@) {
                Some(g) => Some(FaceSource::Generic(g)),
                None => None,
            }
        } else {
            None
        }
    }

    /// The face this spec names, if it names one.
    pub open spec fn face_named(self) -> Option<FontFace> {
        match self.source_named() {
            Some(source) => Some(
                FontFace {
                    source,
                    weight: match self.weight {
                        Some(w) => w,
                        None => NORMAL_WEIGHT,
                    },
                    style: if self.italic {
                        FaceStyle::Italic
                    } else {
                        FaceStyle::Normal
                    },
                },
            ),
            None => None,
        }
    }

    /// Resolves the spec to a face. A spec that names nothing cannot resolve,
    /// and is not guessed at.
    pub fn resolve(&self) -> (face: Option<FontFace>)
        ensures
            face == self.face_named(),
    {
        let source = match (&self.path, &self.family, &self.generic) {
            (Some(path), _, _) => FaceSource::Path(path.clone()),
            (_, Some(family), _) => FaceSource::Family(family.clone()),
            (_, _, Some(generic)) => match generic_family(generic.as_str()) {
                Some(g) => FaceSource::Generic(g),
                None => return None,
            },
            _ => return None,
        };
        let weight = match self.weight {
            Some(w) => w,
            None => NORMAL_WEIGHT,
        };
        let style = if self.italic {
            FaceStyle::Italic
        } else {
            FaceStyle::Normal
        };
        Some(FontFace { source, weight, style })
    }
}

/// How a spec resolves. The weight and the lean come from the spec alone,
/// whichever way it names its face: the stated weight, or the normal weight
/// when none is stated, and italic exactly when the spec asks for it. Where
/// the face comes from goes by precedence: a path wins over a family, a
/// family over a generic, and a generic names a face only when CSS knows it;
/// a spec that names nothing resolves to nothing.
pub proof fn how_a_font_spec_resolves(spec: FontSpec)
    ensures
        match spec.face_named() {
            Some(face) => face.weight == (match spec.weight {
                Some(w) => w,
                None => NORMAL_WEIGHT,
            }) && (face.style == FaceStyle::Italic) == spec.italic && (face.style
                == FaceStyle::Normal) == !spec.italic,
            None => true,
        },
        spec.weight is Some && spec.face_named() is Some ==> spec.face_named().unwrap().weight
            == spec.weight.unwrap(),
        spec.path is Some ==> spec.face_named() is Some && spec.face_named().unwrap().source
            == FaceSource::Path(spec.path.unwrap()),
        spec.path is None && spec.family is Some ==> spec.face_named() is Some
            && spec.face_named().unwrap().source == FaceSource::Family(spec.family.unwrap()),
        spec.path is None && spec.family is None && spec.generic is Some ==> match generic_named(
            spec.generic.unwrap()@,
        ) {
            Some(g) => spec.face_named() is Some && spec.face_named().unwrap().source
                == FaceSource::Generic(g),
            None => spec.face_named() is None,
        },
        spec.path is None && spec.family is None && spec.generic is None ==> spec.face_named() is None,
{
}

impl FontTable<FontSpec> {
    /// Resolves every typeface the table names, in declaration order: each
    /// stated role paired with the face its spec names, or `None` where the
    /// spec names none — so a caller can fill the roles that resolved and say
    /// which ones did not.
    pub fn resolve_all(&self) -> (out: Vec<(FontRole, Option<FontFace>)>)
        ensures
            out@.len() == self.stated().len(),
            forall|i: int|
                0 <= i < out@.len() ==> #[trigger] out@[i] == (
                    self.stated()[i].0,
                    self.stated()[i].1.face_named(),
                ),
    {
        let entries = self.entries();
        let mut out: Vec<(FontRole, Option<FontFace>)> = Vec::new();
        let mut i: usize = 0;
        while i < entries.len()
            invariant
                i <= entries@.len(),
                derefs(entries@) == self.stated(),
                out@.len() == i,
                forall|j: int|
                    0 <= j < i ==> #[trigger] out@[j] == (
                        self.stated()[j].0,
                        self.stated()[j].1.face_named(),
                    ),
            decreases entries@.len() - i,
        {
            let (role, spec) = entries[i];
            assert(derefs(entries@)[i as int] == (role, *spec));
            out.push((role, spec.resolve()));
            i = i + 1;
        }
        out
    }
}

// ---------------------------------------------------------------------------
// Ramps
// ---------------------------------------------------------------------------

/// Lookup in `pairs` never answers for a key that no pair names.
pub proof fn lemma_unnamed<K, V>(pairs: Seq<(K, V)>, key: K)
    requires
        forall|i: int| 0 <= i < pairs.len() ==> #[trigger] pairs[i].0 != key,
    ensures
        last_stated(pairs, key) is None,
    decreases pairs.len(),
{
    if pairs.len() > 0 {
        lemma_unnamed(pairs.drop_last(), key);
    }
}

/// Lookup in `pairs` answers with the last pair that names the key.
pub proof fn lemma_named_last<K, V>(pairs: Seq<(K, V)>, key: K, at: int)
    requires
        0 <= at < pairs.len(),
        pairs[at].0 == key,
        forall|j: int| at < j < pairs.len() ==> #[trigger] pairs[j].0 != key,
    ensures
        last_stated(pairs, key) == Some(pairs[at].1),
    decreases pairs.len(),
{
    if at < pairs.len() - 1 {
        lemma_named_last(pairs.drop_last(), key, at);
    }
}

/// Two lists that name the same keys in the same places, and agree on every
/// value stated for `key`, answer alike for `key`.
pub proof fn lemma_same_answer<K, V>(a: Seq<(K, V)>, b: Seq<(K, V)>, key: K)
    requires
        a.len() == b.len(),
        forall|j: int| 0 <= j < a.len() ==> #[trigger] a[j].0 == b[j].0,
        forall|j: int| 0 <= j < a.len() && #[trigger] a[j].0 == key ==> a[j].1 == b[j].1,
    ensures
        last_stated(a, key) == last_stated(b, key),
    decreases a.len(),
{
    if a.len() > 0 {
        lemma_same_answer(a.drop_last(), b.drop_last(), key);
    }
}

/// Color ramps the game lends to Ordo, by name.
///
/// A ramp is registered as the game's *own* sampling function rather than as
/// a list of stops, so a theme entry naming it resolves through exactly the
/// code the rest of the game uses. `R` is that sampler; each name holds at
/// most one, and registering a name again replaces what it held.
pub struct Ramps<R> {
    entries: Vec<(String, R)>,
}

impl<R> Ramps<R> {
    #[verifier::type_invariant]
    spec fn names_distinct(self) -> bool {
        forall|i: int, j: int|
            0 <= i < self.entries@.len() && 0 <= j < self.entries@.len() && i != j
                ==> #[trigger] self.entries@[i].0@ != #[trigger] self.entries@[j].0@
    }

    /// The registry as name–sampler pairs, in registration order.
    closed spec fn keyed(self) -> Seq<(Seq<char>, R)> {
        self.entries@.map_values(|e: (String, R)| (e.0@, e.1))
    }

    /// The sampler registered under `name`, if any.
    pub closed spec fn sampler_of(self, name: Seq<char>) -> Option<R> {
        last_stated(self.keyed(), name)
    }

    /// A registry with nothing lent to it.
    pub fn new() -> (ramps: Self)
        ensures
            forall|name: Seq<char>| #[trigger] ramps.sampler_of(name) is None,
    {
        let ramps = Ramps { entries: Vec::new() };
        assert forall|name: Seq<char>| #[trigger] ramps.sampler_of(name) is None by {
            assert(ramps.keyed() =~= Seq::<(Seq<char>, R)>::empty());
        }
        ramps
    }

    /// Lends a sampler under `name`, replacing whatever that name held. Every
    /// other name keeps its sampler.
    pub fn register(&mut self, name: String, sampler: R)
        ensures
            final(self).sampler_of(name@) == Some(sampler),
            forall|other: Seq<char>| other != name@ ==> #[trigger] final(self).sampler_of(other) == old(self).sampler_of(other),
    {
        proof {
            use_type_invariant(&*self);
        }
        let ghost before = self.keyed();
        let mut entries: Vec<(String, R)> = Vec::new();
        std::mem::swap(&mut entries, &mut self.entries);
        assert(entries@ == old(self).entries@);
        let mut i: usize = 0;
        while i < entries.len()
            invariant
                i <= entries@.len(),
                entries@ == old(self).entries@,
                old(self).names_distinct(),
                before == old(self).keyed(),
                forall|j: int| 0 <= j < i ==> #[trigger] entries@[j].0@ != name@,
            decreases entries@.len() - i,
        {
            if entries[i].0 == name {
                let ghost at = i as int;
                entries.set(i, (name, sampler));
                proof {
                    assert forall|a: int, b: int|
                        0 <= a < entries@.len() && 0 <= b < entries@.len() && a != b
                        implies #[trigger] entries@[a].0@ != #[trigger] entries@[b].0@ by {
                        assert(old(self).entries@[a].0@ != old(self).entries@[b].0@);
                    }
                }
                self.entries = entries;
                proof {
                    let after = self.keyed();
                    assert(after =~= before.update(at, (name@, sampler)));
                    assert forall|j: int| at < j < after.len() implies #[trigger] after[j].0 != name@ by {
                        assert(old(self).entries@[j].0@ != old(self).entries@[at].0@);
                    }
                    lemma_named_last(after, name@, at);
                    assert forall|other: Seq<char>| other != name@ implies #[trigger] last_stated(after, other) == last_stated(before, other) by {
                        lemma_same_answer(after, before, other);
                    }
                }
                return;
            }
            i = i + 1;
        }
        entries.push((name, sampler));
        proof {
            assert forall|a: int, b: int|
                0 <= a < entries@.len() && 0 <= b < entries@.len() && a != b
                implies #[trigger] entries@[a].0@ != #[trigger] entries@[b].0@ by {
                if a < entries@.len() - 1 && b < entries@.len() - 1 {
                    assert(old(self).entries@[a].0@ != old(self).entries@[b].0@);
                }
            }
        }
        self.entries = entries;
        proof {
            let after = self.keyed();
            assert(after =~= before.push((name@, sampler)));
            assert(after.drop_last() =~= before);
        }
    }

    /// The sampler lent under `name`, if any game lent one.
    pub fn find(&self, name: &str) -> (found: Option<&R>)
        ensures
            match self.sampler_of(name@) {
                Some(r) => found == Some(&r),
                None => found is None,
            },
    {
        proof {
            use_type_invariant(self);
        }
        let mut i: usize = 0;
        while i < self.entries.len()
            invariant
                i <= self.entries@.len(),
                self.names_distinct(),
                forall|j: int| 0 <= j < i ==> #[trigger] self.keyed()[j].0 != name@,
            decreases self.entries@.len() - i,
        {
            if same_text(self.entries[i].0.as_str(), name) {
                proof {
                    let keyed = self.keyed();
                    assert(keyed[i as int].0 == name@);
                    assert forall|j: int| i < j < keyed.len() implies #[trigger] keyed[j].0 != name@ by {
                        assert(self.entries@[j].0@ != self.entries@[i as int].0@);
                    }
                    lemma_named_last(keyed, name@, i as int);
                }
                return Some(&self.entries[i].1);
            }
            i = i + 1;
        }
        proof {
            lemma_unnamed(self.keyed(), name@);
        }
        None
    }
}

} // verus!
