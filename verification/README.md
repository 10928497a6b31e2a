# Ordo

A small UI kit for Bevy games, in two parts.

`src/` is the library, written in Verus and verified: the theme store (a color
for every role, a value for every metric, a face for whichever font roles a
game names), the theme file's tables and how they fold into the store, the
ramp registry, font resolution, the stacking ladder, the notice and
proclamation queues, the toast shelf's cap, which tab is open, where an
anchored panel sits, how buttons, tabs and wedges are painted, and which
window is in front.

`app/` is the Bevy plugin around it: components and bundles, the passes that
paint and lay out, the asset loader that reads `*.ordo.toml` with `toml` and
`serde`, and everything that computes on floating point — colors and alphas,
fades, cursor and world geometry.

`tests/` exercises the library on concrete values.
