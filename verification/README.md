# leptix_primitives

The decision-making core of a toolkit of accessible UI components (accordion,
checkbox, dialog, radio group, scroll area, slider, tabs, toggle group,
toolbar and more), written in Verus and verified.

Each module holds what one component family decides from plain values: which
key moves focus where, what a click does to a value, which layer an outside
press or a key press reaches, how attributes passed to a slot combine, what a
presence or scrollbar state machine does on each event. The public functions
have contracts that state their results over spec functions; the `lemma_*`
proof functions state properties across calls (what one call undoes, what an event sequence
reaches, what every candidate list satisfies).

- `src/` — the verified library.
- `tests/` — tests on concrete values, including one per stated property.
- `app/` — floating-point geometry and value arithmetic (scroll areas,
  sliders, progress bars, aspect ratios), which the library cannot hold; the
  slider arithmetic uses the library's closest-thumb choice, key updates and
  labels.

Rendering is left to the host UI framework: it measures the DOM, calls the
library with what it measured and applies what comes back.
