# border_glass

A ring of glass along the edges of a macOS view.

`src/` is a library, verified with Verus, that decides what to do: which view to make, which
setter or message to use, where to stop, what to remember. It makes no call into the window
system. `apply_border_glass` and `clear_border_glass` return a `Run`, which names one `Action`
at a time and is told what the action reported.

- `length`, `options`, `action`: the values that go in and the actions that come out.
- `script`: decision trees, in which the contracts are stated.
- `plan`, `run`: scripts written down as blocks of steps, and the machine that walks them.
- `removal`, `creation`, `messages`, `appearance`, `mask`, `border_glass`: the parts of the work.
- `scene`, `laws`: a model of a container with its subviews, and what holds of it.

`app/` performs the actions on AppKit. Floating-point arithmetic stays there: the library holds
lengths as bits and shares of colours as fractions. The class of glass views is bound by the
embedding crate, through the trait `NSGlassEffectViewExt`.
