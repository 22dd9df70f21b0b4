# psst_gui

The playback controller of a music player, written and proved in Verus.

The controller stands between the user interface, the operating system's media controls and the
player. It turns what comes in from each of them into orders for the player and into steps for the
interface. Every function of the library states exactly which orders it offers to the player and
which steps it asks for.

- `src/model.rs`: what each event means, as mathematical functions.
- `src/controller.rs`: the controller, which does what the model says.
- `src/event.rs`, `src/media.rs`, `src/player.rs`, `src/data.rs`: the values that it works on.
- `src/duration.rs`: time spans in nanoseconds.
- `src/channel.rs`: the player's channel, over `crossbeam-channel`.
- `src/queue.rs`: the application's queue, over `im`.
- `src/laws.rs`: what holds of the controller as a whole.
- `app/`: the widget controller that performs the steps, over `druid` and `souvlaki`.
- `tests/`: tests on concrete values, with a real channel.
