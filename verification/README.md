# mosaic

A terminal multiplexer whose decisions are verified with Verus.

A session is a handful of threads that talk over channels. `src/` holds what they
decide: what the command line asks for, how a command travels over the socket of a
session and whom it is for, what the thread of the terminals and the thread of the
screen do with each instruction, how the trail of calls behind a message grows, and
how a session ends. `src/laws.rs` states what holds of them together.

`app/` is the program around the library. It spawns the processes, reads the
keyboard and the socket and writes to the terminal. It shows panes without
geometry: what they print appears as it comes.

The library relies on `bincode` for the bytes of a message and on
`std::sync::mpsc` for the channels; what is taken on trust of them is stated where
they are called, in `src/ipc.rs` and `src/channels.rs`.
