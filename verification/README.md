# fesTerm

The verified core of the fesTerm desktop terminal, written in Verus, and the
desktop application around it.

- `src/` is the library. The application's decisions stand here as functions
  with contracts: what a dialog says and what its answer leads to, which window
  a tab belongs to, what becomes of a clipboard read, which runs the journal
  keeps. What tabs and sessions do with a command, and which keys a binding
  stands for, is outside of it. Laws that span several functions stand beside them as
  public proof functions.
- `app/` draws windows, reads and writes files, and carries out the effects
  that the library asks for.
- `tests/` runs the library on concrete values.

A window is a `FesTermApp`: its tabs, and everything else about it. The library
never touches the platform. A function takes what happened as plain values,
changes the window, and returns `Effect`s for the application to carry out.
Where decisions and outside work alternate, the library holds the steps:
`sequence::FramePass` for a frame, `routing::ShortcutPass` and
`routing::PacketRun` for its input.
