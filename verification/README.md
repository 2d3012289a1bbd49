# opencode-pty

A terminal service. A daemon keeps pseudoterminals alive; any number of attachments watch each of
them, and one at a time is in control. The daemon itself has one owner, who can hand it on by a
ticket.

`src/` is the library, verified with Verus: what a terminal does when something happens, who is in
control, what is replayed, how messages are framed, who may claim the daemon, and what a client
makes of the answers. Contracts speak of the views of the types; the laws that relate several
functions are public proof functions whose names begin with `law_`.

- `text`, `error`, `encoding`: numbers and words, the words of every error, and the functions of
  other crates that the library relies on
- `protocol`: messages and frames
- `ownership`: the owner of the daemon
- `service`: replay, attachments, the state machine of a terminal, its rows, its processes, and
  the registry of terminals
- `ghostty`: what the terminal emulator is asked for and has to say
- `daemon`, `transport`: how the daemon is found, who is let in, and how it answers
- `client`: requests, answers, and what is typed

`app/` is the program around it: sockets, processes, threads, JSON and the emulator, libghostty-vt.
`tests/` runs the library.
