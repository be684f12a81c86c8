# Light Stripe

A terminal dashboard of listening ports, developer processes, Docker
containers and Docker volumes, with a core verified by Verus.

## Layout

- `src/` is the verified library. Every function there carries a contract
  that Verus proves, except three trusted wrappers in `text.rs`
  (`push_char`, `pop_char`, `to_lowercase`), which call `String::push`,
  `String::pop` and `str::to_lowercase` and whose contracts are believed.
  - `app.rs`: the dashboard state and what each user action does to it. This
    covers tabs, selection, scrolling, search, marks and refreshes.
  - `actions.rs`, `jump.rs`: confirmation flows for stopping, restarting and
    removing containers, killing processes and deleting volumes, and the
    jumps between tabs.
  - `events.rs`, `worker.rs`: the functions that turn a key press into a
    state change and an effect, and the collector thread's steps.
  - `search.rs`: which rows a query matches.
  - `collectors/`: what is decided once the operating system and the Docker
    daemon have answered. This covers listening sockets, container and volume
    records, developer processes, temperatures and how a snapshot is
    assembled.
  - `table.rs`, `panes.rs`, `screen.rs`: every text the dashboard shows.
  - `order.rs`: a stable sort, proved to be a sorted permutation.
  - `marks.rs`: sets of marked names and pids, with no duplicates.
  - `laws.rs`: properties that span several operations.
- `app/` is the program around the library: the terminal, the Docker API,
  the process table, sockets and the configuration file.
- `tests/` holds tests on concrete values.
