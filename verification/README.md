# Nocturne

A music player in two processes: a headless backend that owns the queue, the
searches and the playback, and a terminal client that talks to it over HTTP and
server-sent events. The rules of both are a library verified with Verus; what
touches the outside world is a thin program around it.

## Layout

- `src/` - the library. Its functions are proved to do what their contracts state;
  only the count of the local clock, which its copies share, is left unstated.
  - `domain`, `models`, `ports`, `core_state`, `orchestrator`,
    `orchestrator_laws`, `queue_laws` - the player: its state, the commands on it,
    every call it makes through its ports, and what holds across commands.
  - `api`, `mapping`, `server` - what clients see: the contract, the answers to
    requests, and how events are replayed.
  - `clock`, `ids`, `events`, `search`, `youtube`, `json`, `seconds`, `settings`,
    `audio`, `playback_source`, `yt_dlp`, `update` - the adapters: searches and
    imports, the playback worker, the managed yt-dlp binary and its updates.
  - `workers`, `address`, `profile` - the backend's background work and setup.
  - `tui_app`, `tui_client`, `tui_input`, `tui_view` - the client: its state, its
    keys, its connection and what it shows.
  - `text`, `text_map` - text over sequences of characters.
- `app/` - the program: HTTP, the terminal, files, processes and the audio device.
- `tests/` - the library on concrete values.

## How contracts are written

The player is modelled by `core_state::CoreStateView`. Every call that it makes
through a port is recorded, and the contract of a command relates the state
before, the calls, the state after and the result. Wherever the outside decides -
a port, a process, the network - the library takes the outcome as a value and the
contract covers each one. What is taken from outside crates on trust is marked in
the source and says what is claimed of it.

## Running

`nocturne` starts the client, which brings up a backend of its own;
`nocturne backend` starts the backend alone.
