//! Nocturne: a music player in two processes. A headless backend owns the queue,
//! the playback and the searches; clients talk to it over HTTP and follow its
//! events.
//!
//! The library holds the logic of both: the orchestrator and its ports, the
//! adapters behind them, the answers of the server, and the state of the terminal
//! client. Sockets, processes, files, the audio device and the screen belong to
//! the program around it.

pub mod address;
pub mod api;
pub mod audio;
pub mod client_laws;
pub mod clock;
pub mod command_laws;
pub mod core_state;
pub mod domain;
pub mod events;
pub mod ids;
pub mod json;
pub mod mapping;
pub mod models;
pub mod orchestrator;
pub mod orchestrator_laws;
pub mod playback_laws;
pub mod playback_source;
pub mod ports;
pub mod profile;
pub mod queue_laws;
pub mod release_laws;
pub mod search;
pub mod search_laws;
pub mod seconds;
pub mod server;
pub mod server_laws;
pub mod settings;
pub mod source_laws;
pub mod state_laws;
pub mod telling_laws;
pub mod text;
pub mod text_laws;
pub mod text_map;
pub mod tui_app;
pub mod tui_client;
pub mod tui_input;
pub mod tui_laws;
pub mod tui_view;
pub mod update;
pub mod worker_laws;
pub mod workers;
pub mod youtube;
pub mod yt_dlp;
