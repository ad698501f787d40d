//! Decision logic of a Niri compositor companion daemon: configuration,
//! IPC framing, event normalisation, window matching and plugin state.
pub mod text;
pub mod workspace;
pub mod window;
pub mod events;
pub mod window_order;
pub mod tomlx;
pub mod config;
pub mod matching;
pub mod empty;
pub mod fcitx5;
pub mod sleepy;
pub mod ipc;
pub mod window_rule;
pub mod named;
pub mod scratchpads;
pub mod singleton;
pub mod mark;
pub mod sticky;
pub mod render;
