pub mod config;
pub mod decorations;
pub mod event_filter;
pub mod fs_actions;
pub mod id_maps;
pub mod integrate;
pub mod join_flow;
pub mod joiner;
pub mod mock;
pub mod naming;
pub mod neovim_env;
pub mod numbers;
pub mod paths;
pub mod peer_ui;
pub mod peers;
pub mod progress;
pub mod resume;
pub mod root_search;
pub mod round_robin;
pub mod session_flow;
pub mod sessions;
pub mod spinner;
pub mod text;
