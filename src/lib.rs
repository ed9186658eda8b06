//! Launching an editor inside a terminal multiplexer: the configuration,
//! the zellij layout rewrite and the choice of a free tmux session name.
mod config;
mod launch;
mod layout;
mod session;
mod text;

pub use config::{
    config_path, editor_of, load_or_create_default_config, parse_config, LoadedConfig,
    DEFAULT_CONFIG, DEFAULT_EDITOR,
};
pub use layout::{
    layout_path, modify_existing_layout, pane_block, replace_placeholder,
    quote_args, temp_layout_path, PLACEHOLDER,
};
pub use session::{make_session_name, unique_session_name};
pub use launch::{choose_launch, Launch};
