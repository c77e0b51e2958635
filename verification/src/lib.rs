//! The rules of a Minecraft Java Edition server: its configuration, its commands, the
//! protocol exchange of a connection, what a connected player may do, and the driver
//! that owns the simulation.
//!
//! Sockets, files, the simulation and the encoding of packets lie outside. A handler
//! here takes what they answered and tells what is to be done next, as plain values.

pub mod app_config;
pub mod block_edit;
pub mod chat;
pub mod chunk_set;
pub mod chunk_stream;
pub mod cli;
pub mod command;
pub mod command_meaning;
pub mod command_packets;
pub mod command_tree;
pub mod config;
pub mod delivery;
pub mod driver;
pub mod ieee754;
pub mod inventory;
pub mod join;
pub mod login;
pub mod math;
pub mod movement;
pub mod observe;
pub mod outbound;
pub mod persistence;
pub mod play;
pub mod play_body;
pub mod rate_limiter;
pub mod roster;
pub mod serverbound_budget;
pub mod session_command;
pub mod sim_command;
pub mod tab_complete;
pub mod text;
pub mod time_span;
pub mod window;
pub mod wire;
pub mod world_time;

pub use app_config::AppConfig;
pub use cli::{load_or_init_config, Cli};
pub use command::parse_gamemode;
pub use command_packets::{presentation_packets, scoreboard_packets};
pub use command_tree::build_command_tree;
