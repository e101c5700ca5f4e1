pub mod bridge;
pub mod bvs;
pub mod card_conf;
pub mod clock;
pub mod game_event;
pub mod game_manipulation;
pub mod http;
pub mod integrity;
pub mod logs;
pub mod lua_call;
pub mod modules;
pub mod native;
pub mod network;
pub mod network_state;
pub mod peer;
pub mod platform;
pub mod rng;
pub mod text;
pub mod transport;
pub mod updater;
pub mod version;
