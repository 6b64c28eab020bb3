//! Octane: reinforcement-learning and live-trading building blocks whose
//! integer, string and state-machine logic is specified and proved with Verus.

pub mod clock;
pub mod text;
pub mod live_types;
pub mod exchanges;
pub mod binance;
pub mod bybit;
pub mod device;
pub mod precision;
pub mod multiagent;
pub mod space;
pub mod wrappers;
pub mod monitor;
pub mod execution;
pub mod checkpoint;
pub mod distributed;
pub mod buffer_index;
pub mod transition_cache;
pub mod hindsight;
pub mod record;
pub mod array_window;
pub mod nstep;
pub mod api_requests;
pub mod recent;
pub mod gym;
pub mod shapes;
pub mod symbols;
pub mod trading_window;
pub mod tree_layout;
pub mod sha256;
