pub mod asset_config;
pub mod global_state;
pub mod intent;
pub mod mm_registry;
pub mod nonce_tracker;
pub mod position;

pub use asset_config::AssetConfig;
pub use global_state::GlobalState;
pub use intent::Intent;
pub use intent::IntentStatus;
pub use intent::StrategyType;
pub use mm_registry::MMRegistry;
pub use nonce_tracker::NonceTracker;
pub use position::Position;
pub use position::PositionStatus;
