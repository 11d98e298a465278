pub mod agent;
pub mod config;
pub mod dispute;
pub mod purchase;
pub mod skill_listing;
pub mod vouch;

pub use agent::AgentProfile;
pub use config::ReputationConfig;
pub use dispute::{Dispute, DisputeRuling, DisputeStatus};
pub use purchase::Purchase;
pub use skill_listing::{SkillListing, SkillStatus};
pub use vouch::{Vouch, VouchStatus};
