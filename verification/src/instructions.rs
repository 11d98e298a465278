pub mod create_skill_listing;
pub mod initialize_config;
pub mod open_dispute;
pub mod purchase_skill;
pub mod register_agent;
pub mod resolve_dispute;
pub mod revoke_vouch;
pub mod vouch;

pub use create_skill_listing::CreateSkillListing;
pub use initialize_config::InitializeConfig;
pub use open_dispute::OpenDispute;
pub use purchase_skill::{PurchaseSkill, PurchaseSkillWithDistribution};
pub use register_agent::RegisterAgent;
pub use resolve_dispute::ResolveDispute;
pub use revoke_vouch::RevokeVouch;
pub use vouch::CreateVouch;
