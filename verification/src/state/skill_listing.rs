use crate::identity::Identity;
use vstd::prelude::*;

verus! {

/// Whether a skill can be bought.
#[derive(Clone, Copy, Debug, PartialEq, Eq, Structural)]
pub enum SkillStatus {
    /// On sale.
    Active,
    /// Held back for now.
    Suspended,
    /// Taken down.
    Removed,
}

/// A skill that an agent offers for sale.
#[derive(Clone, Debug, PartialEq, Eq)]
pub struct SkillListing {
    /// The agent who published the skill.
    pub author: Identity,
    /// Where the skill itself is kept.
    pub skill_uri: String,
    /// The skill's name.
    pub name: String,
    /// A short description.
    pub description: String,
    /// What one purchase costs.
    pub price_lamports: u64,
    /// Purchases so far.
    pub total_downloads: u64,
    /// Sum of the prices paid so far.
    pub total_revenue: u64,
    /// When the listing was made.
    pub created_at: i64,
    /// When the listing last changed.
    pub updated_at: i64,
    /// Whether the skill can be bought.
    pub status: SkillStatus,
}

impl SkillListing {
    /// Longest name, in bytes.
    pub const MAX_NAME_LEN: usize = 64;

    /// Longest description, in bytes.
    pub const MAX_DESCRIPTION_LEN: usize = 256;

    /// Longest skill URI, in bytes.
    pub const MAX_URI_LEN: usize = 256;

    /// This listing with one more sale at `price` on its counters.
    pub open spec fn with_sale(self, price: u64) -> SkillListing {
        SkillListing {
            total_downloads: (self.total_downloads + 1) as u64,
            total_revenue: (self.total_revenue + price) as u64,
            ..self
        }
    }

    /// Whether the counters have room for one more sale at `price`.
    pub open spec fn has_room_for_sale(self, price: u64) -> bool {
        self.total_downloads + 1 <= u64::MAX && self.total_revenue + price <= u64::MAX
    }
}

} // verus!
