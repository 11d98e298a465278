use crate::state::agent::AgentProfile;
use crate::state::skill_listing::{SkillListing, SkillStatus};
use crate::text::{byte_len, within_limit};
use vstd::prelude::*;

verus! {

/// Why a skill was not listed.
#[derive(Clone, Copy, Debug, PartialEq, Eq, Structural)]
pub enum ErrorCode {
    /// The skill URI is longer than a listing can keep.
    UriTooLong,
    /// The name is longer than a listing can keep.
    NameTooLong,
    /// The description is longer than a listing can keep.
    DescriptionTooLong,
    /// The price is zero.
    PriceMustBePositive,
    /// The skill is listed already.
    ListingExists,
}

/// What listing a skill reads and writes.
#[derive(Clone, Debug, PartialEq, Eq)]
pub struct CreateSkillListing {
    /// Where the listing goes.
    pub skill_listing: Option<SkillListing>,
    /// The record of the caller, who becomes the author.
    pub author_profile: AgentProfile,
}

impl CreateSkillListing {
    /// Why the listing is refused, if it is.
    pub open spec fn refusal(
        self,
        skill_uri: Seq<char>,
        name: Seq<char>,
        description: Seq<char>,
        price_lamports: u64,
    ) -> Option<ErrorCode> {
        if self.skill_listing is Some {
            Some(ErrorCode::ListingExists)
        } else if byte_len(skill_uri) > SkillListing::MAX_URI_LEN {
            Some(ErrorCode::UriTooLong)
        } else if byte_len(name) > SkillListing::MAX_NAME_LEN {
            Some(ErrorCode::NameTooLong)
        } else if byte_len(description) > SkillListing::MAX_DESCRIPTION_LEN {
            Some(ErrorCode::DescriptionTooLong)
        } else if price_lamports == 0 {
            Some(ErrorCode::PriceMustBePositive)
        } else {
            None
        }
    }

    /// The listing that the author makes at time `now`: on sale, nothing
    /// sold yet.
    pub open spec fn listed(
        self,
        skill_uri: String,
        name: String,
        description: String,
        price_lamports: u64,
        now: i64,
    ) -> SkillListing {
        SkillListing {
            author: self.author_profile.authority,
            skill_uri,
            name,
            description,
            price_lamports,
            total_downloads: 0,
            total_revenue: 0,
            created_at: now,
            updated_at: now,
            status: SkillStatus::Active,
        }
    }

    /// Everything as it stands once the skill was listed at time `now`.
    pub open spec fn applied(
        self,
        skill_uri: String,
        name: String,
        description: String,
        price_lamports: u64,
        now: i64,
    ) -> CreateSkillListing {
        CreateSkillListing {
            skill_listing: Some(self.listed(skill_uri, name, description, price_lamports, now)),
            author_profile: self.author_profile,
        }
    }
}

impl CreateSkillListing {
    /// Decides whether the listing is refused, and why.
    pub fn check(
        &self,
        skill_uri: &String,
        name: &String,
        description: &String,
        price_lamports: u64,
    ) -> (refusal: Option<ErrorCode>)
        ensures
            refusal == self.refusal(skill_uri@, name@, description@, price_lamports),
    {
        if self.skill_listing.is_some() {
            return Some(ErrorCode::ListingExists);
        }
        if !within_limit(skill_uri, SkillListing::MAX_URI_LEN) {
            return Some(ErrorCode::UriTooLong);
        }
        if !within_limit(name, SkillListing::MAX_NAME_LEN) {
            return Some(ErrorCode::NameTooLong);
        }
        if !within_limit(description, SkillListing::MAX_DESCRIPTION_LEN) {
            return Some(ErrorCode::DescriptionTooLong);
        }
        if price_lamports == 0 {
            return Some(ErrorCode::PriceMustBePositive);
        }
        None
    }
}

/// Lists a skill for sale by the caller, or refuses and changes nothing.
pub fn handler(
    ctx: &mut CreateSkillListing,
    skill_uri: String,
    name: String,
    description: String,
    price_lamports: u64,
    now: i64,
) -> (result: Result<(), ErrorCode>)
    ensures
        match old(ctx).refusal(skill_uri@, name@, description@, price_lamports) {
            Some(error) => result == Err::<(), ErrorCode>(error) && *final(ctx) == *old(ctx),
            None => result is Ok && *final(ctx) == old(ctx).applied(
                skill_uri,
                name,
                description,
                price_lamports,
                now,
            ),
        },
{
    if let Some(error) = ctx.check(&skill_uri, &name, &description, price_lamports) {
        return Err(error);
    }
    ctx.skill_listing = Some(
        SkillListing {
            author: ctx.author_profile.authority,
            skill_uri,
            name,
            description,
            price_lamports,
            total_downloads: 0,
            total_revenue: 0,
            created_at: now,
            updated_at: now,
            status: SkillStatus::Active,
        },
    );
    Ok(())
}

} // verus!
