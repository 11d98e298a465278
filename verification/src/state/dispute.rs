use crate::identity::Identity;
use vstd::prelude::*;

verus! {

/// Whether a dispute still awaits its ruling.
#[derive(Clone, Copy, Debug, PartialEq, Eq, Structural)]
pub enum DisputeStatus {
    /// No ruling yet; the challenger's bond is held.
    Open,
    /// Ruled on, once and for all.
    Resolved,
}

/// What the authority can rule.
#[derive(Clone, Copy, Debug, PartialEq, Eq, Structural)]
pub enum DisputeRuling {
    /// The voucher was wrong: the vouch is slashed.
    SlashVoucher,
    /// The vouch was sound: the challenger forfeits the bond.
    Vindicate,
}

/// A challenge to a vouch.
#[derive(Clone, Debug, PartialEq, Eq)]
pub struct Dispute {
    /// The vouch under challenge.
    pub vouch: Identity,
    /// Who opened the dispute.
    pub challenger: Identity,
    /// Where the challenger's evidence is kept.
    pub evidence_uri: String,
    /// Whether the dispute still awaits its ruling.
    pub status: DisputeStatus,
    /// The ruling, once there is one.
    pub ruling: Option<DisputeRuling>,
    /// When the dispute was opened.
    pub created_at: i64,
    /// When the dispute was ruled on, once it was.
    pub resolved_at: Option<i64>,
}

impl Dispute {
    /// Longest evidence URI, in bytes.
    pub const MAX_EVIDENCE_URI_LENGTH: usize = 200;

    /// A dispute is open without a ruling, or resolved with one.
    pub open spec fn well_formed(self) -> bool {
        match self.status {
            DisputeStatus::Open => self.ruling is None && self.resolved_at is None,
            DisputeStatus::Resolved => self.ruling is Some && self.resolved_at is Some,
        }
    }

    /// This dispute once `ruling` was given at time `now`.
    pub open spec fn resolved(self, ruling: DisputeRuling, now: i64) -> Dispute {
        Dispute {
            status: DisputeStatus::Resolved,
            ruling: Some(ruling),
            resolved_at: Some(now),
            ..self
        }
    }
}

} // verus!
