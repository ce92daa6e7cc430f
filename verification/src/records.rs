use vstd::prelude::*;
use crate::principal::Principal;
use crate::wire::opt_bytes_view;

verus! {

/// Longest accepted title, in bytes.
pub const MAX_TITLE_LEN: usize = 100;

/// Longest accepted description, in bytes.
pub const MAX_DESCRIPTION_LEN: usize = 500;

/// Longest accepted requirements text, in bytes.
pub const MAX_REQUIREMENTS_LEN: usize = 200;

/// Longest accepted completion data, in bytes.
pub const MAX_COMPLETION_DATA_LEN: usize = 500;

/// Longest accepted submission URL, in bytes.
pub const MAX_SUBMISSION_URL_LEN: usize = 100;

/// Longest accepted rejection reason, in bytes.
pub const MAX_REASON_LEN: usize = 200;

/// Reputation score a fresh agent profile starts with.
pub const INITIAL_REPUTATION: u32 = 1000;

/// Reputation points awarded for each approved completion.
pub const REPUTATION_BONUS: u32 = 50;

/// Platform fee, as a percentage of the reward, truncated toward zero.
pub const PLATFORM_FEE_PERCENT: u64 = 5;

/// The marketplace registry: a singleton created once per deployment and
/// mutated only by bounty creation. `total_bounties` doubles as the next
/// bounty sequence id.
#[derive(Clone, Copy, PartialEq, Eq, Structural, Debug)]
pub struct Marketplace {
    pub authority: Principal,
    pub total_bounties: u64,
    pub total_volume: u64,
}

/// Lifecycle status of a bounty. `Completed` and `Expired` are terminal;
/// no operation writes `Expired`, the deadline is only checked when an
/// agent tries to claim.
#[derive(Clone, Copy, PartialEq, Eq, Structural, Debug)]
pub enum BountyStatus {
    Open,
    InProgress,
    PendingReview,
    Completed,
    Expired,
}

/// One task record. Text fields hold UTF-8 bytes as the caller handed
/// them in, bounded by the `MAX_*` limits above.
#[derive(Clone, PartialEq, Eq, Debug)]
pub struct Bounty {
    pub id: u64,
    pub creator: Principal,
    pub title: Vec<u8>,
    pub description: Vec<u8>,
    pub requirements: Vec<u8>,
    pub reward: u64,
    pub deadline: i64,
    pub status: BountyStatus,
    pub assigned_agent: Option<Principal>,
    pub created_at: i64,
    pub submitted_at: Option<i64>,
    pub completed_at: Option<i64>,
    pub completion_data: Option<Vec<u8>>,
    pub submission_url: Option<Vec<u8>>,
    pub rejection_reason: Option<Vec<u8>>,
}

impl Bounty {
    /// Every text field is within its bound.
    pub open spec fn texts_bounded(self) -> bool {
        &&& self.title@.len() <= MAX_TITLE_LEN
        &&& self.description@.len() <= MAX_DESCRIPTION_LEN
        &&& self.requirements@.len() <= MAX_REQUIREMENTS_LEN
        &&& (self.completion_data matches Some(d) ==> d@.len() <= MAX_COMPLETION_DATA_LEN)
        &&& (self.submission_url matches Some(u) ==> u@.len() <= MAX_SUBMISSION_URL_LEN)
        &&& (self.rejection_reason matches Some(s) ==> s@.len() <= MAX_REASON_LEN)
    }

    /// Record invariant: the reward is positive, texts are bounded, an
    /// open bounty has no assigned agent, and a claimed or submitted one
    /// always has one. A completed bounty keeps its agent for audit.
    pub open spec fn wf(self) -> bool {
        &&& self.reward > 0
        &&& self.texts_bounded()
        &&& (self.status == BountyStatus::Open ==> self.assigned_agent is None)
        &&& ((self.status == BountyStatus::InProgress || self.status == BountyStatus::PendingReview)
            ==> self.assigned_agent is Some)
    }
}

/// Mathematical image of a bounty: each text field as the byte
/// sequence it holds. The wire layout is stated over this image.
pub struct BountyView {
    pub id: u64,
    pub creator: Principal,
    pub title: Seq<u8>,
    pub description: Seq<u8>,
    pub requirements: Seq<u8>,
    pub reward: u64,
    pub deadline: i64,
    pub status: BountyStatus,
    pub assigned_agent: Option<Principal>,
    pub created_at: i64,
    pub submitted_at: Option<i64>,
    pub completed_at: Option<i64>,
    pub completion_data: Option<Seq<u8>>,
    pub submission_url: Option<Seq<u8>>,
    pub rejection_reason: Option<Seq<u8>>,
}

impl BountyView {
    /// Every text field is within its bound.
    pub open spec fn texts_bounded(self) -> bool {
        &&& self.title.len() <= MAX_TITLE_LEN
        &&& self.description.len() <= MAX_DESCRIPTION_LEN
        &&& self.requirements.len() <= MAX_REQUIREMENTS_LEN
        &&& (self.completion_data matches Some(d) ==> d.len() <= MAX_COMPLETION_DATA_LEN)
        &&& (self.submission_url matches Some(u) ==> u.len() <= MAX_SUBMISSION_URL_LEN)
        &&& (self.rejection_reason matches Some(s) ==> s.len() <= MAX_REASON_LEN)
    }
}

impl View for Bounty {
    type V = BountyView;

    open spec fn view(&self) -> BountyView {
        BountyView {
            id: self.id,
            creator: self.creator,
            title: self.title@,
            description: self.description@,
            requirements: self.requirements@,
            reward: self.reward,
            deadline: self.deadline,
            status: self.status,
            assigned_agent: self.assigned_agent,
            created_at: self.created_at,
            submitted_at: self.submitted_at,
            completed_at: self.completed_at,
            completion_data: opt_bytes_view(self.completion_data),
            submission_url: opt_bytes_view(self.submission_url),
            rejection_reason: opt_bytes_view(self.rejection_reason),
        }
    }
}

/// Custody record for exactly one bounty: identified by the pair
/// `(creator, bounty_id)` it was derived from, holding the escrowed
/// reward from creation until release at approval.
#[derive(Clone, Copy, PartialEq, Eq, Structural, Debug)]
pub struct EscrowVault {
    pub creator: Principal,
    pub bounty_id: u64,
    pub balance: u64,
}

impl EscrowVault {
    /// The vault is the one derived for this bounty and still holds the
    /// full reward.
    pub open spec fn backs(self, b: Bounty) -> bool {
        &&& self.creator == b.creator
        &&& self.bounty_id == b.id
        &&& self.balance == b.reward
    }
}

/// Per-agent reputation record, created lazily on the agent's first
/// claim and updated only by approved completions.
#[derive(Clone, Copy, PartialEq, Eq, Structural, Debug)]
pub struct AgentProfile {
    pub agent: Principal,
    pub reputation_score: u32,
    pub completed_bounties: u32,
    pub total_earned: u64,
}

impl AgentProfile {
    /// The profile an agent starts with on its first claim.
    pub open spec fn fresh(agent: Principal) -> AgentProfile {
        AgentProfile {
            agent,
            reputation_score: INITIAL_REPUTATION,
            completed_bounties: 0,
            total_earned: 0,
        }
    }
}

/// Reasons an operation is rejected. Every precondition is checked
/// before any mutation, so a rejected operation leaves every record as
/// it was.
#[derive(Clone, Copy, PartialEq, Eq, Structural, Debug)]
pub enum ErrorCode {
    TitleTooLong,
    DescriptionTooLong,
    RequirementsTooLong,
    InvalidReward,
    InvalidDeadline,
    BountyNotOpen,
    BountyExpired,
    BountyNotInProgress,
    NotAssignedAgent,
    BountyNotPendingReview,
    NotBountyCreator,
    CompletionDataTooLong,
    UrlTooLong,
    ReasonTooLong,
}

} // verus!
