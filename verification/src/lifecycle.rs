use vstd::prelude::*;
use crate::principal::Principal;
use crate::records::AgentProfile;
use crate::records::Bounty;
use crate::records::BountyStatus;
use crate::records::ErrorCode;
use crate::records::EscrowVault;
use crate::records::Marketplace;
use crate::records::INITIAL_REPUTATION;
use crate::records::MAX_COMPLETION_DATA_LEN;
use crate::records::MAX_DESCRIPTION_LEN;
use crate::records::MAX_REASON_LEN;
use crate::records::MAX_REQUIREMENTS_LEN;
use crate::records::MAX_SUBMISSION_URL_LEN;
use crate::records::MAX_TITLE_LEN;
use crate::records::PLATFORM_FEE_PERCENT;
use crate::records::REPUTATION_BONUS;

verus! {

// Each operation takes the records it reads and writes as one named
// parameter structure, one role per field, mirroring the record set the
// host ledger locks for it. Every precondition is checked before any
// mutation: a rejected operation returns its error code with all
// records exactly as they were.

/// Records for `initialize`: only the deploying authority.
pub struct Initialize {
    pub authority: Principal,
}

/// Records for `create_bounty`: the registry to be bumped and the
/// creator who signs and funds the escrow.
pub struct CreateBounty {
    pub marketplace: Marketplace,
    pub creator: Principal,
}

/// Records for `claim_bounty`: the bounty, the claiming agent, and the
/// agent's profile where one already exists.
pub struct ClaimBounty {
    pub bounty: Bounty,
    pub agent_profile: Option<AgentProfile>,
    pub agent: Principal,
}

/// Records for `submit_completion`: the bounty and the agent who signs.
pub struct SubmitCompletion {
    pub bounty: Bounty,
    pub agent: Principal,
}

/// Records for `approve_completion`: the bounty, its escrow vault, the
/// assigned agent's profile, and the creator who signs.
pub struct ApproveCompletion {
    pub bounty: Bounty,
    pub escrow_vault: EscrowVault,
    pub agent_profile: AgentProfile,
    pub creator: Principal,
}

/// Records for `reject_completion`: the bounty and the creator who
/// signs. The escrow vault is not part of the set: rejection never
/// touches the funds.
pub struct RejectCompletion {
    pub bounty: Bounty,
    pub creator: Principal,
}

/// What approval releases from the vault: the agent's payment and the
/// platform's fee, together the whole escrowed reward.
#[derive(Clone, Copy, PartialEq, Eq, Structural, Debug)]
pub struct Payout {
    pub agent_payment: u64,
    pub platform_fee: u64,
}

/// Platform fee for a reward: five percent, truncated toward zero.
pub open spec fn platform_fee(reward: u64) -> int {
    reward * PLATFORM_FEE_PERCENT / 100
}

/// What the agent is paid at approval: the reward less the fee.
pub open spec fn agent_payment(reward: u64) -> int {
    reward - platform_fee(reward)
}

/// `create_bounty` accepts exactly these inputs.
pub open spec fn creation_valid(
    title: Seq<u8>,
    description: Seq<u8>,
    requirements: Seq<u8>,
    reward: u64,
    deadline: i64,
    now: i64,
) -> bool {
    &&& title.len() <= MAX_TITLE_LEN
    &&& description.len() <= MAX_DESCRIPTION_LEN
    &&& requirements.len() <= MAX_REQUIREMENTS_LEN
    &&& reward > 0
    &&& deadline > now
}

/// The error `create_bounty` reports, checking the inputs in order.
pub open spec fn creation_error(
    title: Seq<u8>,
    description: Seq<u8>,
    requirements: Seq<u8>,
    reward: u64,
    deadline: i64,
    now: i64,
) -> ErrorCode {
    if title.len() > MAX_TITLE_LEN {
        ErrorCode::TitleTooLong
    } else if description.len() > MAX_DESCRIPTION_LEN {
        ErrorCode::DescriptionTooLong
    } else if requirements.len() > MAX_REQUIREMENTS_LEN {
        ErrorCode::RequirementsTooLong
    } else if reward == 0 {
        ErrorCode::InvalidReward
    } else {
        ErrorCode::InvalidDeadline
    }
}

/// `claim_bounty` succeeds exactly when the bounty is open and the
/// deadline has not passed.
pub open spec fn claim_valid(bounty: Bounty, now: i64) -> bool {
    bounty.status == BountyStatus::Open && bounty.deadline > now
}

/// The error `claim_bounty` reports: the status is checked first.
pub open spec fn claim_error(bounty: Bounty, now: i64) -> ErrorCode {
    if bounty.status != BountyStatus::Open {
        ErrorCode::BountyNotOpen
    } else {
        ErrorCode::BountyExpired
    }
}

/// `submit_completion` succeeds exactly when the texts are bounded, the
/// bounty is in progress, and the caller is the assigned agent.
pub open spec fn submission_valid(
    bounty: Bounty,
    agent: Principal,
    completion_data: Seq<u8>,
    submission_url: Seq<u8>,
) -> bool {
    &&& completion_data.len() <= MAX_COMPLETION_DATA_LEN
    &&& submission_url.len() <= MAX_SUBMISSION_URL_LEN
    &&& bounty.status == BountyStatus::InProgress
    &&& bounty.assigned_agent == Some(agent)
}

/// The error `submit_completion` reports, in checking order.
pub open spec fn submission_error(
    bounty: Bounty,
    agent: Principal,
    completion_data: Seq<u8>,
    submission_url: Seq<u8>,
) -> ErrorCode {
    if completion_data.len() > MAX_COMPLETION_DATA_LEN {
        ErrorCode::CompletionDataTooLong
    } else if submission_url.len() > MAX_SUBMISSION_URL_LEN {
        ErrorCode::UrlTooLong
    } else if bounty.status != BountyStatus::InProgress {
        ErrorCode::BountyNotInProgress
    } else {
        ErrorCode::NotAssignedAgent
    }
}

/// Review operations (approve, reject) are allowed exactly when the
/// bounty awaits review and the caller is its creator.
pub open spec fn review_allowed(bounty: Bounty, caller: Principal) -> bool {
    bounty.status == BountyStatus::PendingReview && bounty.creator == caller
}

/// The error a disallowed review operation reports: the status is
/// checked first.
pub open spec fn review_error(bounty: Bounty, caller: Principal) -> ErrorCode {
    if bounty.status != BountyStatus::PendingReview {
        ErrorCode::BountyNotPendingReview
    } else {
        ErrorCode::NotBountyCreator
    }
}

/// Creates the registry singleton with both counters at zero. Guarding
/// against a second initialization is the record store's duty: it
/// refuses to create a record that already exists.
pub fn initialize(accounts: Initialize) -> (m: Marketplace)
    ensures
        m == (Marketplace { authority: accounts.authority, total_bounties: 0, total_volume: 0 }),
{
    Marketplace { authority: accounts.authority, total_bounties: 0, total_volume: 0 }
}

/// Validates the inputs, allocates the bounty under the next sequence
/// id with status `Open`, creates its escrow vault holding exactly the
/// reward, and bumps the registry's counters — all in one step, or not
/// at all.
pub fn create_bounty(
    accounts: &mut CreateBounty,
    title: Vec<u8>,
    description: Vec<u8>,
    requirements: Vec<u8>,
    reward: u64,
    deadline: i64,
    now: i64,
) -> (r: Result<(Bounty, EscrowVault), ErrorCode>)
    requires
        creation_valid(title@, description@, requirements@, reward, deadline, now) ==> {
            &&& old(accounts).marketplace.total_bounties < u64::MAX
            &&& old(accounts).marketplace.total_volume + reward <= u64::MAX
        },
    ensures
        r is Ok <==> creation_valid(title@, description@, requirements@, reward, deadline, now),
        r matches Err(e) ==> {
            &&& e == creation_error(title@, description@, requirements@, reward, deadline, now)
            &&& *final(accounts) == *old(accounts)
        },
        r matches Ok(out) ==> {
            &&& out.0 == (Bounty {
                id: old(accounts).marketplace.total_bounties,
                creator: old(accounts).creator,
                title,
                description,
                requirements,
                reward,
                deadline,
                status: BountyStatus::Open,
                assigned_agent: None,
                created_at: now,
                submitted_at: None,
                completed_at: None,
                completion_data: None,
                submission_url: None,
                rejection_reason: None,
            })
            &&& out.0.wf()
            &&& out.1 == (EscrowVault {
                creator: old(accounts).creator,
                bounty_id: old(accounts).marketplace.total_bounties,
                balance: reward,
            })
            &&& out.1.backs(out.0)
            &&& final(accounts).creator == old(accounts).creator
            &&& final(accounts).marketplace == (Marketplace {
                authority: old(accounts).marketplace.authority,
                total_bounties: (old(accounts).marketplace.total_bounties + 1) as u64,
                total_volume: (old(accounts).marketplace.total_volume + reward) as u64,
            })
        },
{
    if title.len() > MAX_TITLE_LEN {
        return Err(ErrorCode::TitleTooLong);
    }
    if description.len() > MAX_DESCRIPTION_LEN {
        return Err(ErrorCode::DescriptionTooLong);
    }
    if requirements.len() > MAX_REQUIREMENTS_LEN {
        return Err(ErrorCode::RequirementsTooLong);
    }
    if reward == 0 {
        return Err(ErrorCode::InvalidReward);
    }
    if deadline <= now {
        return Err(ErrorCode::InvalidDeadline);
    }
    let id = accounts.marketplace.total_bounties;
    let bounty = Bounty {
        id,
        creator: accounts.creator,
        title,
        description,
        requirements,
        reward,
        deadline,
        status: BountyStatus::Open,
        assigned_agent: None,
        created_at: now,
        submitted_at: None,
        completed_at: None,
        completion_data: None,
        submission_url: None,
        rejection_reason: None,
    };
    let vault = EscrowVault { creator: accounts.creator, bounty_id: id, balance: reward };
    accounts.marketplace.total_bounties = id + 1;
    accounts.marketplace.total_volume = accounts.marketplace.total_volume + reward;
    Ok((bounty, vault))
}

/// Moves an open, unexpired bounty to `InProgress` under the calling
/// agent, creating the agent's profile with the starting reputation if
/// this is the agent's first claim, and leaving an existing profile
/// untouched.
pub fn claim_bounty(accounts: &mut ClaimBounty, now: i64) -> (r: Result<(), ErrorCode>)
    requires
        old(accounts).agent_profile matches Some(p) ==> p.agent == old(accounts).agent,
    ensures
        r is Ok <==> claim_valid(old(accounts).bounty, now),
        r matches Err(e) ==> {
            &&& e == claim_error(old(accounts).bounty, now)
            &&& *final(accounts) == *old(accounts)
        },
        r is Ok ==> {
            &&& final(accounts).bounty == (Bounty {
                status: BountyStatus::InProgress,
                assigned_agent: Some(old(accounts).agent),
                ..old(accounts).bounty
            })
            &&& final(accounts).agent == old(accounts).agent
            &&& final(accounts).agent_profile == Some(
                match old(accounts).agent_profile {
                    Some(p) => p,
                    None => AgentProfile::fresh(old(accounts).agent),
                },
            )
            &&& old(accounts).bounty.wf() ==> final(accounts).bounty.wf()
        },
{
    if !(accounts.bounty.status == BountyStatus::Open) {
        return Err(ErrorCode::BountyNotOpen);
    }
    if accounts.bounty.deadline <= now {
        return Err(ErrorCode::BountyExpired);
    }
    accounts.bounty.status = BountyStatus::InProgress;
    accounts.bounty.assigned_agent = Some(accounts.agent);
    if accounts.agent_profile.is_none() {
        accounts.agent_profile = Some(AgentProfile {
            agent: accounts.agent,
            reputation_score: INITIAL_REPUTATION,
            completed_bounties: 0,
            total_earned: 0,
        });
    }
    Ok(())
}

/// Records the agent's work on an in-progress bounty: stores the
/// completion data and submission URL, stamps the submission time, and
/// moves the bounty to `PendingReview`.
pub fn submit_completion(
    accounts: &mut SubmitCompletion,
    completion_data: Vec<u8>,
    submission_url: Vec<u8>,
    now: i64,
) -> (r: Result<(), ErrorCode>)
    ensures
        r is Ok <==> submission_valid(
            old(accounts).bounty,
            old(accounts).agent,
            completion_data@,
            submission_url@,
        ),
        r matches Err(e) ==> {
            &&& e == submission_error(
                old(accounts).bounty,
                old(accounts).agent,
                completion_data@,
                submission_url@,
            )
            &&& *final(accounts) == *old(accounts)
        },
        r is Ok ==> {
            &&& final(accounts).bounty == (Bounty {
                status: BountyStatus::PendingReview,
                completion_data: Some(completion_data),
                submission_url: Some(submission_url),
                submitted_at: Some(now),
                ..old(accounts).bounty
            })
            &&& final(accounts).agent == old(accounts).agent
            &&& old(accounts).bounty.wf() ==> final(accounts).bounty.wf()
        },
{
    if completion_data.len() > MAX_COMPLETION_DATA_LEN {
        return Err(ErrorCode::CompletionDataTooLong);
    }
    if submission_url.len() > MAX_SUBMISSION_URL_LEN {
        return Err(ErrorCode::UrlTooLong);
    }
    if !(accounts.bounty.status == BountyStatus::InProgress) {
        return Err(ErrorCode::BountyNotInProgress);
    }
    let assigned = match accounts.bounty.assigned_agent {
        Some(a) => a == accounts.agent,
        None => false,
    };
    if !assigned {
        return Err(ErrorCode::NotAssignedAgent);
    }
    accounts.bounty.status = BountyStatus::PendingReview;
    accounts.bounty.completion_data = Some(completion_data);
    accounts.bounty.submission_url = Some(submission_url);
    accounts.bounty.submitted_at = Some(now);
    Ok(())
}

/// Completes a bounty under review: stamps the completion time, empties
/// the vault into a 95/5 split between the agent and the platform, and
/// credits the agent's profile with the payment and the reputation
/// bonus. Returns the split the host must pay out.
pub fn approve_completion(accounts: &mut ApproveCompletion, now: i64) -> (r: Result<
    Payout,
    ErrorCode,
>)
    requires
        review_allowed(old(accounts).bounty, old(accounts).creator) ==> {
            &&& old(accounts).escrow_vault.backs(old(accounts).bounty)
            &&& old(accounts).bounty.assigned_agent matches Some(a)
                && old(accounts).agent_profile.agent == a
            &&& old(accounts).bounty.reward <= u64::MAX / PLATFORM_FEE_PERCENT
            &&& old(accounts).agent_profile.completed_bounties < u32::MAX
            &&& old(accounts).agent_profile.reputation_score + REPUTATION_BONUS <= u32::MAX
            &&& old(accounts).agent_profile.total_earned + agent_payment(
                old(accounts).bounty.reward,
            ) <= u64::MAX
        },
    ensures
        r is Ok <==> review_allowed(old(accounts).bounty, old(accounts).creator),
        r matches Err(e) ==> {
            &&& e == review_error(old(accounts).bounty, old(accounts).creator)
            &&& *final(accounts) == *old(accounts)
        },
        r matches Ok(p) ==> {
            &&& p.platform_fee == platform_fee(old(accounts).bounty.reward)
            &&& p.agent_payment == agent_payment(old(accounts).bounty.reward)
            &&& p.agent_payment + p.platform_fee == old(accounts).bounty.reward
            &&& final(accounts).bounty == (Bounty {
                status: BountyStatus::Completed,
                completed_at: Some(now),
                ..old(accounts).bounty
            })
            &&& final(accounts).escrow_vault == (EscrowVault {
                balance: 0,
                ..old(accounts).escrow_vault
            })
            &&& final(accounts).agent_profile == (AgentProfile {
                agent: old(accounts).agent_profile.agent,
                reputation_score: (old(accounts).agent_profile.reputation_score
                    + REPUTATION_BONUS) as u32,
                completed_bounties: (old(accounts).agent_profile.completed_bounties + 1) as u32,
                total_earned: (old(accounts).agent_profile.total_earned + agent_payment(
                    old(accounts).bounty.reward,
                )) as u64,
            })
            &&& final(accounts).creator == old(accounts).creator
            &&& old(accounts).bounty.wf() ==> final(accounts).bounty.wf()
        },
{
    if !(accounts.bounty.status == BountyStatus::PendingReview) {
        return Err(ErrorCode::BountyNotPendingReview);
    }
    if !(accounts.bounty.creator == accounts.creator) {
        return Err(ErrorCode::NotBountyCreator);
    }
    let reward = accounts.bounty.reward;
    let fee: u64 = reward * PLATFORM_FEE_PERCENT / 100;
    proof {
        assert(reward * PLATFORM_FEE_PERCENT <= reward * 100) by (nonlinear_arith)
            requires
                reward >= 0,
        ;
        assert(reward * PLATFORM_FEE_PERCENT / 100 <= reward * 100 / 100);
    }
    let payment: u64 = reward - fee;
    accounts.bounty.status = BountyStatus::Completed;
    accounts.bounty.completed_at = Some(now);
    accounts.escrow_vault.balance = 0;
    accounts.agent_profile.completed_bounties = accounts.agent_profile.completed_bounties + 1;
    accounts.agent_profile.total_earned = accounts.agent_profile.total_earned + payment;
    accounts.agent_profile.reputation_score = accounts.agent_profile.reputation_score
        + REPUTATION_BONUS;
    Ok(Payout { agent_payment: payment, platform_fee: fee })
}

/// Sends a bounty under review back to the open pool: clears the
/// assigned agent, the completion fields and the submission time, and
/// records the reason, overwriting any earlier one. The escrowed funds
/// stay in the vault untouched.
pub fn reject_completion(accounts: &mut RejectCompletion, reason: Vec<u8>) -> (r: Result<
    (),
    ErrorCode,
>)
    ensures
        r is Ok <==> reason@.len() <= MAX_REASON_LEN && review_allowed(
            old(accounts).bounty,
            old(accounts).creator,
        ),
        r matches Err(e) ==> {
            &&& e == (if reason@.len() > MAX_REASON_LEN {
                ErrorCode::ReasonTooLong
            } else {
                review_error(old(accounts).bounty, old(accounts).creator)
            })
            &&& *final(accounts) == *old(accounts)
        },
        r is Ok ==> {
            &&& final(accounts).bounty == (Bounty {
                status: BountyStatus::Open,
                assigned_agent: None,
                completion_data: None,
                submission_url: None,
                submitted_at: None,
                rejection_reason: Some(reason),
                ..old(accounts).bounty
            })
            &&& final(accounts).creator == old(accounts).creator
            &&& old(accounts).bounty.wf() ==> final(accounts).bounty.wf()
        },
{
    if reason.len() > MAX_REASON_LEN {
        return Err(ErrorCode::ReasonTooLong);
    }
    if !(accounts.bounty.status == BountyStatus::PendingReview) {
        return Err(ErrorCode::BountyNotPendingReview);
    }
    if !(accounts.bounty.creator == accounts.creator) {
        return Err(ErrorCode::NotBountyCreator);
    }
    accounts.bounty.status = BountyStatus::Open;
    accounts.bounty.assigned_agent = None;
    accounts.bounty.completion_data = None;
    accounts.bounty.submission_url = None;
    accounts.bounty.submitted_at = None;
    accounts.bounty.rejection_reason = Some(reason);
    Ok(())
}

} // verus!
