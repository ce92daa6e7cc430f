use agent_bounty::lifecycle::approve_completion;
use agent_bounty::lifecycle::claim_bounty;
use agent_bounty::lifecycle::create_bounty;
use agent_bounty::lifecycle::initialize;
use agent_bounty::lifecycle::reject_completion;
use agent_bounty::lifecycle::submit_completion;
use agent_bounty::lifecycle::ApproveCompletion;
use agent_bounty::lifecycle::ClaimBounty;
use agent_bounty::lifecycle::CreateBounty;
use agent_bounty::lifecycle::Initialize;
use agent_bounty::lifecycle::RejectCompletion;
use agent_bounty::lifecycle::SubmitCompletion;
use agent_bounty::records::BountyStatus;
use agent_bounty::records::ErrorCode;
use agent_bounty::Principal;

const NOW: i64 = 1_700_000_000;
const DAY: i64 = 86_400;

fn creator() -> Principal {
    Principal::new(1, 0, 0, 0)
}

fn agent_a() -> Principal {
    Principal::new(2, 0, 0, 0)
}

fn authority() -> Principal {
    Principal::new(9, 0, 0, 0)
}

#[test]
fn initialize_starts_empty() {
    let m = initialize(Initialize { authority: authority() });
    assert_eq!(m.authority, authority());
    assert_eq!(m.total_bounties, 0);
    assert_eq!(m.total_volume, 0);
}

#[test]
fn create_bounty_escrows_reward() {
    let m = initialize(Initialize { authority: authority() });
    let mut acc = CreateBounty { marketplace: m, creator: creator() };
    let (bounty, vault) = create_bounty(
        &mut acc,
        b"Label text".to_vec(),
        b"desc".to_vec(),
        b"reqs".to_vec(),
        100_000_000,
        NOW + DAY,
        NOW,
    )
    .unwrap();
    assert_eq!(acc.marketplace.total_bounties, 1);
    assert_eq!(acc.marketplace.total_volume, 100_000_000);
    assert_eq!(vault.balance, 100_000_000);
    assert_eq!(vault.creator, creator());
    assert_eq!(vault.bounty_id, 0);
    assert_eq!(bounty.status, BountyStatus::Open);
    assert_eq!(bounty.id, 0);
    assert_eq!(bounty.creator, creator());
    assert_eq!(bounty.reward, 100_000_000);
    assert_eq!(bounty.assigned_agent, None);
}

#[test]
fn second_bounty_takes_next_id() {
    let m = initialize(Initialize { authority: authority() });
    let mut acc = CreateBounty { marketplace: m, creator: creator() };
    let args = (b"a".to_vec(), b"b".to_vec(), b"c".to_vec());
    create_bounty(&mut acc, args.0.clone(), args.1.clone(), args.2.clone(), 10, NOW + DAY, NOW)
        .unwrap();
    let (bounty, _) = create_bounty(&mut acc, args.0, args.1, args.2, 20, NOW + DAY, NOW).unwrap();
    assert_eq!(bounty.id, 1);
    assert_eq!(acc.marketplace.total_bounties, 2);
    assert_eq!(acc.marketplace.total_volume, 30);
}

#[test]
fn claim_assigns_agent_and_opens_profile() {
    let m = initialize(Initialize { authority: authority() });
    let mut acc = CreateBounty { marketplace: m, creator: creator() };
    let (bounty, _vault) = create_bounty(
        &mut acc,
        b"Label text".to_vec(),
        b"desc".to_vec(),
        b"reqs".to_vec(),
        100_000_000,
        NOW + DAY,
        NOW,
    )
    .unwrap();
    let mut claim = ClaimBounty { bounty, agent_profile: None, agent: agent_a() };
    claim_bounty(&mut claim, NOW + 10).unwrap();
    assert_eq!(claim.bounty.status, BountyStatus::InProgress);
    assert_eq!(claim.bounty.assigned_agent, Some(agent_a()));
    let profile = claim.agent_profile.unwrap();
    assert_eq!(profile.agent, agent_a());
    assert_eq!(profile.reputation_score, 1000);
    assert_eq!(profile.completed_bounties, 0);
    assert_eq!(profile.total_earned, 0);
}

#[test]
fn claim_keeps_existing_profile() {
    let m = initialize(Initialize { authority: authority() });
    let mut acc = CreateBounty { marketplace: m, creator: creator() };
    let (bounty, _vault) = create_bounty(
        &mut acc,
        b"t".to_vec(),
        b"d".to_vec(),
        b"r".to_vec(),
        500,
        NOW + DAY,
        NOW,
    )
    .unwrap();
    let existing = agent_bounty::records::AgentProfile {
        agent: agent_a(),
        reputation_score: 1100,
        completed_bounties: 2,
        total_earned: 42,
    };
    let mut claim = ClaimBounty { bounty, agent_profile: Some(existing), agent: agent_a() };
    claim_bounty(&mut claim, NOW + 10).unwrap();
    assert_eq!(claim.agent_profile.unwrap(), existing);
}

#[test]
fn submit_moves_to_pending_review() {
    let m = initialize(Initialize { authority: authority() });
    let mut acc = CreateBounty { marketplace: m, creator: creator() };
    let (bounty, _vault) = create_bounty(
        &mut acc,
        b"Label text".to_vec(),
        b"desc".to_vec(),
        b"reqs".to_vec(),
        100_000_000,
        NOW + DAY,
        NOW,
    )
    .unwrap();
    let mut claim = ClaimBounty { bounty, agent_profile: None, agent: agent_a() };
    claim_bounty(&mut claim, NOW + 10).unwrap();
    let mut submit = SubmitCompletion { bounty: claim.bounty, agent: agent_a() };
    submit_completion(&mut submit, b"done".to_vec(), b"http://x".to_vec(), NOW + 20).unwrap();
    assert_eq!(submit.bounty.status, BountyStatus::PendingReview);
    assert_eq!(submit.bounty.completion_data, Some(b"done".to_vec()));
    assert_eq!(submit.bounty.submission_url, Some(b"http://x".to_vec()));
    assert_eq!(submit.bounty.submitted_at, Some(NOW + 20));
}

#[test]
fn approve_splits_the_reward_and_credits_the_agent() {
    let m = initialize(Initialize { authority: authority() });
    let mut acc = CreateBounty { marketplace: m, creator: creator() };
    let (bounty, vault) = create_bounty(
        &mut acc,
        b"Label text".to_vec(),
        b"desc".to_vec(),
        b"reqs".to_vec(),
        100_000_000,
        NOW + DAY,
        NOW,
    )
    .unwrap();
    let mut claim = ClaimBounty { bounty, agent_profile: None, agent: agent_a() };
    claim_bounty(&mut claim, NOW + 10).unwrap();
    let profile = claim.agent_profile.unwrap();
    let mut submit = SubmitCompletion { bounty: claim.bounty, agent: agent_a() };
    submit_completion(&mut submit, b"done".to_vec(), b"http://x".to_vec(), NOW + 20).unwrap();
    let mut approve = ApproveCompletion {
        bounty: submit.bounty,
        escrow_vault: vault,
        agent_profile: profile,
        creator: creator(),
    };
    let payout = approve_completion(&mut approve, NOW + 30).unwrap();
    assert_eq!(payout.platform_fee, 5_000_000);
    assert_eq!(payout.agent_payment, 95_000_000);
    assert_eq!(approve.bounty.status, BountyStatus::Completed);
    assert_eq!(approve.bounty.completed_at, Some(NOW + 30));
    assert_eq!(approve.escrow_vault.balance, 0);
    assert_eq!(approve.agent_profile.completed_bounties, 1);
    assert_eq!(approve.agent_profile.total_earned, 95_000_000);
    assert_eq!(approve.agent_profile.reputation_score, 1050);
}

#[test]
fn reject_reopens_and_keeps_the_escrow() {
    let m = initialize(Initialize { authority: authority() });
    let mut acc = CreateBounty { marketplace: m, creator: creator() };
    let (bounty, vault) = create_bounty(
        &mut acc,
        b"Label text".to_vec(),
        b"desc".to_vec(),
        b"reqs".to_vec(),
        100_000_000,
        NOW + DAY,
        NOW,
    )
    .unwrap();
    let mut claim = ClaimBounty { bounty, agent_profile: None, agent: agent_a() };
    claim_bounty(&mut claim, NOW + 10).unwrap();
    let mut submit = SubmitCompletion { bounty: claim.bounty, agent: agent_a() };
    submit_completion(&mut submit, b"done".to_vec(), b"http://x".to_vec(), NOW + 20).unwrap();
    let mut reject = RejectCompletion { bounty: submit.bounty, creator: creator() };
    reject_completion(&mut reject, b"insufficient proof".to_vec()).unwrap();
    assert_eq!(reject.bounty.status, BountyStatus::Open);
    assert_eq!(reject.bounty.assigned_agent, None);
    assert_eq!(reject.bounty.completion_data, None);
    assert_eq!(reject.bounty.submission_url, None);
    assert_eq!(reject.bounty.submitted_at, None);
    assert_eq!(reject.bounty.rejection_reason, Some(b"insufficient proof".to_vec()));
    // The vault was never part of the rejection's record set.
    assert_eq!(vault.balance, 100_000_000);
}

#[test]
fn claim_after_deadline_changes_nothing() {
    let m = initialize(Initialize { authority: authority() });
    let mut acc = CreateBounty { marketplace: m, creator: creator() };
    let (bounty, _vault) = create_bounty(
        &mut acc,
        b"Label text".to_vec(),
        b"desc".to_vec(),
        b"reqs".to_vec(),
        100_000_000,
        NOW + DAY,
        NOW,
    )
    .unwrap();
    let before = bounty.clone();
    let mut claim = ClaimBounty { bounty, agent_profile: None, agent: agent_a() };
    let r = claim_bounty(&mut claim, NOW + DAY);
    assert_eq!(r, Err(ErrorCode::BountyExpired));
    assert_eq!(claim.bounty.status, before.status);
    assert_eq!(claim.bounty.assigned_agent, before.assigned_agent);
    assert_eq!(claim.bounty.title, before.title);
    assert_eq!(claim.bounty.reward, before.reward);
    assert_eq!(claim.agent_profile, None);
}

#[test]
fn creation_validation_errors() {
    let mk = || CreateBounty {
        marketplace: initialize(Initialize { authority: authority() }),
        creator: creator(),
    };
    let long = |n: usize| vec![b'x'; n];
    let mut acc = mk();
    assert_eq!(
        create_bounty(&mut acc, long(101), long(1), long(1), 5, NOW + DAY, NOW),
        Err(ErrorCode::TitleTooLong)
    );
    assert_eq!(acc.marketplace.total_bounties, 0);
    let mut acc = mk();
    assert_eq!(
        create_bounty(&mut acc, long(100), long(501), long(1), 5, NOW + DAY, NOW),
        Err(ErrorCode::DescriptionTooLong)
    );
    let mut acc = mk();
    assert_eq!(
        create_bounty(&mut acc, long(100), long(500), long(201), 5, NOW + DAY, NOW),
        Err(ErrorCode::RequirementsTooLong)
    );
    let mut acc = mk();
    assert_eq!(
        create_bounty(&mut acc, long(100), long(500), long(200), 0, NOW + DAY, NOW),
        Err(ErrorCode::InvalidReward)
    );
    let mut acc = mk();
    assert_eq!(
        create_bounty(&mut acc, long(100), long(500), long(200), 5, NOW, NOW),
        Err(ErrorCode::InvalidDeadline)
    );
}

#[test]
fn state_and_authorization_errors() {
    let m = initialize(Initialize { authority: authority() });
    let mut acc = CreateBounty { marketplace: m, creator: creator() };
    let (bounty, vault) = create_bounty(
        &mut acc,
        b"t".to_vec(),
        b"d".to_vec(),
        b"r".to_vec(),
        1000,
        NOW + DAY,
        NOW,
    )
    .unwrap();

    // An open bounty takes no submission, approval or rejection.
    let mut submit = SubmitCompletion { bounty: bounty.clone(), agent: agent_a() };
    assert_eq!(
        submit_completion(&mut submit, b"done".to_vec(), b"u".to_vec(), NOW),
        Err(ErrorCode::BountyNotInProgress)
    );

    let mut claim = ClaimBounty { bounty, agent_profile: None, agent: agent_a() };
    claim_bounty(&mut claim, NOW + 1).unwrap();

    // A second claim finds the bounty no longer open.
    let mut claim2 = ClaimBounty {
        bounty: claim.bounty.clone(),
        agent_profile: None,
        agent: Principal::new(3, 0, 0, 0),
    };
    assert_eq!(claim_bounty(&mut claim2, NOW + 2), Err(ErrorCode::BountyNotOpen));

    // Only the assigned agent may submit.
    let mut wrong = SubmitCompletion {
        bounty: claim.bounty.clone(),
        agent: Principal::new(3, 0, 0, 0),
    };
    assert_eq!(
        submit_completion(&mut wrong, b"done".to_vec(), b"u".to_vec(), NOW),
        Err(ErrorCode::NotAssignedAgent)
    );

    // Oversized submission texts are rejected before the state check.
    let mut oversized = SubmitCompletion { bounty: claim.bounty.clone(), agent: agent_a() };
    assert_eq!(
        submit_completion(&mut oversized, vec![b'x'; 501], b"u".to_vec(), NOW),
        Err(ErrorCode::CompletionDataTooLong)
    );
    assert_eq!(
        submit_completion(&mut oversized, b"done".to_vec(), vec![b'x'; 101], NOW),
        Err(ErrorCode::UrlTooLong)
    );

    // Approval and rejection wait for a submission.
    let profile = claim.agent_profile.unwrap();
    let mut approve = ApproveCompletion {
        bounty: claim.bounty.clone(),
        escrow_vault: vault,
        agent_profile: profile,
        creator: creator(),
    };
    assert_eq!(approve_completion(&mut approve, NOW), Err(ErrorCode::BountyNotPendingReview));

    let mut submit = SubmitCompletion { bounty: claim.bounty, agent: agent_a() };
    submit_completion(&mut submit, b"done".to_vec(), b"u".to_vec(), NOW).unwrap();

    // Only the creator reviews.
    let mut stranger = ApproveCompletion {
        bounty: submit.bounty.clone(),
        escrow_vault: vault,
        agent_profile: profile,
        creator: agent_a(),
    };
    assert_eq!(approve_completion(&mut stranger, NOW), Err(ErrorCode::NotBountyCreator));
    let mut stranger = RejectCompletion { bounty: submit.bounty.clone(), creator: agent_a() };
    assert_eq!(
        reject_completion(&mut stranger, b"no".to_vec()),
        Err(ErrorCode::NotBountyCreator)
    );

    // An oversized reason is rejected first.
    let mut reject = RejectCompletion { bounty: submit.bounty.clone(), creator: creator() };
    assert_eq!(reject_completion(&mut reject, vec![b'x'; 201]), Err(ErrorCode::ReasonTooLong));

    // A rejected bounty can be claimed and approved by a second agent.
    let mut reject = RejectCompletion { bounty: submit.bounty, creator: creator() };
    reject_completion(&mut reject, b"redo".to_vec()).unwrap();
    let agent_b = Principal::new(4, 0, 0, 0);
    let mut claim3 = ClaimBounty { bounty: reject.bounty, agent_profile: None, agent: agent_b };
    claim_bounty(&mut claim3, NOW + 3).unwrap();
    let mut submit3 = SubmitCompletion { bounty: claim3.bounty, agent: agent_b };
    submit_completion(&mut submit3, b"v2".to_vec(), b"u2".to_vec(), NOW + 4).unwrap();
    let mut approve3 = ApproveCompletion {
        bounty: submit3.bounty,
        escrow_vault: vault,
        agent_profile: claim3.agent_profile.unwrap(),
        creator: creator(),
    };
    let payout = approve_completion(&mut approve3, NOW + 5).unwrap();
    assert_eq!(payout.platform_fee, 50);
    assert_eq!(payout.agent_payment, 950);
    assert_eq!(approve3.escrow_vault.balance, 0);
}

#[test]
fn fee_truncates_toward_zero() {
    // 19 * 5 / 100 == 0: small rewards pay no fee.
    let m = initialize(Initialize { authority: authority() });
    let mut acc = CreateBounty { marketplace: m, creator: creator() };
    let (bounty, vault) = create_bounty(
        &mut acc,
        b"t".to_vec(),
        b"d".to_vec(),
        b"r".to_vec(),
        19,
        NOW + DAY,
        NOW,
    )
    .unwrap();
    let mut claim = ClaimBounty { bounty, agent_profile: None, agent: agent_a() };
    claim_bounty(&mut claim, NOW + 1).unwrap();
    let mut submit = SubmitCompletion { bounty: claim.bounty, agent: agent_a() };
    submit_completion(&mut submit, b"x".to_vec(), b"y".to_vec(), NOW + 2).unwrap();
    let mut approve = ApproveCompletion {
        bounty: submit.bounty,
        escrow_vault: vault,
        agent_profile: claim.agent_profile.unwrap(),
        creator: creator(),
    };
    let payout = approve_completion(&mut approve, NOW + 3).unwrap();
    assert_eq!(payout.platform_fee, 0);
    assert_eq!(payout.agent_payment, 19);
}
