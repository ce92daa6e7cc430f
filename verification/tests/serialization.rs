use agent_bounty::codec::decode_agent_profile;
use agent_bounty::codec::decode_bounty;
use agent_bounty::codec::decode_marketplace;
use agent_bounty::codec::encode_agent_profile;
use agent_bounty::codec::encode_bounty;
use agent_bounty::codec::encode_marketplace;
use agent_bounty::records::AgentProfile;
use agent_bounty::records::Bounty;
use agent_bounty::records::BountyStatus;
use agent_bounty::records::Marketplace;
use agent_bounty::simple;
use agent_bounty::Principal;

#[test]
fn test_bounty_serialization() {
    let bounty = simple::Bounty {
        creator: Principal::new(11, 22, 33, 44),
        title: b"Serialization Test".to_vec(),
        description: b"Testing borsh serialization".to_vec(),
        reward: 1_000_000,
        status: simple::BountyStatus::Open,
        assigned_agent: None,
    };

    let serialized = simple::encode_bounty(&bounty);
    let deserialized = simple::decode_bounty(&serialized).unwrap();

    assert_eq!(bounty.title, deserialized.title);
    assert_eq!(bounty.description, deserialized.description);
    assert_eq!(bounty.reward, deserialized.reward);
    assert_eq!(bounty.status, deserialized.status);
    assert_eq!(bounty.creator, deserialized.creator);
}

#[test]
fn simple_bounty_exact_bytes() {
    let bounty = simple::Bounty {
        creator: Principal::new(1, 2, 3, 4),
        title: b"ab".to_vec(),
        description: b"c".to_vec(),
        reward: 7,
        status: simple::BountyStatus::InProgress,
        assigned_agent: None,
    };
    let mut expected: Vec<u8> = Vec::new();
    expected.extend_from_slice(&[1, 0, 0, 0, 0, 0, 0, 0]);
    expected.extend_from_slice(&[2, 0, 0, 0, 0, 0, 0, 0]);
    expected.extend_from_slice(&[3, 0, 0, 0, 0, 0, 0, 0]);
    expected.extend_from_slice(&[4, 0, 0, 0, 0, 0, 0, 0]);
    expected.extend_from_slice(&[2, 0, 0, 0, b'a', b'b']);
    expected.extend_from_slice(&[1, 0, 0, 0, b'c']);
    expected.extend_from_slice(&[7, 0, 0, 0, 0, 0, 0, 0]);
    expected.push(1);
    expected.push(0);
    assert_eq!(simple::encode_bounty(&bounty), expected);
}

#[test]
fn simple_instruction_exact_bytes() {
    let instruction = simple::BountyInstruction::CreateBounty {
        title: b"ab".to_vec(),
        description: b"c".to_vec(),
        reward: 7,
    };
    let expected = vec![
        0, 2, 0, 0, 0, b'a', b'b', 1, 0, 0, 0, b'c', 7, 0, 0, 0, 0, 0, 0, 0,
    ];
    assert_eq!(simple::encode_instruction(&instruction), expected);
    assert_eq!(simple::encode_instruction(&simple::BountyInstruction::ClaimBounty), vec![1]);
    assert_eq!(simple::encode_instruction(&simple::BountyInstruction::CompleteBounty), vec![2]);
}

#[test]
fn instruction_round_trip() {
    let instruction = simple::BountyInstruction::CreateBounty {
        title: b"Test AI Task".to_vec(),
        description: b"Complete this AI agent task for 0.1 SOL".to_vec(),
        reward: 100_000_000,
    };
    let bytes = simple::encode_instruction(&instruction);
    assert_eq!(simple::decode_instruction(&bytes), Some(instruction));
    assert_eq!(
        simple::decode_instruction(&vec![1]),
        Some(simple::BountyInstruction::ClaimBounty)
    );
    assert_eq!(
        simple::decode_instruction(&vec![2]),
        Some(simple::BountyInstruction::CompleteBounty)
    );
}

#[test]
fn instruction_rejects_malformed_bytes() {
    // An unknown discriminant, a trailing byte, and a truncated text.
    assert_eq!(simple::decode_instruction(&vec![3]), None);
    assert_eq!(simple::decode_instruction(&vec![1, 0]), None);
    assert_eq!(simple::decode_instruction(&vec![0, 5, 0, 0, 0, b'a']), None);
    assert_eq!(simple::decode_instruction(&vec![]), None);
}

#[test]
fn marketplace_round_trip() {
    let m = Marketplace {
        authority: Principal::new(5, 6, 7, 8),
        total_bounties: 12,
        total_volume: 9_999_999_999,
    };
    let bytes = encode_marketplace(&m);
    assert_eq!(bytes.len(), 48);
    assert_eq!(decode_marketplace(&bytes), Some(m));
    // A trailing byte spoils the record.
    let mut longer = bytes.clone();
    longer.push(0);
    assert_eq!(decode_marketplace(&longer), None);
}

#[test]
fn agent_profile_round_trip() {
    let a = AgentProfile {
        agent: Principal::new(1, 1, 2, 3),
        reputation_score: 1050,
        completed_bounties: 1,
        total_earned: 95_000_000,
    };
    let bytes = encode_agent_profile(&a);
    assert_eq!(bytes.len(), 48);
    assert_eq!(decode_agent_profile(&bytes), Some(a));
    assert_eq!(decode_agent_profile(&bytes[..47].to_vec()), None);
}

fn full_bounty() -> Bounty {
    Bounty {
        id: 3,
        creator: Principal::new(1, 2, 3, 4),
        title: b"Label text".to_vec(),
        description: b"desc".to_vec(),
        requirements: b"reqs".to_vec(),
        reward: 100_000_000,
        deadline: 1_700_086_400,
        status: BountyStatus::PendingReview,
        assigned_agent: Some(Principal::new(9, 8, 7, 6)),
        created_at: 1_700_000_000,
        submitted_at: Some(1_700_000_020),
        completed_at: None,
        completion_data: Some(b"done".to_vec()),
        submission_url: Some(b"http://x".to_vec()),
        rejection_reason: None,
    }
}

#[test]
fn full_bounty_round_trip() {
    let b = full_bounty();
    let bytes = encode_bounty(&b);
    assert_eq!(decode_bounty(&bytes), Some(b));
}

#[test]
fn full_bounty_round_trip_with_empty_options() {
    let b = Bounty {
        id: 0,
        creator: Principal::new(0, 0, 0, 0),
        title: Vec::new(),
        description: Vec::new(),
        requirements: Vec::new(),
        reward: 1,
        deadline: -1,
        status: BountyStatus::Expired,
        assigned_agent: None,
        created_at: -86_400,
        submitted_at: None,
        completed_at: None,
        completion_data: None,
        submission_url: None,
        rejection_reason: None,
    };
    let bytes = encode_bounty(&b);
    assert_eq!(decode_bounty(&bytes), Some(b));
}

#[test]
fn full_bounty_decode_is_canonical() {
    // Whatever decodes re-encodes to the very same bytes.
    let bytes = encode_bounty(&full_bounty());
    let decoded = decode_bounty(&bytes).unwrap();
    assert_eq!(encode_bounty(&decoded), bytes);
}

#[test]
fn full_bounty_rejects_malformed_bytes() {
    let bytes = encode_bounty(&full_bounty());
    // Truncation at any leading prefix fails.
    assert_eq!(decode_bounty(&bytes[..bytes.len() - 1].to_vec()), None);
    assert_eq!(decode_bounty(&bytes[..8].to_vec()), None);
    assert_eq!(decode_bounty(&Vec::new()), None);
    // A trailing byte fails.
    let mut longer = bytes.clone();
    longer.push(0);
    assert_eq!(decode_bounty(&longer), None);
    // An oversized title length fails: the cap is 100.
    let mut oversized = bytes.clone();
    oversized[40] = 101;
    assert_eq!(decode_bounty(&oversized), None);
    // A status discriminant beyond the five states fails: the status
    // byte follows id, creator, the three texts, reward and deadline.
    let mut bad_status = bytes.clone();
    let status_at: usize = 8 + 32 + (4 + 10) + (4 + 4) + (4 + 4) + 8 + 8;
    assert_eq!(bad_status[status_at], 2);
    bad_status[status_at] = 5;
    assert_eq!(decode_bounty(&bad_status), None);
    // A presence byte other than 0 or 1 fails: the assigned-agent flag
    // sits right after the one-byte status.
    let mut bad_flag = bytes.clone();
    let flag_at: usize = 8 + 32 + (4 + 10) + (4 + 4) + (4 + 4) + 8 + 8 + 1;
    assert_eq!(bad_flag[flag_at], 1);
    bad_flag[flag_at] = 2;
    assert_eq!(decode_bounty(&bad_flag), None);
}

#[test]
fn negative_timestamps_round_trip() {
    let b = Bounty {
        deadline: i64::MIN,
        created_at: i64::MAX,
        submitted_at: Some(-1),
        ..full_bounty()
    };
    let bytes = encode_bounty(&b);
    assert_eq!(decode_bounty(&bytes), Some(b));
}
