use agent_bounty::simple::decode_bounty;
use agent_bounty::simple::encode_bounty;
use agent_bounty::simple::encode_instruction;
use agent_bounty::simple::process_instruction;
use agent_bounty::simple::BountyInstruction;
use agent_bounty::simple::BountyStatus;
use agent_bounty::simple::ProcessError;
use agent_bounty::Principal;

fn creation(title: &[u8], description: &[u8], reward: u64) -> Vec<u8> {
    encode_instruction(&BountyInstruction::CreateBounty {
        title: title.to_vec(),
        description: description.to_vec(),
        reward,
    })
}

#[test]
fn test_bounty_creation() {
    let creator = Principal::new(0, 0, 0, 0);
    let account_data: Vec<u8> = vec![0; 1000];
    let instruction_data = creation(b"Test bounty", b"Test description", 1000);
    let result = process_instruction(&account_data, creator, &instruction_data);
    assert!(result.is_ok());
}

#[test]
fn test_create_bounty() {
    let creator = Principal::new(1, 0, 0, 0);
    let instruction_data = creation(
        b"Test AI Task",
        b"Complete this AI agent task for 0.1 SOL",
        100_000_000,
    );
    let result = process_instruction(&Vec::new(), creator, &instruction_data);
    let bounty = result.expect("Bounty creation failed");
    assert_eq!(bounty.title, b"Test AI Task".to_vec());
    assert_eq!(bounty.description, b"Complete this AI agent task for 0.1 SOL".to_vec());
    assert_eq!(bounty.reward, 100_000_000);
    assert_eq!(bounty.status, BountyStatus::Open);
    assert_eq!(bounty.creator, creator);
}

#[test]
fn test_claim_bounty() {
    let creator = Principal::new(1, 0, 0, 0);
    let agent = Principal::new(2, 0, 0, 0);
    let created = process_instruction(
        &Vec::new(),
        creator,
        &creation(b"Test Task", b"Test Description", 50_000_000),
    )
    .unwrap();
    // The host stores the record's bytes and hands them to the next call.
    let stored = encode_bounty(&created);
    let result = process_instruction(&stored, agent, &encode_instruction(
        &BountyInstruction::ClaimBounty,
    ));
    let claimed = result.expect("Bounty claiming failed");
    assert_eq!(claimed.status, BountyStatus::InProgress);
    assert_eq!(claimed.assigned_agent, Some(agent));
    assert_eq!(claimed.reward, 50_000_000);
}

#[test]
fn test_complete_bounty() {
    let creator = Principal::new(1, 0, 0, 0);
    let agent = Principal::new(2, 0, 0, 0);
    let created = process_instruction(
        &Vec::new(),
        creator,
        &creation(b"Test Task", b"Test Description", 75_000_000),
    )
    .unwrap();
    let claimed = process_instruction(&encode_bounty(&created), agent, &encode_instruction(
        &BountyInstruction::ClaimBounty,
    ))
    .unwrap();
    let result = process_instruction(&encode_bounty(&claimed), agent, &encode_instruction(
        &BountyInstruction::CompleteBounty,
    ));
    let completed = result.expect("Bounty completion failed");
    assert_eq!(completed.status, BountyStatus::Completed);
    assert_eq!(completed.assigned_agent, Some(agent));
}

#[test]
fn stored_bytes_round_trip_between_calls() {
    let creator = Principal::new(1, 0, 0, 0);
    let created = process_instruction(&Vec::new(), creator, &creation(b"t", b"d", 5)).unwrap();
    let stored = encode_bounty(&created);
    assert_eq!(decode_bounty(&stored), Some(created));
}

#[test]
fn undecodable_instruction_is_rejected() {
    let creator = Principal::new(1, 0, 0, 0);
    assert_eq!(
        process_instruction(&Vec::new(), creator, &vec![9, 9, 9]),
        Err(ProcessError::DecodeFailed)
    );
}

#[test]
fn undecodable_record_is_rejected() {
    let agent = Principal::new(2, 0, 0, 0);
    let claim = encode_instruction(&BountyInstruction::ClaimBounty);
    assert_eq!(
        process_instruction(&vec![1, 2, 3], agent, &claim),
        Err(ProcessError::DecodeFailed)
    );
}

#[test]
fn wrong_state_or_agent_is_rejected() {
    let creator = Principal::new(1, 0, 0, 0);
    let agent = Principal::new(2, 0, 0, 0);
    let other = Principal::new(3, 0, 0, 0);
    let claim = encode_instruction(&BountyInstruction::ClaimBounty);
    let complete = encode_instruction(&BountyInstruction::CompleteBounty);

    let created = process_instruction(&Vec::new(), creator, &creation(b"t", b"d", 5)).unwrap();
    // Completing an open bounty fails.
    assert_eq!(
        process_instruction(&encode_bounty(&created), agent, &complete),
        Err(ProcessError::InvalidAccountData)
    );
    let claimed = process_instruction(&encode_bounty(&created), agent, &claim).unwrap();
    // Claiming twice fails.
    assert_eq!(
        process_instruction(&encode_bounty(&claimed), other, &claim),
        Err(ProcessError::InvalidAccountData)
    );
    // Only the assigned agent completes.
    assert_eq!(
        process_instruction(&encode_bounty(&claimed), other, &complete),
        Err(ProcessError::InvalidAccountData)
    );
    let completed = process_instruction(&encode_bounty(&claimed), agent, &complete).unwrap();
    // A completed bounty is terminal.
    assert_eq!(
        process_instruction(&encode_bounty(&completed), agent, &complete),
        Err(ProcessError::InvalidAccountData)
    );
}
