use vstd::prelude::*;
use crate::principal::Principal;
use crate::wire::dec_bytes;
use crate::wire::dec_opt_principal;
use crate::wire::dec_principal;
use crate::wire::dec_u64;
use crate::wire::dec_u8;
use crate::wire::enc_bytes;
use crate::wire::enc_opt_principal;
use crate::wire::enc_principal;
use crate::wire::enc_u64;
use crate::wire::enc_u8;
use crate::wire::lemma_concat_assoc;
use crate::wire::lemma_dec_bytes_canonical;
use crate::wire::lemma_dec_enc_bytes;
use crate::wire::lemma_dec_enc_opt_principal;
use crate::wire::lemma_dec_enc_principal;
use crate::wire::lemma_dec_enc_u64;
use crate::wire::lemma_dec_enc_u8;
use crate::wire::lemma_dec_opt_principal_canonical;
use crate::wire::lemma_dec_principal_canonical;
use crate::wire::lemma_dec_u64_canonical;
use crate::wire::lemma_dec_u8_canonical;
use crate::wire::put_bytes;
use crate::wire::put_opt_principal;
use crate::wire::put_principal;
use crate::wire::put_u64;
use crate::wire::put_u8;
use crate::wire::read_bytes;
use crate::wire::read_opt_principal;
use crate::wire::read_principal;
use crate::wire::read_u64;
use crate::wire::read_u8;
use crate::wire::MAX_WIRE_LEN;

verus! {

// The reduced program: one flat bounty record, three states, three
// operations, no escrow, no fee, no reputation and no deadline. One
// call hands it the stored record's bytes, the signer, and the
// instruction bytes, and gets back the record to store.

/// Lifecycle status of the reduced program's bounty.
#[derive(Clone, Copy, PartialEq, Eq, Structural, Debug)]
pub enum BountyStatus {
    Open,
    InProgress,
    Completed,
}

/// The reduced program's one record kind.
#[derive(Clone, PartialEq, Eq, Debug)]
pub struct Bounty {
    pub creator: Principal,
    pub title: Vec<u8>,
    pub description: Vec<u8>,
    pub reward: u64,
    pub status: BountyStatus,
    pub assigned_agent: Option<Principal>,
}

/// Mathematical image of the reduced bounty: texts as the byte
/// sequences they hold.
pub struct BountyView {
    pub creator: Principal,
    pub title: Seq<u8>,
    pub description: Seq<u8>,
    pub reward: u64,
    pub status: BountyStatus,
    pub assigned_agent: Option<Principal>,
}

impl BountyView {
    /// Both text fields fit behind a 32-bit length prefix.
    pub open spec fn texts_bounded(self) -> bool {
        self.title.len() <= MAX_WIRE_LEN && self.description.len() <= MAX_WIRE_LEN
    }
}

impl View for Bounty {
    type V = BountyView;

    open spec fn view(&self) -> BountyView {
        BountyView {
            creator: self.creator,
            title: self.title@,
            description: self.description@,
            reward: self.reward,
            status: self.status,
            assigned_agent: self.assigned_agent,
        }
    }
}

/// One request to the reduced program, as the wire carries it.
#[derive(Clone, PartialEq, Eq, Debug)]
pub enum BountyInstruction {
    CreateBounty { title: Vec<u8>, description: Vec<u8>, reward: u64 },
    ClaimBounty,
    CompleteBounty,
}

/// Mathematical image of a request.
pub enum InstructionView {
    CreateBounty { title: Seq<u8>, description: Seq<u8>, reward: u64 },
    ClaimBounty,
    CompleteBounty,
}

impl View for BountyInstruction {
    type V = InstructionView;

    open spec fn view(&self) -> InstructionView {
        match self {
            BountyInstruction::CreateBounty { title, description, reward } => {
                InstructionView::CreateBounty {
                    title: title@,
                    description: description@,
                    reward: *reward,
                }
            }
            BountyInstruction::ClaimBounty => InstructionView::ClaimBounty,
            BountyInstruction::CompleteBounty => InstructionView::CompleteBounty,
        }
    }
}

/// Why the reduced program rejects a request. `DecodeFailed` stands
/// for undecodable instruction or record bytes; `InvalidAccountData`
/// for a transition the record's state does not permit, as the
/// original host error of that name did.
#[derive(Clone, Copy, PartialEq, Eq, Structural, Debug)]
pub enum ProcessError {
    DecodeFailed,
    InvalidAccountData,
}

/// One-byte discriminant of a reduced-variant status.
pub open spec fn status_tag(st: BountyStatus) -> u8 {
    match st {
        BountyStatus::Open => 0,
        BountyStatus::InProgress => 1,
        BountyStatus::Completed => 2,
    }
}

/// The status a discriminant byte stands for.
pub open spec fn tag_status(tag: u8) -> Option<BountyStatus> {
    if tag == 0 {
        Some(BountyStatus::Open)
    } else if tag == 1 {
        Some(BountyStatus::InProgress)
    } else if tag == 2 {
        Some(BountyStatus::Completed)
    } else {
        None
    }
}

pub open spec fn enc_status(st: BountyStatus) -> Seq<u8> {
    enc_u8(status_tag(st))
}

pub open spec fn dec_status(s: Seq<u8>) -> Option<(BountyStatus, Seq<u8>)> {
    match dec_u8(s) {
        Some((tag, r)) => match tag_status(tag) {
            Some(st) => Some((st, r)),
            None => None,
        },
        None => None,
    }
}

pub proof fn lemma_dec_enc_status(st: BountyStatus, rest: Seq<u8>)
    ensures
        dec_status(enc_status(st) + rest) == Some((st, rest)),
{
    lemma_dec_enc_u8(status_tag(st), rest);
}

pub proof fn lemma_dec_status_canonical(s: Seq<u8>)
    ensures
        dec_status(s) matches Some(p) ==> s == enc_status(p.0) + p.1,
{
    lemma_dec_u8_canonical(s);
}

fn put_status(out: &mut Vec<u8>, st: BountyStatus)
    ensures
        final(out)@ == old(out)@ + enc_status(st),
{
    let tag: u8 = match st {
        BountyStatus::Open => 0,
        BountyStatus::InProgress => 1,
        BountyStatus::Completed => 2,
    };
    put_u8(out, tag);
}

fn read_status(data: &Vec<u8>, pos: usize) -> (r: Option<(BountyStatus, usize)>)
    requires
        pos <= data@.len(),
    ensures
        match r {
            Some(p) => pos < p.1 <= data@.len() && dec_status(data@.skip(pos as int)) == Some(
                (p.0, data@.skip(p.1 as int)),
            ),
            None => dec_status(data@.skip(pos as int)) is None,
        },
{
    let (tag, p1) = match read_u8(data, pos) {
        Some(p) => p,
        None => {
            return None;
        }
    };
    let st = if tag == 0 {
        BountyStatus::Open
    } else if tag == 1 {
        BountyStatus::InProgress
    } else if tag == 2 {
        BountyStatus::Completed
    } else {
        return None;
    };
    Some((st, p1))
}

/// Wire image of the reduced bounty: the fields in declaration order.
pub open spec fn enc_bounty(b: BountyView) -> Seq<u8> {
    enc_principal(b.creator) + (enc_bytes(b.title) + (enc_bytes(b.description) + (enc_u64(b.reward)
        + (enc_status(b.status) + enc_opt_principal(b.assigned_agent)))))
}

pub open spec fn dec_bounty(s: Seq<u8>) -> Option<(BountyView, Seq<u8>)> {
    match dec_principal(s) {
        Some((creator, s1)) => match dec_bytes(s1, MAX_WIRE_LEN as int) {
            Some((title, s2)) => match dec_bytes(s2, MAX_WIRE_LEN as int) {
                Some((description, s3)) => match dec_u64(s3) {
                    Some((reward, s4)) => match dec_status(s4) {
                        Some((status, s5)) => match dec_opt_principal(s5) {
                            Some((assigned_agent, s6)) => Some(
                                (
                                    BountyView {
                                        creator,
                                        title,
                                        description,
                                        reward,
                                        status,
                                        assigned_agent,
                                    },
                                    s6,
                                ),
                            ),
                            None => None,
                        },
                        None => None,
                    },
                    None => None,
                },
                None => None,
            },
            None => None,
        },
        None => None,
    }
}

/// The reduced bounty a byte string holds, when it holds exactly one.
pub open spec fn spec_decode_bounty(s: Seq<u8>) -> Option<BountyView> {
    match dec_bounty(s) {
        Some((b, rest)) => if rest.len() == 0 {
            Some(b)
        } else {
            None
        },
        None => None,
    }
}

pub proof fn lemma_dec_enc_bounty(b: BountyView, rest: Seq<u8>)
    requires
        b.texts_bounded(),
    ensures
        dec_bounty(enc_bounty(b) + rest) == Some((b, rest)),
{
    let e1 = enc_principal(b.creator);
    let e2 = enc_bytes(b.title);
    let e3 = enc_bytes(b.description);
    let e4 = enc_u64(b.reward);
    let e5 = enc_status(b.status);
    let e6 = enc_opt_principal(b.assigned_agent);
    let t6 = e6;
    let t5 = e5 + t6;
    let t4 = e4 + t5;
    let t3 = e3 + t4;
    let t2 = e2 + t3;
    lemma_concat_assoc(e1, t2, rest);
    lemma_dec_enc_principal(b.creator, t2 + rest);
    lemma_concat_assoc(e2, t3, rest);
    lemma_dec_enc_bytes(b.title, t3 + rest, MAX_WIRE_LEN as int);
    lemma_concat_assoc(e3, t4, rest);
    lemma_dec_enc_bytes(b.description, t4 + rest, MAX_WIRE_LEN as int);
    lemma_concat_assoc(e4, t5, rest);
    lemma_dec_enc_u64(b.reward, t5 + rest);
    lemma_concat_assoc(e5, t6, rest);
    lemma_dec_enc_status(b.status, t6 + rest);
    lemma_dec_enc_opt_principal(b.assigned_agent, rest);
}

/// Decoding an encoded reduced bounty yields the bounty back.
pub proof fn lemma_bounty_round_trip(b: BountyView)
    requires
        b.texts_bounded(),
    ensures
        spec_decode_bounty(enc_bounty(b)) == Some(b),
{
    let rest = Seq::<u8>::empty();
    assert(enc_bounty(b) + rest =~= enc_bounty(b));
    lemma_dec_enc_bounty(b, rest);
}

/// Whatever decodes as a reduced bounty re-encodes to the same bytes.
pub proof fn lemma_bounty_canonical(s: Seq<u8>)
    ensures
        spec_decode_bounty(s) matches Some(b) ==> b.texts_bounded() && enc_bounty(b) == s,
{
    if dec_bounty(s) is Some {
        let (creator, s1) = dec_principal(s)->Some_0;
        let (title, s2) = dec_bytes(s1, MAX_WIRE_LEN as int)->Some_0;
        let (description, s3) = dec_bytes(s2, MAX_WIRE_LEN as int)->Some_0;
        let (reward, s4) = dec_u64(s3)->Some_0;
        let (status, s5) = dec_status(s4)->Some_0;
        let (assigned_agent, s6) = dec_opt_principal(s5)->Some_0;
        lemma_dec_principal_canonical(s);
        lemma_dec_bytes_canonical(s1, MAX_WIRE_LEN as int);
        lemma_dec_bytes_canonical(s2, MAX_WIRE_LEN as int);
        lemma_dec_u64_canonical(s3);
        lemma_dec_status_canonical(s4);
        lemma_dec_opt_principal_canonical(s5);
        if s6.len() == 0 {
            let e6 = enc_opt_principal(assigned_agent);
            assert(e6 + s6 =~= e6);
            let t6 = e6;
            let t5 = enc_status(status) + t6;
            let t4 = enc_u64(reward) + t5;
            let t3 = enc_bytes(description) + t4;
            let t2 = enc_bytes(title) + t3;
            assert(s5 == t6);
            assert(s4 == t5);
            assert(s3 == t4);
            assert(s2 == t3);
            assert(s1 == t2);
        }
    }
}

/// Writes a reduced bounty in its wire layout.
pub fn encode_bounty(b: &Bounty) -> (r: Vec<u8>)
    requires
        b@.texts_bounded(),
    ensures
        r@ == enc_bounty(b@),
{
    let mut out: Vec<u8> = Vec::new();
    put_principal(&mut out, b.creator);
    put_bytes(&mut out, &b.title);
    put_bytes(&mut out, &b.description);
    put_u64(&mut out, b.reward);
    put_status(&mut out, b.status);
    put_opt_principal(&mut out, b.assigned_agent);
    proof {
        let e1 = enc_principal(b.creator);
        let e2 = enc_bytes(b.title@);
        let e3 = enc_bytes(b.description@);
        let e4 = enc_u64(b.reward);
        let e5 = enc_status(b.status);
        let e6 = enc_opt_principal(b.assigned_agent);
        let t6 = e6;
        let t5 = e5 + t6;
        let t4 = e4 + t5;
        let t3 = e3 + t4;
        let t2 = e2 + t3;
        let l1 = Seq::<u8>::empty() + e1;
        assert(l1 =~= e1);
        let l2 = l1 + e2;
        let l3 = l2 + e3;
        let l4 = l3 + e4;
        let l5 = l4 + e5;
        lemma_concat_assoc(l1, e2, t3);
        lemma_concat_assoc(l2, e3, t4);
        lemma_concat_assoc(l3, e4, t5);
        lemma_concat_assoc(l4, e5, t6);
        assert(out@ == l5 + e6);
        assert(out@ == enc_bounty(b@));
    }
    out
}

/// Reads back a reduced bounty, accepting exactly the wire layout and
/// nothing after it.
pub fn decode_bounty(data: &Vec<u8>) -> (r: Option<Bounty>)
    ensures
        match r {
            Some(b) => spec_decode_bounty(data@) == Some(b@),
            None => spec_decode_bounty(data@) is None,
        },
{
    proof {
        assert(data@.skip(0) =~= data@);
    }
    let (creator, p1) = match read_principal(data, 0) {
        Some(p) => p,
        None => {
            return None;
        }
    };
    let (title, p2) = match read_bytes(data, p1, u32::MAX) {
        Some(p) => p,
        None => {
            return None;
        }
    };
    let (description, p3) = match read_bytes(data, p2, u32::MAX) {
        Some(p) => p,
        None => {
            return None;
        }
    };
    let (reward, p4) = match read_u64(data, p3) {
        Some(p) => p,
        None => {
            return None;
        }
    };
    let (status, p5) = match read_status(data, p4) {
        Some(p) => p,
        None => {
            return None;
        }
    };
    let (assigned_agent, p6) = match read_opt_principal(data, p5) {
        Some(p) => p,
        None => {
            return None;
        }
    };
    if p6 != data.len() {
        return None;
    }
    Some(Bounty { creator, title, description, reward, status, assigned_agent })
}

/// Wire image of a request: a one-byte discriminant, then the
/// variant's fields in order.
pub open spec fn enc_instruction(i: InstructionView) -> Seq<u8> {
    match i {
        InstructionView::CreateBounty { title, description, reward } => {
            enc_u8(0) + (enc_bytes(title) + (enc_bytes(description) + enc_u64(reward)))
        }
        InstructionView::ClaimBounty => enc_u8(1),
        InstructionView::CompleteBounty => enc_u8(2),
    }
}

pub open spec fn dec_instruction(s: Seq<u8>) -> Option<(InstructionView, Seq<u8>)> {
    match dec_u8(s) {
        Some((tag, r)) => if tag == 0 {
            match dec_bytes(r, MAX_WIRE_LEN as int) {
                Some((title, r1)) => match dec_bytes(r1, MAX_WIRE_LEN as int) {
                    Some((description, r2)) => match dec_u64(r2) {
                        Some((reward, r3)) => Some(
                            (InstructionView::CreateBounty { title, description, reward }, r3),
                        ),
                        None => None,
                    },
                    None => None,
                },
                None => None,
            }
        } else if tag == 1 {
            Some((InstructionView::ClaimBounty, r))
        } else if tag == 2 {
            Some((InstructionView::CompleteBounty, r))
        } else {
            None
        },
        None => None,
    }
}

/// The request a byte string holds, when it holds exactly one.
pub open spec fn spec_decode_instruction(s: Seq<u8>) -> Option<InstructionView> {
    match dec_instruction(s) {
        Some((i, rest)) => if rest.len() == 0 {
            Some(i)
        } else {
            None
        },
        None => None,
    }
}

/// A request's texts fit behind their length prefixes.
pub open spec fn instruction_texts_bounded(i: InstructionView) -> bool {
    i matches InstructionView::CreateBounty { title, description, reward } ==> title.len()
        <= MAX_WIRE_LEN && description.len() <= MAX_WIRE_LEN
}

/// Decoding an encoded request yields the request back.
pub proof fn lemma_instruction_round_trip(i: InstructionView)
    requires
        instruction_texts_bounded(i),
    ensures
        spec_decode_instruction(enc_instruction(i)) == Some(i),
{
    let rest = Seq::<u8>::empty();
    assert(enc_instruction(i) + rest =~= enc_instruction(i));
    match i {
        InstructionView::CreateBounty { title, description, reward } => {
            let e2 = enc_bytes(title);
            let e3 = enc_bytes(description);
            let e4 = enc_u64(reward);
            let t4 = e4;
            let t3 = e3 + t4;
            let t2 = e2 + t3;
            lemma_concat_assoc(enc_u8(0), t2, rest);
            lemma_dec_enc_u8(0, t2 + rest);
            lemma_concat_assoc(e2, t3, rest);
            lemma_dec_enc_bytes(title, t3 + rest, MAX_WIRE_LEN as int);
            lemma_concat_assoc(e3, t4, rest);
            lemma_dec_enc_bytes(description, t4 + rest, MAX_WIRE_LEN as int);
            lemma_dec_enc_u64(reward, rest);
        }
        InstructionView::ClaimBounty => {
            lemma_dec_enc_u8(1, rest);
        }
        InstructionView::CompleteBounty => {
            lemma_dec_enc_u8(2, rest);
        }
    }
}

/// Whatever decodes as a request re-encodes to the same bytes.
pub proof fn lemma_instruction_canonical(s: Seq<u8>)
    ensures
        spec_decode_instruction(s) matches Some(i) ==> instruction_texts_bounded(i)
            && enc_instruction(i) == s,
{
    if dec_instruction(s) is Some {
        let (tag, r) = dec_u8(s)->Some_0;
        lemma_dec_u8_canonical(s);
        if tag == 0 {
            let (title, r1) = dec_bytes(r, MAX_WIRE_LEN as int)->Some_0;
            let (description, r2) = dec_bytes(r1, MAX_WIRE_LEN as int)->Some_0;
            let (reward, r3) = dec_u64(r2)->Some_0;
            lemma_dec_bytes_canonical(r, MAX_WIRE_LEN as int);
            lemma_dec_bytes_canonical(r1, MAX_WIRE_LEN as int);
            lemma_dec_u64_canonical(r2);
            if r3.len() == 0 {
                let e4 = enc_u64(reward);
                assert(e4 + r3 =~= e4);
                let t4 = e4;
                let t3 = enc_bytes(description) + t4;
                let t2 = enc_bytes(title) + t3;
                assert(r2 == t4);
                assert(r1 == t3);
                assert(r == t2);
            }
        }
    }
}

/// Writes a request in its wire layout.
pub fn encode_instruction(i: &BountyInstruction) -> (r: Vec<u8>)
    requires
        instruction_texts_bounded(i@),
    ensures
        r@ == enc_instruction(i@),
{
    let mut out: Vec<u8> = Vec::new();
    match i {
        BountyInstruction::CreateBounty { title, description, reward } => {
            put_u8(&mut out, 0);
            put_bytes(&mut out, title);
            put_bytes(&mut out, description);
            put_u64(&mut out, *reward);
            proof {
                let e1 = enc_u8(0);
                let e2 = enc_bytes(title@);
                let e3 = enc_bytes(description@);
                let e4 = enc_u64(*reward);
                let t4 = e4;
                let t3 = e3 + t4;
                let t2 = e2 + t3;
                let l1 = Seq::<u8>::empty() + e1;
                assert(l1 =~= e1);
                let l2 = l1 + e2;
                let l3 = l2 + e3;
                lemma_concat_assoc(l1, e2, t3);
                lemma_concat_assoc(l2, e3, t4);
                assert(out@ == l3 + e4);
                assert(out@ == enc_instruction(i@));
            }
        }
        BountyInstruction::ClaimBounty => {
            put_u8(&mut out, 1);
            proof {
                assert(Seq::<u8>::empty() + enc_u8(1) =~= enc_u8(1));
            }
        }
        BountyInstruction::CompleteBounty => {
            put_u8(&mut out, 2);
            proof {
                assert(Seq::<u8>::empty() + enc_u8(2) =~= enc_u8(2));
            }
        }
    }
    out
}

/// Reads back a request, accepting exactly the wire layout and nothing
/// after it.
pub fn decode_instruction(data: &Vec<u8>) -> (r: Option<BountyInstruction>)
    ensures
        match r {
            Some(i) => spec_decode_instruction(data@) == Some(i@),
            None => spec_decode_instruction(data@) is None,
        },
{
    proof {
        assert(data@.skip(0) =~= data@);
    }
    let (tag, p1) = match read_u8(data, 0) {
        Some(p) => p,
        None => {
            return None;
        }
    };
    if tag == 0 {
        let (title, p2) = match read_bytes(data, p1, u32::MAX) {
            Some(p) => p,
            None => {
                return None;
            }
        };
        let (description, p3) = match read_bytes(data, p2, u32::MAX) {
            Some(p) => p,
            None => {
                return None;
            }
        };
        let (reward, p4) = match read_u64(data, p3) {
            Some(p) => p,
            None => {
                return None;
            }
        };
        if p4 != data.len() {
            return None;
        }
        Some(BountyInstruction::CreateBounty { title, description, reward })
    } else if tag == 1 {
        if p1 != data.len() {
            return None;
        }
        Some(BountyInstruction::ClaimBounty)
    } else if tag == 2 {
        if p1 != data.len() {
            return None;
        }
        Some(BountyInstruction::CompleteBounty)
    } else {
        None
    }
}

/// Builds a fresh open bounty owned by the creator. The reduced
/// program validates nothing here.
pub fn create_bounty(
    creator: Principal,
    title: Vec<u8>,
    description: Vec<u8>,
    reward: u64,
) -> (b: Bounty)
    ensures
        b == (Bounty {
            creator,
            title,
            description,
            reward,
            status: BountyStatus::Open,
            assigned_agent: None,
        }),
{
    Bounty { creator, title, description, reward, status: BountyStatus::Open, assigned_agent: None }
}

/// Assigns an open bounty to the calling agent.
pub fn claim_bounty(bounty: &mut Bounty, agent: Principal) -> (r: Result<(), ProcessError>)
    ensures
        r is Ok <==> old(bounty).status == BountyStatus::Open,
        r matches Err(e) ==> e == ProcessError::InvalidAccountData && *final(bounty) == *old(
            bounty,
        ),
        r is Ok ==> *final(bounty) == (Bounty {
            status: BountyStatus::InProgress,
            assigned_agent: Some(agent),
            ..*old(bounty)
        }),
{
    if !(bounty.status == BountyStatus::Open) {
        return Err(ProcessError::InvalidAccountData);
    }
    bounty.status = BountyStatus::InProgress;
    bounty.assigned_agent = Some(agent);
    Ok(())
}

/// Marks an in-progress bounty completed, on the assigned agent's own
/// word — the reduced program has no review step.
pub fn complete_bounty(bounty: &mut Bounty, agent: Principal) -> (r: Result<(), ProcessError>)
    ensures
        r is Ok <==> old(bounty).status == BountyStatus::InProgress && old(
            bounty,
        ).assigned_agent == Some(agent),
        r matches Err(e) ==> e == ProcessError::InvalidAccountData && *final(bounty) == *old(
            bounty,
        ),
        r is Ok ==> *final(bounty) == (Bounty {
            status: BountyStatus::Completed,
            ..*old(bounty)
        }),
{
    if !(bounty.status == BountyStatus::InProgress) {
        return Err(ProcessError::InvalidAccountData);
    }
    let assigned = match bounty.assigned_agent {
        Some(a) => a == agent,
        None => false,
    };
    if !assigned {
        return Err(ProcessError::InvalidAccountData);
    }
    bounty.status = BountyStatus::Completed;
    Ok(())
}

/// What one request does to the stored record: the record the host
/// must store back, or the error it must surface.
pub open spec fn spec_process_instruction(
    account: Seq<u8>,
    signer: Principal,
    instruction: Seq<u8>,
) -> Result<BountyView, ProcessError> {
    match spec_decode_instruction(instruction) {
        None => Err(ProcessError::DecodeFailed),
        Some(InstructionView::CreateBounty { title, description, reward }) => Ok(
            BountyView {
                creator: signer,
                title,
                description,
                reward,
                status: BountyStatus::Open,
                assigned_agent: None,
            },
        ),
        Some(InstructionView::ClaimBounty) => match spec_decode_bounty(account) {
            None => Err(ProcessError::DecodeFailed),
            Some(b) => if b.status == BountyStatus::Open {
                Ok(
                    BountyView {
                        status: BountyStatus::InProgress,
                        assigned_agent: Some(signer),
                        ..b
                    },
                )
            } else {
                Err(ProcessError::InvalidAccountData)
            },
        },
        Some(InstructionView::CompleteBounty) => match spec_decode_bounty(account) {
            None => Err(ProcessError::DecodeFailed),
            Some(b) => if b.status == BountyStatus::InProgress && b.assigned_agent == Some(signer) {
                Ok(BountyView { status: BountyStatus::Completed, ..b })
            } else {
                Err(ProcessError::InvalidAccountData)
            },
        },
    }
}

/// The reduced program's whole entry point: decodes the request,
/// dispatches on it, and returns the record to store back. The signer
/// is the creator for a creation and the agent for a claim or a
/// completion, as the host authenticated it.
pub fn process_instruction(
    account_data: &Vec<u8>,
    signer: Principal,
    instruction_data: &Vec<u8>,
) -> (r: Result<Bounty, ProcessError>)
    ensures
        match r {
            Ok(b) => spec_process_instruction(account_data@, signer, instruction_data@) == Ok::<
                BountyView,
                ProcessError,
            >(b@),
            Err(e) => spec_process_instruction(account_data@, signer, instruction_data@) == Err::<
                BountyView,
                ProcessError,
            >(e),
        },
{
    let instruction = match decode_instruction(instruction_data) {
        Some(i) => i,
        None => {
            return Err(ProcessError::DecodeFailed);
        }
    };
    match instruction {
        BountyInstruction::CreateBounty { title, description, reward } => {
            Ok(create_bounty(signer, title, description, reward))
        }
        BountyInstruction::ClaimBounty => {
            let mut bounty = match decode_bounty(account_data) {
                Some(b) => b,
                None => {
                    return Err(ProcessError::DecodeFailed);
                }
            };
            match claim_bounty(&mut bounty, signer) {
                Ok(()) => Ok(bounty),
                Err(e) => Err(e),
            }
        }
        BountyInstruction::CompleteBounty => {
            let mut bounty = match decode_bounty(account_data) {
                Some(b) => b,
                None => {
                    return Err(ProcessError::DecodeFailed);
                }
            };
            match complete_bounty(&mut bounty, signer) {
                Ok(()) => Ok(bounty),
                Err(e) => Err(e),
            }
        }
    }
}

} // verus!
