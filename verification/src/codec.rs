use vstd::prelude::*;
use crate::principal::Principal;
use crate::records::AgentProfile;
use crate::records::Bounty;
use crate::records::BountyStatus;
use crate::records::BountyView;
use crate::records::Marketplace;
use crate::records::MAX_COMPLETION_DATA_LEN;
use crate::records::MAX_DESCRIPTION_LEN;
use crate::records::MAX_REASON_LEN;
use crate::records::MAX_REQUIREMENTS_LEN;
use crate::records::MAX_SUBMISSION_URL_LEN;
use crate::records::MAX_TITLE_LEN;
use crate::wire::dec_bytes;
use crate::wire::dec_i64;
use crate::wire::dec_opt_bytes;
use crate::wire::dec_opt_i64;
use crate::wire::dec_opt_principal;
use crate::wire::dec_principal;
use crate::wire::dec_u32;
use crate::wire::dec_u64;
use crate::wire::dec_u8;
use crate::wire::enc_bytes;
use crate::wire::enc_i64;
use crate::wire::enc_opt_bytes;
use crate::wire::enc_opt_i64;
use crate::wire::enc_opt_principal;
use crate::wire::enc_principal;
use crate::wire::enc_u32;
use crate::wire::enc_u64;
use crate::wire::enc_u8;
use crate::wire::lemma_concat_assoc;
use crate::wire::lemma_dec_bytes_canonical;
use crate::wire::lemma_dec_enc_bytes;
use crate::wire::lemma_dec_enc_i64;
use crate::wire::lemma_dec_enc_opt_bytes;
use crate::wire::lemma_dec_enc_opt_i64;
use crate::wire::lemma_dec_enc_opt_principal;
use crate::wire::lemma_dec_enc_principal;
use crate::wire::lemma_dec_enc_u32;
use crate::wire::lemma_dec_enc_u64;
use crate::wire::lemma_dec_enc_u8;
use crate::wire::lemma_dec_i64_canonical;
use crate::wire::lemma_dec_opt_bytes_canonical;
use crate::wire::lemma_dec_opt_i64_canonical;
use crate::wire::lemma_dec_opt_principal_canonical;
use crate::wire::lemma_dec_principal_canonical;
use crate::wire::lemma_dec_u32_canonical;
use crate::wire::lemma_dec_u64_canonical;
use crate::wire::lemma_dec_u8_canonical;
use crate::wire::opt_bytes_view;
use crate::wire::put_bytes;
use crate::wire::put_i64;
use crate::wire::put_opt_bytes;
use crate::wire::put_opt_i64;
use crate::wire::put_opt_principal;
use crate::wire::put_principal;
use crate::wire::put_u32;
use crate::wire::put_u64;
use crate::wire::put_u8;
use crate::wire::read_bytes;
use crate::wire::read_i64;
use crate::wire::read_opt_bytes;
use crate::wire::read_opt_i64;
use crate::wire::read_opt_principal;
use crate::wire::read_principal;
use crate::wire::read_u32;
use crate::wire::read_u64;
use crate::wire::read_u8;

verus! {

// Persisted layout of each record kind, built from the pieces of the
// wire layer: fields in declaration order, nothing else. Decoding
// consumes the whole input and accepts exactly the encodings, so that
// whatever decodes re-encodes to the very same bytes.

/// One-byte discriminant of a full-variant status.
pub open spec fn status_tag(st: BountyStatus) -> u8 {
    match st {
        BountyStatus::Open => 0,
        BountyStatus::InProgress => 1,
        BountyStatus::PendingReview => 2,
        BountyStatus::Completed => 3,
        BountyStatus::Expired => 4,
    }
}

/// The status a discriminant byte stands for.
pub open spec fn tag_status(tag: u8) -> Option<BountyStatus> {
    if tag == 0 {
        Some(BountyStatus::Open)
    } else if tag == 1 {
        Some(BountyStatus::InProgress)
    } else if tag == 2 {
        Some(BountyStatus::PendingReview)
    } else if tag == 3 {
        Some(BountyStatus::Completed)
    } else if tag == 4 {
        Some(BountyStatus::Expired)
    } else {
        None
    }
}

pub open spec fn enc_status(st: BountyStatus) -> Seq<u8> {
    enc_u8(status_tag(st))
}

pub open spec fn dec_status(s: Seq<u8>) -> Option<(BountyStatus, Seq<u8>)> {
    match dec_u8(s) {
        Some((tag, r)) => match tag_status(tag) {
            Some(st) => Some((st, r)),
            None => None,
        },
        None => None,
    }
}

pub proof fn lemma_dec_enc_status(st: BountyStatus, rest: Seq<u8>)
    ensures
        dec_status(enc_status(st) + rest) == Some((st, rest)),
{
    lemma_dec_enc_u8(status_tag(st), rest);
}

pub proof fn lemma_dec_status_canonical(s: Seq<u8>)
    ensures
        dec_status(s) matches Some(p) ==> s == enc_status(p.0) + p.1,
{
    lemma_dec_u8_canonical(s);
}

fn status_to_tag(st: BountyStatus) -> (r: u8)
    ensures
        r == status_tag(st),
{
    match st {
        BountyStatus::Open => 0,
        BountyStatus::InProgress => 1,
        BountyStatus::PendingReview => 2,
        BountyStatus::Completed => 3,
        BountyStatus::Expired => 4,
    }
}

fn put_status(out: &mut Vec<u8>, st: BountyStatus)
    ensures
        final(out)@ == old(out)@ + enc_status(st),
{
    let tag = status_to_tag(st);
    put_u8(out, tag);
}

fn read_status(data: &Vec<u8>, pos: usize) -> (r: Option<(BountyStatus, usize)>)
    requires
        pos <= data@.len(),
    ensures
        match r {
            Some(p) => pos < p.1 <= data@.len() && dec_status(data@.skip(pos as int)) == Some(
                (p.0, data@.skip(p.1 as int)),
            ),
            None => dec_status(data@.skip(pos as int)) is None,
        },
{
    let (tag, p1) = match read_u8(data, pos) {
        Some(p) => p,
        None => {
            return None;
        }
    };
    let st = if tag == 0 {
        BountyStatus::Open
    } else if tag == 1 {
        BountyStatus::InProgress
    } else if tag == 2 {
        BountyStatus::PendingReview
    } else if tag == 3 {
        BountyStatus::Completed
    } else if tag == 4 {
        BountyStatus::Expired
    } else {
        return None;
    };
    Some((st, p1))
}

/// Wire image of the registry: authority, then both counters.
pub open spec fn enc_marketplace(m: Marketplace) -> Seq<u8> {
    enc_principal(m.authority) + (enc_u64(m.total_bounties) + enc_u64(m.total_volume))
}

pub open spec fn dec_marketplace(s: Seq<u8>) -> Option<(Marketplace, Seq<u8>)> {
    match dec_principal(s) {
        Some((authority, s1)) => match dec_u64(s1) {
            Some((total_bounties, s2)) => match dec_u64(s2) {
                Some((total_volume, s3)) => Some(
                    (Marketplace { authority, total_bounties, total_volume }, s3),
                ),
                None => None,
            },
            None => None,
        },
        None => None,
    }
}

/// The registry record a byte string holds, when it holds exactly one.
pub open spec fn spec_decode_marketplace(s: Seq<u8>) -> Option<Marketplace> {
    match dec_marketplace(s) {
        Some((m, rest)) => if rest.len() == 0 {
            Some(m)
        } else {
            None
        },
        None => None,
    }
}

/// Decoding an encoded registry yields the registry back.
pub proof fn lemma_marketplace_round_trip(m: Marketplace)
    ensures
        spec_decode_marketplace(enc_marketplace(m)) == Some(m),
{
    let e1 = enc_principal(m.authority);
    let e2 = enc_u64(m.total_bounties);
    let e3 = enc_u64(m.total_volume);
    let rest = Seq::<u8>::empty();
    assert(enc_marketplace(m) + rest =~= enc_marketplace(m));
    lemma_concat_assoc(e1, e2 + e3, rest);
    lemma_dec_enc_principal(m.authority, (e2 + e3) + rest);
    lemma_concat_assoc(e2, e3, rest);
    lemma_dec_enc_u64(m.total_bounties, e3 + rest);
    lemma_dec_enc_u64(m.total_volume, rest);
}

/// Whatever decodes as a registry re-encodes to the same bytes.
pub proof fn lemma_marketplace_canonical(s: Seq<u8>)
    ensures
        spec_decode_marketplace(s) matches Some(m) ==> enc_marketplace(m) == s,
{
    if dec_marketplace(s) is Some {
        let (authority, s1) = dec_principal(s)->Some_0;
        let (total_bounties, s2) = dec_u64(s1)->Some_0;
        let (total_volume, s3) = dec_u64(s2)->Some_0;
        lemma_dec_principal_canonical(s);
        lemma_dec_u64_canonical(s1);
        lemma_dec_u64_canonical(s2);
        if s3.len() == 0 {
            assert(enc_u64(total_volume) + s3 =~= enc_u64(total_volume));
            lemma_concat_assoc(enc_principal(authority), enc_u64(total_bounties), enc_u64(
                total_volume,
            ));
        }
    }
}

pub fn encode_marketplace(m: &Marketplace) -> (r: Vec<u8>)
    ensures
        r@ == enc_marketplace(*m),
{
    let mut out: Vec<u8> = Vec::new();
    put_principal(&mut out, m.authority);
    put_u64(&mut out, m.total_bounties);
    put_u64(&mut out, m.total_volume);
    proof {
        let e1 = enc_principal(m.authority);
        let e2 = enc_u64(m.total_bounties);
        let e3 = enc_u64(m.total_volume);
        assert(((Seq::<u8>::empty() + e1) + e2) + e3 =~= e1 + (e2 + e3));
    }
    out
}

pub fn decode_marketplace(data: &Vec<u8>) -> (r: Option<Marketplace>)
    ensures
        r == spec_decode_marketplace(data@),
{
    proof {
        assert(data@.skip(0) =~= data@);
    }
    let (authority, p1) = match read_principal(data, 0) {
        Some(p) => p,
        None => {
            return None;
        }
    };
    let (total_bounties, p2) = match read_u64(data, p1) {
        Some(p) => p,
        None => {
            return None;
        }
    };
    let (total_volume, p3) = match read_u64(data, p2) {
        Some(p) => p,
        None => {
            return None;
        }
    };
    if p3 != data.len() {
        return None;
    }
    Some(Marketplace { authority, total_bounties, total_volume })
}

/// Wire image of an agent profile: agent, reputation, completion
/// count, total earned.
pub open spec fn enc_agent_profile(a: AgentProfile) -> Seq<u8> {
    enc_principal(a.agent) + (enc_u32(a.reputation_score) + (enc_u32(a.completed_bounties)
        + enc_u64(a.total_earned)))
}

pub open spec fn dec_agent_profile(s: Seq<u8>) -> Option<(AgentProfile, Seq<u8>)> {
    match dec_principal(s) {
        Some((agent, s1)) => match dec_u32(s1) {
            Some((reputation_score, s2)) => match dec_u32(s2) {
                Some((completed_bounties, s3)) => match dec_u64(s3) {
                    Some((total_earned, s4)) => Some(
                        (
                            AgentProfile {
                                agent,
                                reputation_score,
                                completed_bounties,
                                total_earned,
                            },
                            s4,
                        ),
                    ),
                    None => None,
                },
                None => None,
            },
            None => None,
        },
        None => None,
    }
}

/// The profile record a byte string holds, when it holds exactly one.
pub open spec fn spec_decode_agent_profile(s: Seq<u8>) -> Option<AgentProfile> {
    match dec_agent_profile(s) {
        Some((a, rest)) => if rest.len() == 0 {
            Some(a)
        } else {
            None
        },
        None => None,
    }
}

/// Decoding an encoded profile yields the profile back.
pub proof fn lemma_agent_profile_round_trip(a: AgentProfile)
    ensures
        spec_decode_agent_profile(enc_agent_profile(a)) == Some(a),
{
    let e1 = enc_principal(a.agent);
    let e2 = enc_u32(a.reputation_score);
    let e3 = enc_u32(a.completed_bounties);
    let e4 = enc_u64(a.total_earned);
    let rest = Seq::<u8>::empty();
    assert(enc_agent_profile(a) + rest =~= enc_agent_profile(a));
    lemma_concat_assoc(e1, e2 + (e3 + e4), rest);
    lemma_dec_enc_principal(a.agent, (e2 + (e3 + e4)) + rest);
    lemma_concat_assoc(e2, e3 + e4, rest);
    lemma_dec_enc_u32(a.reputation_score, (e3 + e4) + rest);
    lemma_concat_assoc(e3, e4, rest);
    lemma_dec_enc_u32(a.completed_bounties, e4 + rest);
    lemma_dec_enc_u64(a.total_earned, rest);
}

/// Whatever decodes as a profile re-encodes to the same bytes.
pub proof fn lemma_agent_profile_canonical(s: Seq<u8>)
    ensures
        spec_decode_agent_profile(s) matches Some(a) ==> enc_agent_profile(a) == s,
{
    if dec_agent_profile(s) is Some {
        let (agent, s1) = dec_principal(s)->Some_0;
        let (reputation_score, s2) = dec_u32(s1)->Some_0;
        let (completed_bounties, s3) = dec_u32(s2)->Some_0;
        let (total_earned, s4) = dec_u64(s3)->Some_0;
        lemma_dec_principal_canonical(s);
        lemma_dec_u32_canonical(s1);
        lemma_dec_u32_canonical(s2);
        lemma_dec_u64_canonical(s3);
        if s4.len() == 0 {
            assert(enc_u64(total_earned) + s4 =~= enc_u64(total_earned));
            lemma_concat_assoc(enc_u32(completed_bounties), enc_u64(total_earned), s4);
            lemma_concat_assoc(enc_u32(reputation_score), enc_u32(completed_bounties) + enc_u64(
                total_earned,
            ), s4);
            lemma_concat_assoc(enc_principal(agent), enc_u32(reputation_score) + (enc_u32(
                completed_bounties,
            ) + enc_u64(total_earned)), s4);
            assert((enc_u32(completed_bounties) + enc_u64(total_earned)) + s4 =~= enc_u32(
                completed_bounties,
            ) + enc_u64(total_earned));
        }
    }
}

pub fn encode_agent_profile(a: &AgentProfile) -> (r: Vec<u8>)
    ensures
        r@ == enc_agent_profile(*a),
{
    let mut out: Vec<u8> = Vec::new();
    put_principal(&mut out, a.agent);
    put_u32(&mut out, a.reputation_score);
    put_u32(&mut out, a.completed_bounties);
    put_u64(&mut out, a.total_earned);
    proof {
        let e1 = enc_principal(a.agent);
        let e2 = enc_u32(a.reputation_score);
        let e3 = enc_u32(a.completed_bounties);
        let e4 = enc_u64(a.total_earned);
        assert((((Seq::<u8>::empty() + e1) + e2) + e3) + e4 =~= e1 + (e2 + (e3 + e4)));
    }
    out
}

pub fn decode_agent_profile(data: &Vec<u8>) -> (r: Option<AgentProfile>)
    ensures
        r == spec_decode_agent_profile(data@),
{
    proof {
        assert(data@.skip(0) =~= data@);
    }
    let (agent, p1) = match read_principal(data, 0) {
        Some(p) => p,
        None => {
            return None;
        }
    };
    let (reputation_score, p2) = match read_u32(data, p1) {
        Some(p) => p,
        None => {
            return None;
        }
    };
    let (completed_bounties, p3) = match read_u32(data, p2) {
        Some(p) => p,
        None => {
            return None;
        }
    };
    let (total_earned, p4) = match read_u64(data, p3) {
        Some(p) => p,
        None => {
            return None;
        }
    };
    if p4 != data.len() {
        return None;
    }
    Some(AgentProfile { agent, reputation_score, completed_bounties, total_earned })
}

/// Wire image of a bounty: the fields in declaration order.
pub open spec fn enc_bounty(b: BountyView) -> Seq<u8> {
    enc_u64(b.id) + (enc_principal(b.creator) + (enc_bytes(b.title) + (enc_bytes(b.description)
        + (enc_bytes(b.requirements) + (enc_u64(b.reward) + (enc_i64(b.deadline) + (enc_status(
        b.status,
    ) + (enc_opt_principal(b.assigned_agent) + (enc_i64(b.created_at) + (enc_opt_i64(
        b.submitted_at,
    ) + (enc_opt_i64(b.completed_at) + (enc_opt_bytes(b.completion_data) + (enc_opt_bytes(
        b.submission_url,
    ) + enc_opt_bytes(b.rejection_reason))))))))))))))
}

pub open spec fn dec_bounty(s: Seq<u8>) -> Option<(BountyView, Seq<u8>)> {
    match dec_u64(s) {
        Some((id, s1)) => match dec_principal(s1) {
            Some((creator, s2)) => match dec_bytes(s2, MAX_TITLE_LEN as int) {
                Some((title, s3)) => match dec_bytes(s3, MAX_DESCRIPTION_LEN as int) {
                    Some((description, s4)) => match dec_bytes(s4, MAX_REQUIREMENTS_LEN as int) {
                        Some((requirements, s5)) => match dec_u64(s5) {
                            Some((reward, s6)) => match dec_i64(s6) {
                                Some((deadline, s7)) => match dec_status(s7) {
                                    Some((status, s8)) => match dec_opt_principal(s8) {
                                        Some((assigned_agent, s9)) => match dec_i64(s9) {
                                            Some((created_at, s10)) => match dec_opt_i64(s10) {
                                                Some((submitted_at, s11)) => match dec_opt_i64(
                                                    s11,
                                                ) {
                                                    Some((completed_at, s12)) => match dec_opt_bytes(
                                                        s12,
                                                        MAX_COMPLETION_DATA_LEN as int,
                                                    ) {
                                                        Some((completion_data, s13)) => match dec_opt_bytes(
                                                            s13,
                                                            MAX_SUBMISSION_URL_LEN as int,
                                                        ) {
                                                            Some((submission_url, s14)) => match dec_opt_bytes(
                                                                s14,
                                                                MAX_REASON_LEN as int,
                                                            ) {
                                                                Some((rejection_reason, s15)) => Some(
                                                                    (
                                                                        BountyView {
                                                                            id,
                                                                            creator,
                                                                            title,
                                                                            description,
                                                                            requirements,
                                                                            reward,
                                                                            deadline,
                                                                            status,
                                                                            assigned_agent,
                                                                            created_at,
                                                                            submitted_at,
                                                                            completed_at,
                                                                            completion_data,
                                                                            submission_url,
                                                                            rejection_reason,
                                                                        },
                                                                        s15,
                                                                    ),
                                                                ),
                                                                None => None,
                                                            },
                                                            None => None,
                                                        },
                                                        None => None,
                                                    },
                                                    None => None,
                                                },
                                                None => None,
                                            },
                                            None => None,
                                        },
                                        None => None,
                                    },
                                    None => None,
                                },
                                None => None,
                            },
                            None => None,
                        },
                        None => None,
                    },
                    None => None,
                },
                None => None,
            },
            None => None,
        },
        None => None,
    }
}

/// The bounty record a byte string holds, when it holds exactly one.
pub open spec fn spec_decode_bounty(s: Seq<u8>) -> Option<BountyView> {
    match dec_bounty(s) {
        Some((b, rest)) => if rest.len() == 0 {
            Some(b)
        } else {
            None
        },
        None => None,
    }
}

pub proof fn lemma_dec_enc_bounty(b: BountyView, rest: Seq<u8>)
    requires
        b.texts_bounded(),
    ensures
        dec_bounty(enc_bounty(b) + rest) == Some((b, rest)),
{
    let e1 = enc_u64(b.id);
    let e2 = enc_principal(b.creator);
    let e3 = enc_bytes(b.title);
    let e4 = enc_bytes(b.description);
    let e5 = enc_bytes(b.requirements);
    let e6 = enc_u64(b.reward);
    let e7 = enc_i64(b.deadline);
    let e8 = enc_status(b.status);
    let e9 = enc_opt_principal(b.assigned_agent);
    let e10 = enc_i64(b.created_at);
    let e11 = enc_opt_i64(b.submitted_at);
    let e12 = enc_opt_i64(b.completed_at);
    let e13 = enc_opt_bytes(b.completion_data);
    let e14 = enc_opt_bytes(b.submission_url);
    let e15 = enc_opt_bytes(b.rejection_reason);
    let t15 = e15;
    let t14 = e14 + t15;
    let t13 = e13 + t14;
    let t12 = e12 + t13;
    let t11 = e11 + t12;
    let t10 = e10 + t11;
    let t9 = e9 + t10;
    let t8 = e8 + t9;
    let t7 = e7 + t8;
    let t6 = e6 + t7;
    let t5 = e5 + t6;
    let t4 = e4 + t5;
    let t3 = e3 + t4;
    let t2 = e2 + t3;
    lemma_concat_assoc(e1, t2, rest);
    lemma_dec_enc_u64(b.id, t2 + rest);
    lemma_concat_assoc(e2, t3, rest);
    lemma_dec_enc_principal(b.creator, t3 + rest);
    lemma_concat_assoc(e3, t4, rest);
    lemma_dec_enc_bytes(b.title, t4 + rest, MAX_TITLE_LEN as int);
    lemma_concat_assoc(e4, t5, rest);
    lemma_dec_enc_bytes(b.description, t5 + rest, MAX_DESCRIPTION_LEN as int);
    lemma_concat_assoc(e5, t6, rest);
    lemma_dec_enc_bytes(b.requirements, t6 + rest, MAX_REQUIREMENTS_LEN as int);
    lemma_concat_assoc(e6, t7, rest);
    lemma_dec_enc_u64(b.reward, t7 + rest);
    lemma_concat_assoc(e7, t8, rest);
    lemma_dec_enc_i64(b.deadline, t8 + rest);
    lemma_concat_assoc(e8, t9, rest);
    lemma_dec_enc_status(b.status, t9 + rest);
    lemma_concat_assoc(e9, t10, rest);
    lemma_dec_enc_opt_principal(b.assigned_agent, t10 + rest);
    lemma_concat_assoc(e10, t11, rest);
    lemma_dec_enc_i64(b.created_at, t11 + rest);
    lemma_concat_assoc(e11, t12, rest);
    lemma_dec_enc_opt_i64(b.submitted_at, t12 + rest);
    lemma_concat_assoc(e12, t13, rest);
    lemma_dec_enc_opt_i64(b.completed_at, t13 + rest);
    lemma_concat_assoc(e13, t14, rest);
    lemma_dec_enc_opt_bytes(b.completion_data, t14 + rest, MAX_COMPLETION_DATA_LEN as int);
    lemma_concat_assoc(e14, t15, rest);
    lemma_dec_enc_opt_bytes(b.submission_url, t15 + rest, MAX_SUBMISSION_URL_LEN as int);
    lemma_dec_enc_opt_bytes(b.rejection_reason, rest, MAX_REASON_LEN as int);
}

/// Decoding an encoded bounty yields the bounty back.
pub proof fn lemma_bounty_round_trip(b: BountyView)
    requires
        b.texts_bounded(),
    ensures
        spec_decode_bounty(enc_bounty(b)) == Some(b),
{
    let rest = Seq::<u8>::empty();
    assert(enc_bounty(b) + rest =~= enc_bounty(b));
    lemma_dec_enc_bounty(b, rest);
}

/// Whatever decodes as a bounty re-encodes to the very same bytes.
pub proof fn lemma_bounty_canonical(s: Seq<u8>)
    ensures
        spec_decode_bounty(s) matches Some(b) ==> b.texts_bounded() && enc_bounty(b) == s,
{
    if dec_bounty(s) is Some {
        let (id, s1) = dec_u64(s)->Some_0;
        let (creator, s2) = dec_principal(s1)->Some_0;
        let (title, s3) = dec_bytes(s2, MAX_TITLE_LEN as int)->Some_0;
        let (description, s4) = dec_bytes(s3, MAX_DESCRIPTION_LEN as int)->Some_0;
        let (requirements, s5) = dec_bytes(s4, MAX_REQUIREMENTS_LEN as int)->Some_0;
        let (reward, s6) = dec_u64(s5)->Some_0;
        let (deadline, s7) = dec_i64(s6)->Some_0;
        let (status, s8) = dec_status(s7)->Some_0;
        let (assigned_agent, s9) = dec_opt_principal(s8)->Some_0;
        let (created_at, s10) = dec_i64(s9)->Some_0;
        let (submitted_at, s11) = dec_opt_i64(s10)->Some_0;
        let (completed_at, s12) = dec_opt_i64(s11)->Some_0;
        let (completion_data, s13) = dec_opt_bytes(s12, MAX_COMPLETION_DATA_LEN as int)->Some_0;
        let (submission_url, s14) = dec_opt_bytes(s13, MAX_SUBMISSION_URL_LEN as int)->Some_0;
        let (rejection_reason, s15) = dec_opt_bytes(s14, MAX_REASON_LEN as int)->Some_0;
        lemma_dec_u64_canonical(s);
        lemma_dec_principal_canonical(s1);
        lemma_dec_bytes_canonical(s2, MAX_TITLE_LEN as int);
        lemma_dec_bytes_canonical(s3, MAX_DESCRIPTION_LEN as int);
        lemma_dec_bytes_canonical(s4, MAX_REQUIREMENTS_LEN as int);
        lemma_dec_u64_canonical(s5);
        lemma_dec_i64_canonical(s6);
        lemma_dec_status_canonical(s7);
        lemma_dec_opt_principal_canonical(s8);
        lemma_dec_i64_canonical(s9);
        lemma_dec_opt_i64_canonical(s10);
        lemma_dec_opt_i64_canonical(s11);
        lemma_dec_opt_bytes_canonical(s12, MAX_COMPLETION_DATA_LEN as int);
        lemma_dec_opt_bytes_canonical(s13, MAX_SUBMISSION_URL_LEN as int);
        lemma_dec_opt_bytes_canonical(s14, MAX_REASON_LEN as int);
        if s15.len() == 0 {
            let e1 = enc_u64(id);
            let e2 = enc_principal(creator);
            let e3 = enc_bytes(title);
            let e4 = enc_bytes(description);
            let e5 = enc_bytes(requirements);
            let e6 = enc_u64(reward);
            let e7 = enc_i64(deadline);
            let e8 = enc_status(status);
            let e9 = enc_opt_principal(assigned_agent);
            let e10 = enc_i64(created_at);
            let e11 = enc_opt_i64(submitted_at);
            let e12 = enc_opt_i64(completed_at);
            let e13 = enc_opt_bytes(completion_data);
            let e14 = enc_opt_bytes(submission_url);
            let e15 = enc_opt_bytes(rejection_reason);
            assert(e15 + s15 =~= e15);
            let t15 = e15;
            let t14 = e14 + t15;
            let t13 = e13 + t14;
            let t12 = e12 + t13;
            let t11 = e11 + t12;
            let t10 = e10 + t11;
            let t9 = e9 + t10;
            let t8 = e8 + t9;
            let t7 = e7 + t8;
            let t6 = e6 + t7;
            let t5 = e5 + t6;
            let t4 = e4 + t5;
            let t3 = e3 + t4;
            let t2 = e2 + t3;
            // From the back: each remainder is the encoding of the
            // fields after it.
            assert(s14 == t15);
            assert(s13 == t14);
            assert(s12 == t13);
            assert(s11 == t12);
            assert(s10 == t11);
            assert(s9 == t10);
            assert(s8 == t9);
            assert(s7 == t8);
            assert(s6 == t7);
            assert(s5 == t6);
            assert(s4 == t5);
            assert(s3 == t4);
            assert(s2 == t3);
            assert(s1 == t2);
        }
    }
}

/// Writes a bounty in its wire layout.
pub fn encode_bounty(b: &Bounty) -> (r: Vec<u8>)
    requires
        b.texts_bounded(),
    ensures
        r@ == enc_bounty(b@),
{
    let mut out: Vec<u8> = Vec::new();
    put_u64(&mut out, b.id);
    put_principal(&mut out, b.creator);
    put_bytes(&mut out, &b.title);
    put_bytes(&mut out, &b.description);
    put_bytes(&mut out, &b.requirements);
    put_u64(&mut out, b.reward);
    put_i64(&mut out, b.deadline);
    put_status(&mut out, b.status);
    put_opt_principal(&mut out, b.assigned_agent);
    put_i64(&mut out, b.created_at);
    put_opt_i64(&mut out, b.submitted_at);
    put_opt_i64(&mut out, b.completed_at);
    put_opt_bytes(&mut out, &b.completion_data);
    put_opt_bytes(&mut out, &b.submission_url);
    put_opt_bytes(&mut out, &b.rejection_reason);
    proof {
        let e1 = enc_u64(b.id);
        let e2 = enc_principal(b.creator);
        let e3 = enc_bytes(b.title@);
        let e4 = enc_bytes(b.description@);
        let e5 = enc_bytes(b.requirements@);
        let e6 = enc_u64(b.reward);
        let e7 = enc_i64(b.deadline);
        let e8 = enc_status(b.status);
        let e9 = enc_opt_principal(b.assigned_agent);
        let e10 = enc_i64(b.created_at);
        let t15 = enc_opt_bytes(opt_bytes_view(b.rejection_reason));
        let t14 = enc_opt_bytes(opt_bytes_view(b.submission_url)) + t15;
        let t13 = enc_opt_bytes(opt_bytes_view(b.completion_data)) + t14;
        let t12 = enc_opt_i64(b.completed_at) + t13;
        let t11 = enc_opt_i64(b.submitted_at) + t12;
        let t10 = e10 + t11;
        let t9 = e9 + t10;
        let t8 = e8 + t9;
        let t7 = e7 + t8;
        let t6 = e6 + t7;
        let t5 = e5 + t6;
        let t4 = e4 + t5;
        let t3 = e3 + t4;
        let t2 = e2 + t3;
        let l1 = Seq::<u8>::empty() + e1;
        assert(l1 =~= e1);
        let l2 = l1 + e2;
        let l3 = l2 + e3;
        let l4 = l3 + e4;
        let l5 = l4 + e5;
        let l6 = l5 + e6;
        let l7 = l6 + e7;
        let l8 = l7 + e8;
        let l9 = l8 + e9;
        let l10 = l9 + e10;
        let l11 = l10 + enc_opt_i64(b.submitted_at);
        let l12 = l11 + enc_opt_i64(b.completed_at);
        let l13 = l12 + enc_opt_bytes(opt_bytes_view(b.completion_data));
        let l14 = l13 + enc_opt_bytes(opt_bytes_view(b.submission_url));
        lemma_concat_assoc(l1, e2, t3);
        lemma_concat_assoc(l2, e3, t4);
        lemma_concat_assoc(l3, e4, t5);
        lemma_concat_assoc(l4, e5, t6);
        lemma_concat_assoc(l5, e6, t7);
        lemma_concat_assoc(l6, e7, t8);
        lemma_concat_assoc(l7, e8, t9);
        lemma_concat_assoc(l8, e9, t10);
        lemma_concat_assoc(l9, e10, t11);
        lemma_concat_assoc(l10, enc_opt_i64(b.submitted_at), t12);
        lemma_concat_assoc(l11, enc_opt_i64(b.completed_at), t13);
        lemma_concat_assoc(l12, enc_opt_bytes(opt_bytes_view(b.completion_data)), t14);
        lemma_concat_assoc(l13, enc_opt_bytes(opt_bytes_view(b.submission_url)), t15);
        assert(out@ == l14 + t15);
        assert(out@ == enc_bounty(b@));
    }
    out
}

/// Reads back a bounty, accepting exactly the wire layout and nothing
/// after it.
pub fn decode_bounty(data: &Vec<u8>) -> (r: Option<Bounty>)
    ensures
        match r {
            Some(b) => spec_decode_bounty(data@) == Some(b@),
            None => spec_decode_bounty(data@) is None,
        },
{
    proof {
        assert(data@.skip(0) =~= data@);
    }
    let (id, p1) = match read_u64(data, 0) {
        Some(p) => p,
        None => {
            return None;
        }
    };
    let (creator, p2) = match read_principal(data, p1) {
        Some(p) => p,
        None => {
            return None;
        }
    };
    let (title, p3) = match read_bytes(data, p2, MAX_TITLE_LEN as u32) {
        Some(p) => p,
        None => {
            return None;
        }
    };
    let (description, p4) = match read_bytes(data, p3, MAX_DESCRIPTION_LEN as u32) {
        Some(p) => p,
        None => {
            return None;
        }
    };
    let (requirements, p5) = match read_bytes(data, p4, MAX_REQUIREMENTS_LEN as u32) {
        Some(p) => p,
        None => {
            return None;
        }
    };
    let (reward, p6) = match read_u64(data, p5) {
        Some(p) => p,
        None => {
            return None;
        }
    };
    let (deadline, p7) = match read_i64(data, p6) {
        Some(p) => p,
        None => {
            return None;
        }
    };
    let (status, p8) = match read_status(data, p7) {
        Some(p) => p,
        None => {
            return None;
        }
    };
    let (assigned_agent, p9) = match read_opt_principal(data, p8) {
        Some(p) => p,
        None => {
            return None;
        }
    };
    let (created_at, p10) = match read_i64(data, p9) {
        Some(p) => p,
        None => {
            return None;
        }
    };
    let (submitted_at, p11) = match read_opt_i64(data, p10) {
        Some(p) => p,
        None => {
            return None;
        }
    };
    let (completed_at, p12) = match read_opt_i64(data, p11) {
        Some(p) => p,
        None => {
            return None;
        }
    };
    let (completion_data, p13) = match read_opt_bytes(data, p12, MAX_COMPLETION_DATA_LEN as u32) {
        Some(p) => p,
        None => {
            return None;
        }
    };
    let (submission_url, p14) = match read_opt_bytes(data, p13, MAX_SUBMISSION_URL_LEN as u32) {
        Some(p) => p,
        None => {
            return None;
        }
    };
    let (rejection_reason, p15) = match read_opt_bytes(data, p14, MAX_REASON_LEN as u32) {
        Some(p) => p,
        None => {
            return None;
        }
    };
    if p15 != data.len() {
        return None;
    }
    Some(
        Bounty {
            id,
            creator,
            title,
            description,
            requirements,
            reward,
            deadline,
            status,
            assigned_agent,
            created_at,
            submitted_at,
            completed_at,
            completion_data,
            submission_url,
            rejection_reason,
        },
    )
}

} // verus!
