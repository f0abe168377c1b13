use vstd::prelude::*;

use crate::types::{copy_string, Challenge, VerificationEvent, Vote, VoteType};

verus! {

/// Delay before a node answers a challenge, in seconds.
pub const VOTE_DELAY_SECS: u64 = 1;

/// The vote that `voter_id` casts on `challenge`: always `Valid`, for the
/// challenged session.
pub open spec fn vote_on(challenge: Challenge, voter_id: String) -> VerificationEvent {
    VerificationEvent::VoteCast(
        Vote { session_id: challenge.target_session_id, voter_id, vote: VoteType::Valid },
    )
}

/// What a node answers to a verification event: a vote on a challenge,
/// nothing to a vote or a slashing.
pub open spec fn verification_response(
    event: VerificationEvent,
    voter_id: String,
) -> Option<VerificationEvent> {
    match event {
        VerificationEvent::ChallengeIssued(c) => Some(vote_on(c, voter_id)),
        _ => None,
    }
}

pub fn cast_vote(challenge: &Challenge, voter_id: &String) -> (r: VerificationEvent)
    ensures
        r == vote_on(*challenge, *voter_id),
{
    VerificationEvent::VoteCast(
        Vote {
            session_id: copy_string(&challenge.target_session_id),
            voter_id: copy_string(voter_id),
            vote: VoteType::Valid,
        },
    )
}

pub fn respond_to_verification(event: &VerificationEvent, voter_id: &String) -> (r: Option<
    VerificationEvent,
>)
    ensures
        r == verification_response(*event, *voter_id),
{
    match event {
        VerificationEvent::ChallengeIssued(c) => Some(cast_vote(c, voter_id)),
        _ => None,
    }
}

/// Each challenge gets exactly one answer from a node: a `Valid` vote by that
/// node on the challenged session.
pub proof fn lemma_one_valid_vote_per_challenge(challenge: Challenge, voter_id: String)
    ensures
        verification_response(VerificationEvent::ChallengeIssued(challenge), voter_id)
            matches Some(VerificationEvent::VoteCast(v)) && v.vote == VoteType::Valid
            && v.session_id == challenge.target_session_id && v.voter_id == voter_id,
        forall|e: VerificationEvent|
            verification_response(e, voter_id) is Some <==> e is ChallengeIssued,
{
}

} // verus!
