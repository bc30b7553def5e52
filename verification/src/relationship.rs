//! The pairwise relationship state machine.
//!
//! An unordered pair of accounts has exactly one current state.  Actions
//! are directional, so the state is always handled as seen from the party
//! performing the action (the actor); [`RelationshipState::flip`] converts
//! between the two parties' views of the same stored state.
//!
//! `Blocked` is a trump state: while the other party has the actor
//! blocked, every state-changing action by the actor fails, and the
//! failure is reported, never silently ignored.

use vstd::prelude::*;
use crate::error::AuthError;

verus! {

/// The party a directional edge originates at, in the current view.
#[derive(Clone, Copy, PartialEq, Eq, Structural, Debug)]
pub enum Party {
    /// The account performing the action under consideration.
    Actor,
    /// The other account of the pair.
    Other,
}

impl Party {
    /// The same edge seen from the other side.
    pub open spec fn spec_opposite(self) -> Party {
        match self {
            Party::Actor => Party::Other,
            Party::Other => Party::Actor,
        }
    }

    /// The same edge seen from the other side, executably.
    pub fn opposite(&self) -> (r: Party)
        ensures
            r == self.spec_opposite(),
    {
        match self {
            Party::Actor => Party::Other,
            Party::Other => Party::Actor,
        }
    }
}

/// The single current status of an account pair, as seen by the actor.
#[derive(Clone, Copy, PartialEq, Eq, Structural, Debug)]
pub enum RelationshipState {
    /// No relationship row exists.
    Unknown,
    /// One party follows the other; the payload is the follower.
    Following(Party),
    /// A friend request is pending; the payload is the requester.
    Requested(Party),
    /// Both parties expressed mutual intent.
    Friends,
    /// One party blocked the other; the payload is the blocker.
    Blocked(Party),
}

impl RelationshipState {
    /// The same stored state as seen by the other party of the pair.
    pub open spec fn spec_flip(self) -> RelationshipState {
        match self {
            RelationshipState::Unknown => RelationshipState::Unknown,
            RelationshipState::Following(p) => RelationshipState::Following(p.spec_opposite()),
            RelationshipState::Requested(p) => RelationshipState::Requested(p.spec_opposite()),
            RelationshipState::Friends => RelationshipState::Friends,
            RelationshipState::Blocked(p) => RelationshipState::Blocked(p.spec_opposite()),
        }
    }

    /// The same stored state as seen by the other party, executably.
    pub fn flip(&self) -> (r: RelationshipState)
        ensures
            r == self.spec_flip(),
    {
        match self {
            RelationshipState::Unknown => RelationshipState::Unknown,
            RelationshipState::Following(p) => RelationshipState::Following(p.opposite()),
            RelationshipState::Requested(p) => RelationshipState::Requested(p.opposite()),
            RelationshipState::Friends => RelationshipState::Friends,
            RelationshipState::Blocked(p) => RelationshipState::Blocked(p.opposite()),
        }
    }
}

/// A directional action one party performs toward the other.
#[derive(Clone, Copy, PartialEq, Eq, Structural, Debug)]
pub enum RelationshipAction {
    Follow,
    Unfollow,
    RequestFriend,
    AcceptFriend,
    Unfriend,
    Block,
    Unblock,
}

/// The transition table, as seen by the actor.
///
/// Every precondition failure is the uniform `NotAllowed`; in particular
/// a pending `Blocked(Other)` fails every action until the blocker
/// unblocks.  `Friends` is reached only by `AcceptFriend` on a request
/// pending from the other party, never by a lone request.
pub open spec fn spec_transition(s: RelationshipState, a: RelationshipAction) -> Result<
    RelationshipState,
    AuthError,
> {
    match a {
        RelationshipAction::Follow => if s == RelationshipState::Unknown {
            Ok(RelationshipState::Following(Party::Actor))
        } else {
            Err(AuthError::NotAllowed)
        },
        RelationshipAction::Unfollow => if s == RelationshipState::Following(Party::Actor) {
            Ok(RelationshipState::Unknown)
        } else {
            Err(AuthError::NotAllowed)
        },
        RelationshipAction::RequestFriend => if s == RelationshipState::Unknown || s
            == RelationshipState::Following(Party::Actor) {
            Ok(RelationshipState::Requested(Party::Actor))
        } else {
            Err(AuthError::NotAllowed)
        },
        RelationshipAction::AcceptFriend => if s == RelationshipState::Requested(Party::Other) {
            Ok(RelationshipState::Friends)
        } else {
            Err(AuthError::NotAllowed)
        },
        RelationshipAction::Unfriend => if s == RelationshipState::Friends {
            Ok(RelationshipState::Unknown)
        } else {
            Err(AuthError::NotAllowed)
        },
        RelationshipAction::Block => if s == RelationshipState::Blocked(Party::Other) {
            Err(AuthError::NotAllowed)
        } else {
            Ok(RelationshipState::Blocked(Party::Actor))
        },
        RelationshipAction::Unblock => if s == RelationshipState::Blocked(Party::Actor) {
            Ok(RelationshipState::Unknown)
        } else {
            Err(AuthError::NotAllowed)
        },
    }
}

/// Applies one directional action to the current state of the pair, as
/// seen by the actor, and returns the new state as seen by the actor.
pub fn transition(s: RelationshipState, a: RelationshipAction) -> (r: Result<
    RelationshipState,
    AuthError,
>)
    ensures
        r == spec_transition(s, a),
{
    match a {
        RelationshipAction::Follow => if s == RelationshipState::Unknown {
            Ok(RelationshipState::Following(Party::Actor))
        } else {
            Err(AuthError::NotAllowed)
        },
        RelationshipAction::Unfollow => if s == RelationshipState::Following(Party::Actor) {
            Ok(RelationshipState::Unknown)
        } else {
            Err(AuthError::NotAllowed)
        },
        RelationshipAction::RequestFriend => if s == RelationshipState::Unknown || s
            == RelationshipState::Following(Party::Actor) {
            Ok(RelationshipState::Requested(Party::Actor))
        } else {
            Err(AuthError::NotAllowed)
        },
        RelationshipAction::AcceptFriend => if s == RelationshipState::Requested(Party::Other) {
            Ok(RelationshipState::Friends)
        } else {
            Err(AuthError::NotAllowed)
        },
        RelationshipAction::Unfriend => if s == RelationshipState::Friends {
            Ok(RelationshipState::Unknown)
        } else {
            Err(AuthError::NotAllowed)
        },
        RelationshipAction::Block => if s == RelationshipState::Blocked(Party::Other) {
            Err(AuthError::NotAllowed)
        } else {
            Ok(RelationshipState::Blocked(Party::Actor))
        },
        RelationshipAction::Unblock => if s == RelationshipState::Blocked(Party::Actor) {
            Ok(RelationshipState::Unknown)
        } else {
            Err(AuthError::NotAllowed)
        },
    }
}

/// Applies one action at the identity level: a self-relationship is always
/// rejected as an invalid action, independent of stored state.
pub fn apply_relationship_action(
    actor_id: &String,
    other_id: &String,
    s: RelationshipState,
    a: RelationshipAction,
) -> (r: Result<RelationshipState, AuthError>)
    ensures
        actor_id@ == other_id@ ==> r == Err::<RelationshipState, AuthError>(AuthError::NotAllowed),
        actor_id@ != other_id@ ==> r == spec_transition(s, a),
{
    if *actor_id == *other_id {
        return Err(AuthError::NotAllowed);
    }
    transition(s, a)
}

/// Block is a trump state: while the other party has the actor blocked,
/// every state-changing action by the actor fails as not-allowed.
pub proof fn lemma_block_is_trump(a: RelationshipAction)
    ensures
        spec_transition(RelationshipState::Blocked(Party::Other), a) == Err::<
            RelationshipState,
            AuthError,
        >(AuthError::NotAllowed),
{
}

/// Friend acceptance is two-phase: a lone request never yields `Friends`;
/// the only transition into `Friends` is an accept by the party the
/// pending request was addressed to.
pub proof fn lemma_friendship_two_phase(s: RelationshipState, a: RelationshipAction)
    ensures
        spec_transition(s, RelationshipAction::RequestFriend) != Ok::<
            RelationshipState,
            AuthError,
        >(RelationshipState::Friends),
        spec_transition(s, a) == Ok::<RelationshipState, AuthError>(RelationshipState::Friends)
            ==> a == RelationshipAction::AcceptFriend && s == RelationshipState::Requested(
            Party::Other,
        ),
{
}

/// Viewing a state from one side and back is the identity: the two
/// parties' views describe the same stored fact.
pub proof fn lemma_flip_involution(s: RelationshipState)
    ensures
        s.spec_flip().spec_flip() == s,
{
}

} // verus!
