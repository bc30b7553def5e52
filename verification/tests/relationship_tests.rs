use authcore::error::AuthError;
use authcore::relationship::{
    apply_relationship_action, transition, Party, RelationshipAction, RelationshipState,
};

// A and B start Unknown.  A follows B, then requests friendship.  A
// cannot accept its own request; B accepts and the pair are friends.  A
// then blocks B, discarding the friendship.
#[test]
fn follow_request_accept_block_scenario() {
    // A's view of the pair.
    let s0 = RelationshipState::Unknown;

    let s1 = transition(s0, RelationshipAction::Follow).unwrap();
    assert_eq!(s1, RelationshipState::Following(Party::Actor));

    let s2 = transition(s1, RelationshipAction::RequestFriend).unwrap();
    assert_eq!(s2, RelationshipState::Requested(Party::Actor));

    // The wrong party accepts: denied.
    assert_eq!(
        transition(s2, RelationshipAction::AcceptFriend),
        Err(AuthError::NotAllowed)
    );

    // B accepts, acting on B's view of the same stored state.
    let b_view = s2.flip();
    assert_eq!(b_view, RelationshipState::Requested(Party::Other));
    let s3_b = transition(b_view, RelationshipAction::AcceptFriend).unwrap();
    assert_eq!(s3_b, RelationshipState::Friends);

    // A blocks B, discarding the friendship.
    let s3_a = s3_b.flip();
    assert_eq!(s3_a, RelationshipState::Friends);
    let s4 = transition(s3_a, RelationshipAction::Block).unwrap();
    assert_eq!(s4, RelationshipState::Blocked(Party::Actor));
}

#[test]
fn blocked_party_can_do_nothing() {
    // The other party holds the block: every action is denied.
    let s = RelationshipState::Blocked(Party::Other);
    let actions = [
        RelationshipAction::Follow,
        RelationshipAction::Unfollow,
        RelationshipAction::RequestFriend,
        RelationshipAction::AcceptFriend,
        RelationshipAction::Unfriend,
        RelationshipAction::Block,
        RelationshipAction::Unblock,
    ];
    for a in actions {
        assert_eq!(transition(s, a), Err(AuthError::NotAllowed));
    }
}

#[test]
fn self_relationship_is_rejected() {
    let r = apply_relationship_action(
        &"a".to_string(),
        &"a".to_string(),
        RelationshipState::Unknown,
        RelationshipAction::Follow,
    );
    assert_eq!(r, Err(AuthError::NotAllowed));

    let ok = apply_relationship_action(
        &"a".to_string(),
        &"b".to_string(),
        RelationshipState::Unknown,
        RelationshipAction::Follow,
    );
    assert_eq!(ok, Ok(RelationshipState::Following(Party::Actor)));
}

#[test]
fn lone_request_never_yields_friends() {
    let states = [
        RelationshipState::Unknown,
        RelationshipState::Following(Party::Actor),
        RelationshipState::Following(Party::Other),
        RelationshipState::Requested(Party::Actor),
        RelationshipState::Requested(Party::Other),
        RelationshipState::Friends,
        RelationshipState::Blocked(Party::Actor),
        RelationshipState::Blocked(Party::Other),
    ];
    for s in states {
        assert_ne!(
            transition(s, RelationshipAction::RequestFriend),
            Ok(RelationshipState::Friends)
        );
    }
}

#[test]
fn unfollow_unfriend_unblock_revert_to_unknown() {
    assert_eq!(
        transition(
            RelationshipState::Following(Party::Actor),
            RelationshipAction::Unfollow
        ),
        Ok(RelationshipState::Unknown)
    );
    assert_eq!(
        transition(RelationshipState::Friends, RelationshipAction::Unfriend),
        Ok(RelationshipState::Unknown)
    );
    assert_eq!(
        transition(
            RelationshipState::Blocked(Party::Actor),
            RelationshipAction::Unblock
        ),
        Ok(RelationshipState::Unknown)
    );
    // Only the blocker can unblock.
    assert_eq!(
        transition(
            RelationshipState::Blocked(Party::Other),
            RelationshipAction::Unblock
        ),
        Err(AuthError::NotAllowed)
    );
    // A follower cannot unfollow a follow it does not hold.
    assert_eq!(
        transition(
            RelationshipState::Following(Party::Other),
            RelationshipAction::Unfollow
        ),
        Err(AuthError::NotAllowed)
    );
}

#[test]
fn follow_requires_unknown() {
    assert_eq!(
        transition(RelationshipState::Friends, RelationshipAction::Follow),
        Err(AuthError::NotAllowed)
    );
    assert_eq!(
        transition(
            RelationshipState::Following(Party::Actor),
            RelationshipAction::Follow
        ),
        Err(AuthError::NotAllowed)
    );
}

#[test]
fn request_allowed_from_own_follow() {
    assert_eq!(
        transition(
            RelationshipState::Following(Party::Actor),
            RelationshipAction::RequestFriend
        ),
        Ok(RelationshipState::Requested(Party::Actor))
    );
    // Not from only being followed.
    assert_eq!(
        transition(
            RelationshipState::Following(Party::Other),
            RelationshipAction::RequestFriend
        ),
        Err(AuthError::NotAllowed)
    );
}

#[test]
fn block_discards_any_state_but_a_standing_block() {
    let states = [
        RelationshipState::Unknown,
        RelationshipState::Following(Party::Other),
        RelationshipState::Requested(Party::Other),
        RelationshipState::Friends,
        RelationshipState::Blocked(Party::Actor),
    ];
    for s in states {
        assert_eq!(
            transition(s, RelationshipAction::Block),
            Ok(RelationshipState::Blocked(Party::Actor))
        );
    }
}
