use authcore::error::AuthError;
use authcore::guard::{authorize, evaluate, Group, Operation, GROUP_BANNED};
use authcore::perm::{Capability, PermissionSet};
use authcore::profile::{Profile, SessionRecord};
use authcore::token::TokenContext;

fn profile(id: &str, group: i32, sessions: Vec<SessionRecord>) -> Profile {
    Profile {
        id: id.to_string(),
        username: id.to_string(),
        group,
        sessions,
    }
}

fn session(token: &str, context: TokenContext) -> SessionRecord {
    SessionRecord {
        token: token.to_string(),
        ip: "10.0.0.1".to_string(),
        context,
    }
}

#[test]
fn administrator_passes_every_capability() {
    let admin = PermissionSet::empty().with(Capability::Administrator);
    let caps = [
        Capability::ManageProfileTier,
        Capability::ManageProfileGroup,
        Capability::EconMaster,
        Capability::EditUser,
        Capability::DeleteUser,
        Capability::Administrator,
        Capability::PromoteUsers,
        Capability::ManageProfileSettings,
        Capability::BanIp,
        Capability::ViewReports,
        Capability::ViewAuditLog,
    ];
    for c in caps {
        assert!(admin.check(c));
    }
    assert!(admin.check_helper());
    assert!(admin.check_manager());
}

#[test]
fn empty_set_passes_nothing() {
    let none = PermissionSet::empty();
    assert!(!none.check(Capability::EditUser));
    assert!(!none.check_helper());
    assert!(!none.check_manager());
}

#[test]
fn banned_group_denies_self_service() {
    let perms = PermissionSet::empty().with(Capability::Administrator);
    let r = evaluate(
        Operation::EditPassword,
        &"a".to_string(),
        GROUP_BANNED,
        &perms,
        TokenContext::Unrestricted,
        &"a".to_string(),
        &perms,
    );
    assert_eq!(r, Err(AuthError::NotAllowed));
}

#[test]
fn banned_group_denies_elevated() {
    let perms = PermissionSet::empty().with(Capability::Administrator);
    let r = evaluate(
        Operation::ChangeTier,
        &"a".to_string(),
        GROUP_BANNED,
        &perms,
        TokenContext::Unrestricted,
        &"b".to_string(),
        &PermissionSet::empty(),
    );
    assert_eq!(r, Err(AuthError::NotAllowed));
}

// Group 5 holds EditUser; group 9 holds EditUser and Administrator.  The
// actor in group 5 tries to rewrite the tokens of a target in group 9:
// denied, because the target's set already passes the EditUser query
// through the Administrator override.
#[test]
fn peer_protection_scenario() {
    let group5 = Group {
        id: 5,
        permissions: PermissionSet::empty().with(Capability::EditUser),
    };
    let group9 = Group {
        id: 9,
        permissions: PermissionSet::empty()
            .with(Capability::EditUser)
            .with(Capability::Administrator),
    };
    let acting = profile("actor", 5, vec![session("t-actor", TokenContext::Moderator)]);
    let target = profile("victim", 9, vec![]);

    let r = authorize(
        Operation::UpdateTokens,
        &acting,
        &"t-actor".to_string(),
        &Some(group5),
        &target,
        &Some(group9),
    );
    assert_eq!(r, Err(AuthError::NotAllowed));

    // The same operation against a target without the bit is allowed.
    let group7 = Group {
        id: 7,
        permissions: PermissionSet::empty(),
    };
    let plain_target = profile("plain", 7, vec![]);
    let r = authorize(
        Operation::UpdateTokens,
        &acting,
        &"t-actor".to_string(),
        &Some(group5),
        &plain_target,
        &Some(group7),
    );
    assert_eq!(r, Ok(()));
}

#[test]
fn self_service_tier_is_enforced() {
    let perms = PermissionSet::empty();
    // Editing one's own metadata needs the ManageProfile tier.
    let ok = evaluate(
        Operation::EditMetadata,
        &"a".to_string(),
        1,
        &perms,
        TokenContext::ManageProfile,
        &"a".to_string(),
        &perms,
    );
    assert_eq!(ok, Ok(()));
    // A read-only session may not edit the password.
    let denied = evaluate(
        Operation::EditPassword,
        &"a".to_string(),
        1,
        &perms,
        TokenContext::ReadOnly,
        &"a".to_string(),
        &perms,
    );
    assert_eq!(denied, Err(AuthError::NotAllowed));
    // A ManageAccount session may.
    let ok = evaluate(
        Operation::EditPassword,
        &"a".to_string(),
        1,
        &perms,
        TokenContext::ManageAccount,
        &"a".to_string(),
        &perms,
    );
    assert_eq!(ok, Ok(()));
}

#[test]
fn elevated_operation_needs_moderator_tier() {
    let acting_perms = PermissionSet::empty().with(Capability::ManageProfileTier);
    let target_perms = PermissionSet::empty();
    let denied = evaluate(
        Operation::ChangeTier,
        &"a".to_string(),
        1,
        &acting_perms,
        TokenContext::ManageAccount,
        &"b".to_string(),
        &target_perms,
    );
    assert_eq!(denied, Err(AuthError::NotAllowed));
    let ok = evaluate(
        Operation::ChangeTier,
        &"a".to_string(),
        1,
        &acting_perms,
        TokenContext::Moderator,
        &"b".to_string(),
        &target_perms,
    );
    assert_eq!(ok, Ok(()));
}

#[test]
fn promotion_needs_distinct_bit() {
    let base = PermissionSet::empty().with(Capability::ManageProfileGroup);
    let target_perms = PermissionSet::empty();
    // Moving the target into a real group without PromoteUsers: denied.
    let denied = evaluate(
        Operation::ChangeGroup { new_group: 3 },
        &"a".to_string(),
        1,
        &base,
        TokenContext::Moderator,
        &"b".to_string(),
        &target_perms,
    );
    assert_eq!(denied, Err(AuthError::NotAllowed));
    // Moving the target to the "no group" sentinel needs no promotion bit.
    let ok = evaluate(
        Operation::ChangeGroup { new_group: -1 },
        &"a".to_string(),
        1,
        &base,
        TokenContext::Moderator,
        &"b".to_string(),
        &target_perms,
    );
    assert_eq!(ok, Ok(()));
    // With PromoteUsers the upward move is allowed.
    let promoter = base.with(Capability::PromoteUsers);
    let ok = evaluate(
        Operation::ChangeGroup { new_group: 3 },
        &"a".to_string(),
        1,
        &promoter,
        TokenContext::Moderator,
        &"b".to_string(),
        &target_perms,
    );
    assert_eq!(ok, Ok(()));
}

#[test]
fn unknown_token_is_not_found() {
    let acting = profile("a", 1, vec![session("t1", TokenContext::Unrestricted)]);
    let target = profile("b", 1, vec![]);
    let g = Group {
        id: 1,
        permissions: PermissionSet::empty(),
    };
    let r = authorize(
        Operation::EditMetadata,
        &acting,
        &"missing".to_string(),
        &Some(g),
        &target,
        &Some(g),
    );
    assert_eq!(r, Err(AuthError::NotFound));
}

#[test]
fn missing_group_is_a_failed_dependency() {
    let acting = profile("a", 1, vec![session("t1", TokenContext::Unrestricted)]);
    let target = profile("b", 2, vec![]);
    let g = Group {
        id: 1,
        permissions: PermissionSet::empty(),
    };
    let r = authorize(
        Operation::EditMetadata,
        &acting,
        &"t1".to_string(),
        &Some(g),
        &target,
        &None,
    );
    assert_eq!(r, Err(AuthError::Other));

    // A loaded group row whose id does not match the profile's reference
    // is equally a failed dependency.
    let wrong = Group {
        id: 9,
        permissions: PermissionSet::empty(),
    };
    let r = authorize(
        Operation::EditMetadata,
        &acting,
        &"t1".to_string(),
        &Some(g),
        &target,
        &Some(wrong),
    );
    assert_eq!(r, Err(AuthError::Other));
}

#[test]
fn error_messages_are_uniform() {
    assert_eq!(AuthError::NotAllowed.message(), "not allowed");
    assert_eq!(AuthError::NotFound.message(), "not found");
    assert_eq!(AuthError::Other.message(), "internal error");
}
