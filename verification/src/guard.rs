//! The authorization decision function.
//!
//! Every mutating or sensitive operation against an account is decided
//! here, from the acting identity, its group permission set, the
//! capability context of the presented session token, and the target
//! identity with its group permission set.  The banned-group and
//! peer-protection rules are enforced once, for every operation category,
//! rather than per call site.

use vstd::prelude::*;
use crate::error::AuthError;
use crate::perm::{Capability, PermissionSet};
use crate::profile::{first_context, Profile};
use crate::token::TokenContext;

verus! {

/// The reserved group id that marks a banned or suspended account, and
/// the "no group" sentinel of a group change.
pub const GROUP_BANNED: i32 = -1;

/// A named, persisted permission set; accounts reference it by id.
#[derive(Clone, Copy, PartialEq, Eq, Structural, Debug)]
pub struct Group {
    pub id: i32,
    pub permissions: PermissionSet,
}

/// The operation category an incoming action selects.
///
/// The first block are self-service operations: an account editing its
/// own data.  Performed on someone else's account they fall through to
/// the elevated-operator rule.  The second block are elevated operations
/// only.
#[derive(Clone, Copy, PartialEq, Eq, Structural, Debug)]
pub enum Operation {
    EditPassword,
    EditUsername,
    EditMetadata,
    PatchMetadata,
    EditLinks,
    EditLayout,
    DeleteAccount,
    ChangeTier,
    ChangeGroup { new_group: i32 },
    ChangeCoins,
    UpdateTokens,
    GenerateToken,
    EditBadges,
    EditLabels,
}

/// The minimum session capability tier of the operation when performed on
/// the actor's own account, or `None` when the operation has no
/// self-service form.  Account-identity changes require `ManageAccount`;
/// cosmetic and profile-settings changes require `ManageProfile`.
pub open spec fn self_service_tier(op: Operation) -> Option<TokenContext> {
    match op {
        Operation::EditPassword => Some(TokenContext::ManageAccount),
        Operation::EditUsername => Some(TokenContext::ManageAccount),
        Operation::DeleteAccount => Some(TokenContext::ManageAccount),
        Operation::EditMetadata => Some(TokenContext::ManageProfile),
        Operation::PatchMetadata => Some(TokenContext::ManageProfile),
        Operation::EditLinks => Some(TokenContext::ManageProfile),
        Operation::EditLayout => Some(TokenContext::ManageProfile),
        Operation::ChangeTier => None,
        Operation::ChangeGroup { .. } => None,
        Operation::ChangeCoins => None,
        Operation::UpdateTokens => None,
        Operation::GenerateToken => None,
        Operation::EditBadges => None,
        Operation::EditLabels => None,
    }
}

/// The permission bit that authorizes the operation on someone else's
/// account, and whose presence on the target's own group protects the
/// target from the operation.
pub open spec fn elevated_bit(op: Operation) -> Capability {
    match op {
        Operation::EditPassword => Capability::EditUser,
        Operation::EditUsername => Capability::EditUser,
        Operation::DeleteAccount => Capability::DeleteUser,
        Operation::EditMetadata => Capability::ManageProfileSettings,
        Operation::PatchMetadata => Capability::ManageProfileSettings,
        Operation::EditLinks => Capability::ManageProfileSettings,
        Operation::EditLayout => Capability::ManageProfileSettings,
        Operation::ChangeTier => Capability::ManageProfileTier,
        Operation::ChangeGroup { .. } => Capability::ManageProfileGroup,
        Operation::ChangeCoins => Capability::EconMaster,
        Operation::UpdateTokens => Capability::EditUser,
        Operation::GenerateToken => Capability::EditUser,
        Operation::EditBadges => Capability::ManageProfileSettings,
        Operation::EditLabels => Capability::ManageProfileSettings,
    }
}

/// The elevated-operator rule: the session must hold at least the
/// `Moderator` tier, the actor's group must hold the operation's bit, and
/// the target's group must not hold it (no peer-or-escalated moderation).
/// Moving the target to a new group that is not the "no group" sentinel
/// additionally needs the distinct `PromoteUsers` bit.
pub open spec fn spec_elevated_allows(
    op: Operation,
    ctx: TokenContext,
    acting_perms: PermissionSet,
    target_perms: PermissionSet,
) -> bool {
    &&& ctx.spec_can_do(TokenContext::Moderator)
    &&& acting_perms.spec_check(elevated_bit(op))
    &&& !target_perms.spec_check(elevated_bit(op))
    &&& match op {
        Operation::ChangeGroup { new_group } => new_group == GROUP_BANNED
            || acting_perms.spec_check(Capability::PromoteUsers),
        _ => true,
    }
}

/// The whole decision: a banned acting group never passes; an operation
/// on the actor's own account needs the operation's self-service tier; an
/// operation on someone else's account (or one with no self-service form)
/// needs the elevated-operator rule.
pub open spec fn spec_allows(
    op: Operation,
    acting_id: Seq<char>,
    acting_group: i32,
    acting_perms: PermissionSet,
    ctx: TokenContext,
    target_id: Seq<char>,
    target_perms: PermissionSet,
) -> bool {
    &&& acting_group != GROUP_BANNED
    &&& if acting_id == target_id {
        match self_service_tier(op) {
            Some(tier) => ctx.spec_can_do(tier),
            None => spec_elevated_allows(op, ctx, acting_perms, target_perms),
        }
    } else {
        spec_elevated_allows(op, ctx, acting_perms, target_perms)
    }
}

/// Evaluates the decision over already-resolved inputs.  The verdict is
/// allow exactly when [`spec_allows`] holds; every denial is the uniform
/// `NotAllowed`, whichever sub-check failed.
pub fn evaluate(
    op: Operation,
    acting_id: &String,
    acting_group: i32,
    acting_perms: &PermissionSet,
    ctx: TokenContext,
    target_id: &String,
    target_perms: &PermissionSet,
) -> (r: Result<(), AuthError>)
    ensures
        r == (if spec_allows(
            op,
            acting_id@,
            acting_group,
            *acting_perms,
            ctx,
            target_id@,
            *target_perms,
        ) {
            Ok::<(), AuthError>(())
        } else {
            Err::<(), AuthError>(AuthError::NotAllowed)
        }),
{
    if acting_group == GROUP_BANNED {
        return Err(AuthError::NotAllowed);
    }
    let is_self = *acting_id == *target_id;
    let allowed = if is_self {
        match exec_self_service_tier(op) {
            Some(tier) => ctx.can_do(tier),
            None => elevated_allows(op, ctx, acting_perms, target_perms),
        }
    } else {
        elevated_allows(op, ctx, acting_perms, target_perms)
    };
    if allowed {
        Ok(())
    } else {
        Err(AuthError::NotAllowed)
    }
}

/// The elevated-operator rule, executably.
fn elevated_allows(
    op: Operation,
    ctx: TokenContext,
    acting_perms: &PermissionSet,
    target_perms: &PermissionSet,
) -> (r: bool)
    ensures
        r == spec_elevated_allows(op, ctx, *acting_perms, *target_perms),
{
    let bit = exec_elevated_bit(op);
    ctx.can_do(TokenContext::Moderator) && acting_perms.check(bit) && !target_perms.check(bit)
        && match op {
        Operation::ChangeGroup { new_group } => new_group == GROUP_BANNED || acting_perms.check(
            Capability::PromoteUsers,
        ),
        _ => true,
    }
}

/// The self-service tier of the operation, executably.
fn exec_self_service_tier(op: Operation) -> (r: Option<TokenContext>)
    ensures
        r == self_service_tier(op),
{
    match op {
        Operation::EditPassword => Some(TokenContext::ManageAccount),
        Operation::EditUsername => Some(TokenContext::ManageAccount),
        Operation::DeleteAccount => Some(TokenContext::ManageAccount),
        Operation::EditMetadata => Some(TokenContext::ManageProfile),
        Operation::PatchMetadata => Some(TokenContext::ManageProfile),
        Operation::EditLinks => Some(TokenContext::ManageProfile),
        Operation::EditLayout => Some(TokenContext::ManageProfile),
        _ => None,
    }
}

/// The authorizing bit of the operation, executably.
fn exec_elevated_bit(op: Operation) -> (r: Capability)
    ensures
        r == elevated_bit(op),
{
    match op {
        Operation::EditPassword => Capability::EditUser,
        Operation::EditUsername => Capability::EditUser,
        Operation::DeleteAccount => Capability::DeleteUser,
        Operation::EditMetadata => Capability::ManageProfileSettings,
        Operation::PatchMetadata => Capability::ManageProfileSettings,
        Operation::EditLinks => Capability::ManageProfileSettings,
        Operation::EditLayout => Capability::ManageProfileSettings,
        Operation::ChangeTier => Capability::ManageProfileTier,
        Operation::ChangeGroup { .. } => Capability::ManageProfileGroup,
        Operation::ChangeCoins => Capability::EconMaster,
        Operation::UpdateTokens => Capability::EditUser,
        Operation::GenerateToken => Capability::EditUser,
        Operation::EditBadges => Capability::ManageProfileSettings,
        Operation::EditLabels => Capability::ManageProfileSettings,
    }
}

/// The guard over unresolved inputs: the decision of [`evaluate`]
/// preceded by session resolution and the fail-closed treatment of group
/// lookups.
pub open spec fn spec_authorize(
    op: Operation,
    acting: Profile,
    token: Seq<char>,
    acting_group: Option<Group>,
    target: Profile,
    target_group: Option<Group>,
) -> Result<(), AuthError> {
    match first_context(acting.sessions_view(), token) {
        None => Err(AuthError::NotFound),
        Some(ctx) => match (acting_group, target_group) {
            (Some(ag), Some(tg)) => if ag.id != acting.group || tg.id != target.group {
                Err(AuthError::Other)
            } else if spec_allows(
                op,
                acting.id@,
                acting.group,
                ag.permissions,
                ctx,
                target.id@,
                tg.permissions,
            ) {
                Ok(())
            } else {
                Err(AuthError::NotAllowed)
            },
            _ => Err(AuthError::Other),
        },
    }
}

/// Produces the verdict for one incoming action.
///
/// A presented token that matches no session of the acting profile is
/// unauthenticated: `NotFound`.  A group that could not be loaded, or a
/// loaded group row whose id does not match the profile's reference, is a
/// failed dependency: `Other`, never "no permissions" — the decision is
/// never made on missing data.  Otherwise the verdict is [`evaluate`]'s,
/// under the capability context of the matched session.
pub fn authorize(
    op: Operation,
    acting: &Profile,
    token: &String,
    acting_group: &Option<Group>,
    target: &Profile,
    target_group: &Option<Group>,
) -> (r: Result<(), AuthError>)
    ensures
        r == spec_authorize(op, *acting, token@, *acting_group, *target, *target_group),
{
    let ctx = match acting.token_context_from_token(token) {
        Some(c) => c,
        None => {
            return Err(AuthError::NotFound);
        },
    };
    let (ag, tg) = match (acting_group, target_group) {
        (Some(ag), Some(tg)) => (ag, tg),
        _ => {
            return Err(AuthError::Other);
        },
    };
    if ag.id != acting.group || tg.id != target.group {
        return Err(AuthError::Other);
    }
    evaluate(op, &acting.id, acting.group, &ag.permissions, ctx, &target.id, &tg.permissions)
}

/// A banned acting group (the reserved id) never passes any self-service
/// or elevated check, for any operation, tier or payload.
pub proof fn lemma_banned_group_never_allowed(
    op: Operation,
    acting_id: Seq<char>,
    acting_perms: PermissionSet,
    ctx: TokenContext,
    target_id: Seq<char>,
    target_perms: PermissionSet,
)
    ensures
        !spec_allows(op, acting_id, GROUP_BANNED, acting_perms, ctx, target_id, target_perms),
{
}

/// Peer protection: when the target's group already holds the bit that
/// authorizes the operation, the elevated operation is denied, even if
/// the actor's own bit is present and the session tier suffices.
pub proof fn lemma_peer_protection(
    op: Operation,
    acting_id: Seq<char>,
    acting_group: i32,
    acting_perms: PermissionSet,
    ctx: TokenContext,
    target_id: Seq<char>,
    target_perms: PermissionSet,
)
    requires
        target_perms.spec_check(elevated_bit(op)),
        self_service_tier(op) is None || acting_id != target_id,
    ensures
        !spec_allows(op, acting_id, acting_group, acting_perms, ctx, target_id, target_perms),
{
}

/// An operation with no self-service form is never allowed on the actor's
/// own account: with one group on both sides, holding the authorizing bit
/// triggers peer protection, and lacking it fails the actor's own check.
pub proof fn lemma_no_self_elevation(
    op: Operation,
    id: Seq<char>,
    group: i32,
    perms: PermissionSet,
    ctx: TokenContext,
)
    requires
        self_service_tier(op) is None,
    ensures
        !spec_allows(op, id, group, perms, ctx, id, perms),
{
}

} // verus!
