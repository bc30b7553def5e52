//! Per-session capability tiers.
//!
//! Each session token carries a capability context narrower than the
//! account's group permissions.  The tiers form a total order by
//! strictness, and a request must present a tier at least as strong as the
//! one its endpoint class requires.

use vstd::prelude::*;

verus! {

/// The capability tier recorded on a session token.
#[derive(Clone, Copy, PartialEq, Eq, Structural, Debug)]
pub enum TokenContext {
    ReadOnly,
    ManageProfile,
    ManageAccount,
    Moderator,
    Unrestricted,
}

impl TokenContext {
    /// Position of the tier in the total order; a larger value is a
    /// stronger tier.
    pub open spec fn strength(self) -> nat {
        match self {
            TokenContext::ReadOnly => 0,
            TokenContext::ManageProfile => 1,
            TokenContext::ManageAccount => 2,
            TokenContext::Moderator => 3,
            TokenContext::Unrestricted => 4,
        }
    }

    /// Whether this tier is at least as strong as `required`.
    pub open spec fn spec_can_do(self, required: TokenContext) -> bool {
        self.strength() >= required.strength()
    }

    /// Position of the tier in the total order, executably.
    pub fn rank(&self) -> (r: u8)
        ensures
            r == self.strength(),
    {
        match self {
            TokenContext::ReadOnly => 0,
            TokenContext::ManageProfile => 1,
            TokenContext::ManageAccount => 2,
            TokenContext::Moderator => 3,
            TokenContext::Unrestricted => 4,
        }
    }

    /// True iff the stored tier is at least as strong as `required` in the
    /// total order.
    pub fn can_do(&self, required: TokenContext) -> (r: bool)
        ensures
            r == self.spec_can_do(required),
    {
        self.rank() >= required.rank()
    }
}

impl Default for TokenContext {
    /// A session with no recorded context is treated as the weakest tier:
    /// deny until explicitly elevated.
    fn default() -> (r: TokenContext)
        ensures
            r == TokenContext::ReadOnly,
    {
        TokenContext::ReadOnly
    }
}

/// `can_do` is a monotonic "at least as strong" comparison: it is
/// reflexive, and a tier that satisfies a requirement also satisfies every
/// weaker requirement.
pub proof fn lemma_can_do_monotonic(t: TokenContext, a: TokenContext, b: TokenContext)
    requires
        t.spec_can_do(a),
        a.spec_can_do(b),
    ensures
        t.spec_can_do(b),
        t.spec_can_do(t),
{
}

/// No tier but `Unrestricted` satisfies an `Unrestricted` requirement, and
/// the default tier satisfies only a `ReadOnly` requirement: the default
/// never authorizes an elevated endpoint.
pub proof fn lemma_default_is_weakest(required: TokenContext)
    ensures
        TokenContext::ReadOnly.spec_can_do(required) <==> required == TokenContext::ReadOnly,
{
}

} // verus!
