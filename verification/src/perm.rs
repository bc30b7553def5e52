//! Named permission bits and the group permission set.
//!
//! Each account belongs to a group; each group carries a set of named
//! permission bits.  `Administrator` is an override: evaluation treats an
//! administrator set as holding every capability, whether or not the other
//! bits are stored.

use vstd::prelude::*;

verus! {

/// A named capability from the fixed vocabulary of permission bits.
#[derive(Clone, Copy, PartialEq, Eq, Structural, Debug)]
pub enum Capability {
    ManageProfileTier,
    ManageProfileGroup,
    EconMaster,
    EditUser,
    DeleteUser,
    Administrator,
    PromoteUsers,
    ManageProfileSettings,
    BanIp,
    ViewReports,
    ViewAuditLog,
}

/// A set of named boolean capabilities held by a group.
#[derive(Clone, Copy, PartialEq, Eq, Structural, Debug)]
pub struct PermissionSet {
    pub manage_profile_tier: bool,
    pub manage_profile_group: bool,
    pub econ_master: bool,
    pub edit_user: bool,
    pub delete_user: bool,
    pub administrator: bool,
    pub promote_users: bool,
    pub manage_profile_settings: bool,
    pub ban_ip: bool,
    pub view_reports: bool,
    pub view_audit_log: bool,
}

impl PermissionSet {
    /// Whether the named bit is stored in the set, with no override applied.
    pub open spec fn has(self, c: Capability) -> bool {
        match c {
            Capability::ManageProfileTier => self.manage_profile_tier,
            Capability::ManageProfileGroup => self.manage_profile_group,
            Capability::EconMaster => self.econ_master,
            Capability::EditUser => self.edit_user,
            Capability::DeleteUser => self.delete_user,
            Capability::Administrator => self.administrator,
            Capability::PromoteUsers => self.promote_users,
            Capability::ManageProfileSettings => self.manage_profile_settings,
            Capability::BanIp => self.ban_ip,
            Capability::ViewReports => self.view_reports,
            Capability::ViewAuditLog => self.view_audit_log,
        }
    }

    /// Evaluation of a capability query: an administrator set passes every
    /// query, any other set passes exactly the queries whose bit it stores.
    pub open spec fn spec_check(self, c: Capability) -> bool {
        self.administrator || self.has(c)
    }

    /// The "manager tier" bundle: bits that authorize acting on another
    /// account or on group membership.
    pub open spec fn spec_is_manager(self) -> bool {
        ||| self.spec_check(Capability::EditUser)
        ||| self.spec_check(Capability::DeleteUser)
        ||| self.spec_check(Capability::ManageProfileTier)
        ||| self.spec_check(Capability::ManageProfileGroup)
        ||| self.spec_check(Capability::PromoteUsers)
        ||| self.spec_check(Capability::EconMaster)
    }

    /// The "helper tier" bundle: every manager bit plus the staff read and
    /// moderation bits.
    pub open spec fn spec_is_helper(self) -> bool {
        ||| self.spec_is_manager()
        ||| self.spec_check(Capability::ManageProfileSettings)
        ||| self.spec_check(Capability::BanIp)
        ||| self.spec_check(Capability::ViewReports)
        ||| self.spec_check(Capability::ViewAuditLog)
    }

    /// The set with no bit stored.
    pub fn empty() -> (r: PermissionSet)
        ensures
            forall|c: Capability| !r.has(c),
            forall|c: Capability| !r.spec_check(c),
    {
        PermissionSet {
            manage_profile_tier: false,
            manage_profile_group: false,
            econ_master: false,
            edit_user: false,
            delete_user: false,
            administrator: false,
            promote_users: false,
            manage_profile_settings: false,
            ban_ip: false,
            view_reports: false,
            view_audit_log: false,
        }
    }

    /// A copy of the set with the named bit stored.
    pub fn with(self, c: Capability) -> (r: PermissionSet)
        ensures
            r.has(c),
            r.spec_check(c),
            forall|o: Capability| o != c ==> r.has(o) == self.has(o),
            c != Capability::Administrator ==> forall|o: Capability|
                o != c ==> r.spec_check(o) == self.spec_check(o),
    {
        let mut r = self;
        match c {
            Capability::ManageProfileTier => r.manage_profile_tier = true,
            Capability::ManageProfileGroup => r.manage_profile_group = true,
            Capability::EconMaster => r.econ_master = true,
            Capability::EditUser => r.edit_user = true,
            Capability::DeleteUser => r.delete_user = true,
            Capability::Administrator => r.administrator = true,
            Capability::PromoteUsers => r.promote_users = true,
            Capability::ManageProfileSettings => r.manage_profile_settings = true,
            Capability::BanIp => r.ban_ip = true,
            Capability::ViewReports => r.view_reports = true,
            Capability::ViewAuditLog => r.view_audit_log = true,
        }
        r
    }

    /// True if `Administrator` is present, else true if the specific named
    /// bit is present.
    pub fn check(&self, c: Capability) -> (r: bool)
        ensures
            r == self.spec_check(c),
    {
        if self.administrator {
            return true;
        }
        match c {
            Capability::ManageProfileTier => self.manage_profile_tier,
            Capability::ManageProfileGroup => self.manage_profile_group,
            Capability::EconMaster => self.econ_master,
            Capability::EditUser => self.edit_user,
            Capability::DeleteUser => self.delete_user,
            Capability::Administrator => self.administrator,
            Capability::PromoteUsers => self.promote_users,
            Capability::ManageProfileSettings => self.manage_profile_settings,
            Capability::BanIp => self.ban_ip,
            Capability::ViewReports => self.view_reports,
            Capability::ViewAuditLog => self.view_audit_log,
        }
    }

    /// True if the set contains any bit of the helper tier bundle, or
    /// `Administrator`.
    pub fn check_helper(&self) -> (r: bool)
        ensures
            r == self.spec_is_helper(),
    {
        self.check_manager() || self.check(Capability::ManageProfileSettings) || self.check(
            Capability::BanIp,
        ) || self.check(Capability::ViewReports) || self.check(Capability::ViewAuditLog)
    }

    /// True if the set contains any bit of the manager tier bundle, or
    /// `Administrator`.
    pub fn check_manager(&self) -> (r: bool)
        ensures
            r == self.spec_is_manager(),
    {
        self.check(Capability::EditUser) || self.check(Capability::DeleteUser) || self.check(
            Capability::ManageProfileTier,
        ) || self.check(Capability::ManageProfileGroup) || self.check(Capability::PromoteUsers)
            || self.check(Capability::EconMaster)
    }
}

/// A set holding `Administrator` passes every capability query: evaluation
/// special-cases the override, so no individual bit needs to be stored.
pub proof fn lemma_administrator_grants_all(ps: PermissionSet, c: Capability)
    requires
        ps.spec_check(Capability::Administrator),
    ensures
        ps.spec_check(c),
{
}

/// Every manager set is also a helper set: the manager bundle is contained
/// in the helper bundle.
pub proof fn lemma_manager_is_helper(ps: PermissionSet)
    requires
        ps.spec_is_manager(),
    ensures
        ps.spec_is_helper(),
{
}

} // verus!
