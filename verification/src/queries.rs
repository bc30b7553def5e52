//! The request query shapes of the page and utility endpoints.
//!
//! These are plain data carriers: the surrounding request layer decodes
//! them from query strings and hands them to the handlers.

use vstd::prelude::*;

verus! {

/// Query of the external image proxy endpoint.
pub struct ExternalImageQuery {
    pub img: String,
}

/// Query of the language file endpoints.
pub struct LangFileQuery {
    pub id: String,
}

/// Query of a paginated listing.
pub struct PaginatedQuery {
    pub page: i32,
}

/// Query of the notifications listing.
pub struct NotificationsQuery {
    pub page: i32,
    pub profile: String,
}

/// Query of a content search.
pub struct SearchQuery {
    pub page: i32,
    pub q: String,
    pub tag: String,
}

/// Lifecycle status of a marketplace item.
#[derive(Clone, Copy, PartialEq, Eq, Structural, Debug)]
pub enum ItemStatus {
    Pending,
    Approved,
    Featured,
    Rejected,
}

impl Default for ItemStatus {
    /// A new item awaits review.
    fn default() -> (r: ItemStatus)
        ensures
            r == ItemStatus::Pending,
    {
        ItemStatus::Pending
    }
}

/// Kind of a marketplace item.
#[derive(Clone, Copy, PartialEq, Eq, Structural, Debug)]
pub enum ItemType {
    Text,
    UserTheme,
    Layout,
    Module,
}

/// Query of the marketplace listing.
pub struct MarketQuery {
    pub page: i32,
    pub q: String,
    pub status: ItemStatus,
    pub creator: String,
    pub customer: String,
    pub item_type: Option<ItemType>,
}

/// Query of the search landing page.
pub struct SearchHomeQuery {
    pub driver: i8,
}

/// Query of a profile page.
pub struct ProfileQuery {
    pub page: i32,
    pub tag: Option<String>,
    pub q: Option<String>,
    pub password: String,
}

/// Query carrying a password challenge.
pub struct PasswordQuery {
    pub password: String,
}

/// Query of the short reactions partial.
pub struct PartialReactionsProps {
    pub id: String,
}

} // verus!
