//! Creator subscription catalogs and per-user subscription records.
//!
//! Creators register a catalog of paid plans; users buy thirty days of
//! access to one plan by paying its exact price to the creator's payee; a
//! user's record drops expired entries before every read.
use vstd::prelude::*;

pub mod codec;
pub mod creator;
pub mod error;
pub mod pubkey;
pub mod purchase;
pub mod user;

pub use codec::{decode_base64_url, encode_base64_url};
pub use creator::{create_creator_account, CreateCreatorAccount, CreatorAccount};
pub use error::Error;
pub use pubkey::Pubkey;
pub use purchase::{purchase_subscription, record_subscription, PurchaseSubscription, Transfer};
pub use user::{
    create_user_account, get_subscription_link, log_user_subscriptions,
    remove_unvalid_subscriptions, CreateUserAccount, GetSubscriptionLink, ListedSubscription,
    LogUserSubscriptions, SubscriptionEntry, UserAccount, count_live,
};

verus! {

/// Seconds in one day.
pub const SECONDS_IN_DAY: i64 = 86400;

/// How long one purchase grants access, in seconds.
pub const SUBSCRIPTION_DURATION: i64 = 30 * SECONDS_IN_DAY;

/// Largest number of plans in a catalog.
pub const MAX_SUBSCRIPTION_AMOUNT: usize = 32;

/// Largest byte length of a topic or a plan name.
pub const MAX_NAME_LENGTH: usize = 32;

/// Largest byte length of a decoded content reference.
pub const MAX_URL_LENGTH: usize = 64;

} // verus!
