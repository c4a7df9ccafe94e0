//! Buying access to a catalog's plan: validation first, then the payment
//! (made by the caller), then the new entry in the buyer's record.
use vstd::prelude::*;

use crate::creator::CreatorAccount;
use crate::error::Error;
use crate::pubkey::Pubkey;
use crate::user::{SubscriptionEntry, UserAccount};
use crate::{MAX_SUBSCRIPTION_AMOUNT, SECONDS_IN_DAY, SUBSCRIPTION_DURATION};

verus! {

/// The accounts that take part in a purchase.
pub struct PurchaseSubscription {
    /// The account the buyer names as the receiver of the payment.
    pub payto_account: Pubkey,
    /// The address of the catalog's record.
    pub creator_account_key: Pubkey,
    pub creator_account: CreatorAccount,
    pub user_account: UserAccount,
    /// The buyer, who pays.
    pub signer: Pubkey,
}

/// The payment that a valid purchase asks for: `amount` from `from` to `to`,
/// for the plan at position `plan_index` (from 0) of the catalog.
pub struct Transfer {
    pub from: Pubkey,
    pub to: Pubkey,
    pub amount: u64,
    pub plan_index: usize,
}

/// Why a purchase of plan `option_index` (from 1) for `sol_amount` is
/// refused, if it is: the payee is compared first, then the plan's
/// position, then its price, and last whether the buyer's record has room
/// for one more entry.
pub open spec fn purchase_error(ctx: &PurchaseSubscription, sol_amount: u64, option_index: u8) -> Option<Error> {
    if ctx.payto_account.bytes@ != ctx.creator_account.payto.bytes@ {
        Some(Error::KeysMismatch)
    } else if !(1 <= option_index <= ctx.creator_account.plan_count()) {
        Some(Error::ItemDoesNotExist)
    } else if ctx.creator_account.price(option_index - 1) != sol_amount {
        Some(Error::InvalidAmountOfSOL)
    } else if ctx.user_account.entries().len() >= MAX_SUBSCRIPTION_AMOUNT {
        Some(Error::TooManySubscriptions)
    } else {
        None
    }
}

/// The entry that buying plan `i` of the catalog at `now` adds.
pub open spec fn purchased_entry(ctx: &PurchaseSubscription, i: int, now: i64) -> SubscriptionEntry {
    SubscriptionEntry {
        key: ctx.creator_account_key,
        name: ctx.creator_account.subscription_plans_names@[i]@,
        link: ctx.creator_account.subscription_plans_images@[i]@,
        endtime: (now + SUBSCRIPTION_DURATION) as i64,
    }
}

/// Checks a purchase of plan `option_index` (counted from 1) for
/// `sol_amount`, and on success returns the payment it asks for: exactly
/// `sol_amount`, from the buyer to the catalog's payee. Nothing changes here;
/// the record is updated by `record_subscription` once that payment is made.
pub fn purchase_subscription(ctx: &PurchaseSubscription, sol_amount: u64, option_index: u8) -> (r:
    Result<Transfer, Error>)
    requires
        ctx.creator_account.wf(),
        ctx.user_account.wf(),
    ensures
        r is Ok <==> {
            &&& ctx.payto_account.bytes@ == ctx.creator_account.payto.bytes@
            &&& 1 <= option_index <= ctx.creator_account.plan_count()
            &&& ctx.creator_account.price(option_index - 1) == sol_amount
            &&& ctx.user_account.entries().len() < MAX_SUBSCRIPTION_AMOUNT
        },
        r is Err <==> purchase_error(ctx, sol_amount, option_index) is Some,
        r is Err ==> r->Err_0 == purchase_error(ctx, sol_amount, option_index)->0,
        r is Ok ==> {
            let t = r->Ok_0;
            &&& t.from == ctx.signer
            &&& t.to == ctx.creator_account.payto
            &&& t.amount == sol_amount
            &&& t.plan_index == option_index - 1
        },
{
    let creator_account = &ctx.creator_account;
    if !(ctx.payto_account == creator_account.payto) {
        return Err(Error::KeysMismatch);
    }
    if option_index == 0 || option_index as usize > creator_account.subscription_plans_prices.len() {
        return Err(Error::ItemDoesNotExist);
    }
    let plan_idx = option_index as usize - 1;
    if creator_account.plan_price(plan_idx) != sol_amount {
        return Err(Error::InvalidAmountOfSOL);
    }
    if ctx.user_account.subscription_keys.len() >= MAX_SUBSCRIPTION_AMOUNT {
        return Err(Error::TooManySubscriptions);
    }
    Ok(Transfer { from: ctx.signer, to: creator_account.payto, amount: sol_amount, plan_index: plan_idx })
}

/// Records a paid purchase: appends to the buyer's record one entry for the
/// catalog, with the plan's name and content reference, ending thirty days
/// after `current_time`. The four lists of the record each gain exactly one
/// element. Returns the whole days of access left.
pub fn record_subscription(ctx: &mut PurchaseSubscription, transfer: &Transfer, current_time: i64) -> (r: i64)
    requires
        old(ctx).creator_account.wf(),
        old(ctx).user_account.wf(),
        transfer.plan_index < old(ctx).creator_account.plan_count(),
        old(ctx).user_account.entries().len() < MAX_SUBSCRIPTION_AMOUNT,
        current_time <= i64::MAX - SUBSCRIPTION_DURATION,
    ensures
        final(ctx).user_account.wf(),
        final(ctx).user_account.owner == old(ctx).user_account.owner,
        final(ctx).creator_account == old(ctx).creator_account,
        final(ctx).creator_account_key == old(ctx).creator_account_key,
        final(ctx).user_account.subscription_keys@.len() == old(ctx).user_account.subscription_keys@.len() + 1,
        final(ctx).user_account.subscription_names@.len() == final(ctx).user_account.subscription_keys@.len(),
        final(ctx).user_account.subscription_links@.len() == final(ctx).user_account.subscription_keys@.len(),
        final(ctx).user_account.subscription_endtime@.len() == final(ctx).user_account.subscription_keys@.len(),
        final(ctx).user_account.entries() == old(ctx).user_account.entries().push(
            purchased_entry(old(ctx), transfer.plan_index as int, current_time),
        ),
        r == SUBSCRIPTION_DURATION / SECONDS_IN_DAY,
{
    let ghost before = ctx.user_account.entries();
    let i = transfer.plan_index;
    let key = ctx.creator_account_key;
    let name = vstd::slice::slice_to_vec(ctx.creator_account.subscription_plans_names[i].as_slice());
    let link = vstd::slice::slice_to_vec(ctx.creator_account.subscription_plans_images[i].as_slice());
    let endtime = current_time + SUBSCRIPTION_DURATION;
    ctx.user_account.subscription_keys.push(key);
    ctx.user_account.subscription_names.push(name);
    ctx.user_account.subscription_links.push(link);
    ctx.user_account.subscription_endtime.push(endtime);
    assert(ctx.user_account.entries() =~= before.push(purchased_entry(old(ctx), i as int, current_time)));
    ((endtime - current_time) as u64 / (SECONDS_IN_DAY as u64)) as i64
}

} // verus!
