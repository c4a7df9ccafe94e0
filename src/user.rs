//! Per-user subscription records, their expiry, and the reads over them.
use vstd::prelude::*;
use vstd::slice::slice_to_vec;

use crate::error::Error;
use crate::pubkey::Pubkey;
use crate::{MAX_SUBSCRIPTION_AMOUNT, SECONDS_IN_DAY};

verus! {

/// A user's subscriptions. Entry `i` is described by element `i` of the four
/// lists: the catalog subscribed to, the plan's name, its content reference
/// and the time at which access ends.
pub struct UserAccount {
    pub owner: Pubkey,
    pub subscription_keys: Vec<Pubkey>,
    pub subscription_links: Vec<Vec<u8>>,
    pub subscription_names: Vec<Vec<u8>>,
    pub subscription_endtime: Vec<i64>,
}

/// One subscription entry, as a value.
pub struct SubscriptionEntry {
    pub key: Pubkey,
    pub name: Seq<u8>,
    pub link: Seq<u8>,
    pub endtime: i64,
}

/// The account that creates a user record.
pub struct CreateUserAccount {
    pub signer: Pubkey,
}

/// The record whose subscriptions are listed.
pub struct LogUserSubscriptions {
    pub user_account: UserAccount,
}

/// The record from which a content reference is read.
pub struct GetSubscriptionLink {
    pub user_account: UserAccount,
}

/// One line of a listing: the catalog, the plan's name and the whole days
/// of access left.
pub struct ListedSubscription {
    pub key: Pubkey,
    pub name: Vec<u8>,
    pub days_left: i64,
}

impl UserAccount {
    /// The four lists have one length, at most the record's capacity.
    pub open spec fn wf(&self) -> bool {
        &&& self.subscription_keys@.len() <= MAX_SUBSCRIPTION_AMOUNT
        &&& self.subscription_links@.len() == self.subscription_keys@.len()
        &&& self.subscription_names@.len() == self.subscription_keys@.len()
        &&& self.subscription_endtime@.len() == self.subscription_keys@.len()
    }

    /// Whether the four lists have one length within the capacity, as they must in a record
    /// loaded from storage before it is used.
    pub fn is_well_formed(&self) -> (r: bool)
        ensures
            r == self.wf(),
    {
        let n = self.subscription_keys.len();
        n <= MAX_SUBSCRIPTION_AMOUNT && self.subscription_links.len() == n && self.subscription_names.len() == n
            && self.subscription_endtime.len() == n
    }

    /// The entries, in order.
    pub open spec fn entries(&self) -> Seq<SubscriptionEntry> {
        Seq::new(
            self.subscription_keys@.len(),
            |i: int|
                SubscriptionEntry {
                    key: self.subscription_keys@[i],
                    name: self.subscription_names@[i]@,
                    link: self.subscription_links@[i]@,
                    endtime: self.subscription_endtime@[i],
                },
        )
    }
}

/// Whether an entry still grants access at time `t`: one that ends exactly
/// at `t` still does.
pub open spec fn is_live(t: i64) -> spec_fn(SubscriptionEntry) -> bool {
    |e: SubscriptionEntry| e.endtime >= t
}

/// The entries of `s` that are live at `t`, in their order.
pub open spec fn live_entries(s: Seq<SubscriptionEntry>, t: i64) -> Seq<SubscriptionEntry> {
    s.filter(is_live(t))
}

/// The whole days between `t` and the end of `e`.
pub open spec fn days_left(e: SubscriptionEntry, t: i64) -> int {
    (e.endtime - t) / (SECONDS_IN_DAY as int)
}

proof fn lemma_filter_keeps_all(s: Seq<SubscriptionEntry>, p: spec_fn(SubscriptionEntry) -> bool)
    requires
        forall|i: int| 0 <= i < s.len() ==> p(#[trigger] s[i]),
    ensures
        s.filter(p) == s,
    decreases s.len(),
{
    reveal(Seq::filter);
    if s.len() > 0 {
        lemma_filter_keeps_all(s.drop_last(), p);
        assert(s.drop_last().push(s.last()) =~= s);
    }
}

proof fn lemma_filter_drops_one(e: SubscriptionEntry, p: spec_fn(SubscriptionEntry) -> bool)
    requires
        !p(e),
    ensures
        seq![e].filter(p) == Seq::<SubscriptionEntry>::empty(),
{
    reveal_with_fuel(Seq::filter, 2);
    assert(seq![e].drop_last() =~= Seq::<SubscriptionEntry>::empty());
}

/// Pruning twice at one time is pruning once.
pub proof fn lemma_prune_idempotent(s: Seq<SubscriptionEntry>, t: i64)
    ensures
        live_entries(live_entries(s, t), t) == live_entries(s, t),
{
    broadcast use Seq::lemma_filter_pred;

    lemma_filter_keeps_all(live_entries(s, t), is_live(t));
}

/// Every entry that survives pruning at `t` is live at `t`.
pub proof fn lemma_pruned_all_live(s: Seq<SubscriptionEntry>, t: i64)
    ensures
        forall|i: int|
            0 <= i < live_entries(s, t).len() ==> (#[trigger] live_entries(s, t)[i]).endtime >= t,
{
    broadcast use Seq::lemma_filter_pred;

}

/// Removing from `orig[0..p] ++ live(orig[p..])` a dead entry `q < p` whose
/// successors up to `p` are all live leaves `orig[0..q] ++ live(orig[q..])`.
proof fn lemma_prune_step(orig: Seq<SubscriptionEntry>, q: int, p: int, t: i64)
    requires
        0 <= q < p <= orig.len(),
        orig[q].endtime < t,
        forall|m: int| q < m < p ==> (#[trigger] orig[m]).endtime >= t,
    ensures
        (orig.subrange(0, p) + live_entries(orig.subrange(p, orig.len() as int), t)).remove(q)
            == orig.subrange(0, q) + live_entries(orig.subrange(q, orig.len() as int), t),
{
    let n = orig.len() as int;
    let tail = live_entries(orig.subrange(p, n), t);
    let mid = orig.subrange(q + 1, p);
    assert(orig.subrange(q, n) =~= orig.subrange(q, p) + orig.subrange(p, n));
    Seq::filter_distributes_over_add(orig.subrange(q, p), orig.subrange(p, n), is_live(t));
    assert(orig.subrange(q, p) =~= seq![orig[q]] + mid);
    Seq::filter_distributes_over_add(seq![orig[q]], mid, is_live(t));
    lemma_filter_drops_one(orig[q], is_live(t));
    assert forall|i: int| 0 <= i < mid.len() implies is_live(t)(#[trigger] mid[i]) by {
        assert(mid[i] == orig[q + 1 + i]);
    }
    lemma_filter_keeps_all(mid, is_live(t));
    assert(live_entries(orig.subrange(q, n), t) =~= mid + tail);
    assert((orig.subrange(0, p) + tail).remove(q) =~= orig.subrange(0, q) + (mid + tail));
}

/// Removes entry `q` from all four lists.
fn remove_entry(user_account: &mut UserAccount, q: usize)
    requires
        old(user_account).wf(),
        q < old(user_account).entries().len(),
    ensures
        final(user_account).wf(),
        final(user_account).owner == old(user_account).owner,
        final(user_account).entries() == old(user_account).entries().remove(q as int),
{
    let ghost before = user_account.entries();
    user_account.subscription_keys.remove(q);
    user_account.subscription_names.remove(q);
    user_account.subscription_links.remove(q);
    user_account.subscription_endtime.remove(q);
    assert(user_account.entries() =~= before.remove(q as int));
}

/// Drops every entry that ended before `clock`, keeping the others in order.
///
/// The positions of the expired entries are collected first and removed
/// from the highest down, so that no removal moves a position still to come.
pub fn remove_unvalid_subscriptions(user_account: &mut UserAccount, clock: i64)
    requires
        old(user_account).wf(),
    ensures
        final(user_account).wf(),
        final(user_account).owner == old(user_account).owner,
        final(user_account).entries() == live_entries(old(user_account).entries(), clock),
{
    let ghost orig = user_account.entries();
    let ghost owner = user_account.owner;
    let n = user_account.subscription_endtime.len();
    let mut invalid: Vec<usize> = Vec::new();
    let mut i: usize = 0;
    while i < n
        invariant
            user_account.wf(),
            user_account.entries() == orig,
            n == orig.len(),
            i <= n,
            forall|a: int, b: int|
                0 <= a < b < invalid@.len() ==> invalid@[a] < invalid@[b],
            forall|a: int|
                0 <= a < invalid@.len() ==> invalid@[a] < i && orig[#[trigger] invalid@[a] as int].endtime < clock,
            forall|m: int|
                0 <= m < i && (#[trigger] orig[m]).endtime < clock ==> exists|a: int|
                    0 <= a < invalid@.len() && invalid@[a] == m,
        decreases n - i,
    {
        let ghost found = invalid@;
        if user_account.subscription_endtime[i] < clock {
            assert(orig[i as int].endtime < clock);
            invalid.push(i);
        }
        proof {
            assert forall|m: int|
                0 <= m <= i && (#[trigger] orig[m]).endtime < clock implies exists|a: int|
                    0 <= a < invalid@.len() && invalid@[a] == m by {
                if m < i {
                    let a = choose|a: int| 0 <= a < found.len() && found[a] == m;
                    assert(invalid@[a] == m);
                } else {
                    assert(invalid@[invalid@.len() - 1] == m);
                }
            }
        }
        i = i + 1;
    }

    let mut k: usize = invalid.len();
    let ghost mut p: int = n as int;
    while k > 0
        invariant
            user_account.wf(),
            user_account.owner == owner,
            n == orig.len(),
            forall|a: int, b: int|
                0 <= a < b < invalid@.len() ==> invalid@[a] < invalid@[b],
            forall|a: int|
                0 <= a < invalid@.len() ==> invalid@[a] < n && orig[#[trigger] invalid@[a] as int].endtime < clock,
            forall|m: int|
                0 <= m < n && (#[trigger] orig[m]).endtime < clock ==> exists|a: int|
                    0 <= a < invalid@.len() && invalid@[a] == m,
            k <= invalid@.len(),
            p == if k == invalid@.len() { n as int } else { invalid@[k as int] as int },
            user_account.entries() == orig.subrange(0, p) + live_entries(orig.subrange(p, n as int), clock),
        decreases k,
    {
        k = k - 1;
        let q = invalid[k];
        proof {
            assert forall|m: int| q < m < p implies (#[trigger] orig[m]).endtime >= clock by {
                if orig[m].endtime < clock {
                    let a = choose|a: int| 0 <= a < invalid@.len() && invalid@[a] == m;
                    if a < k {
                        assert(invalid@[a] < invalid@[k as int]);
                    } else if a > k {
                        assert(a == k + 1 || invalid@[k + 1] < invalid@[a]);
                    }
                }
            }
            if k + 1 < invalid@.len() {
                assert(invalid@[k as int] < invalid@[k + 1]);
            }
            lemma_prune_step(orig, q as int, p, clock);
        }
        remove_entry(user_account, q);
        proof {
            p = q as int;
        }
    }
    proof {
        orig.lemma_filter_len(is_live(clock));
        assert forall|m: int| 0 <= m < p implies is_live(clock)(#[trigger] orig.subrange(0, p)[m]) by {
            assert(orig.subrange(0, p)[m] == orig[m]);
            if orig[m].endtime < clock {
                let a = choose|a: int| 0 <= a < invalid@.len() && invalid@[a] == m;
                if a > 0 {
                    assert(invalid@[0] < invalid@[a]);
                }
            }
        }
        lemma_filter_keeps_all(orig.subrange(0, p), is_live(clock));
        assert(orig =~= orig.subrange(0, p) + orig.subrange(p, n as int));
        Seq::filter_distributes_over_add(orig.subrange(0, p), orig.subrange(p, n as int), is_live(clock));
    }
}

/// Prunes the record at `current_time` and lists what is left, in order:
/// each entry's catalog, plan name and whole days of access left.
pub fn log_user_subscriptions(ctx: &mut LogUserSubscriptions, current_time: i64) -> (r: Vec<
    ListedSubscription,
>)
    requires
        old(ctx).user_account.wf(),
    ensures
        final(ctx).user_account.wf(),
        final(ctx).user_account.owner == old(ctx).user_account.owner,
        final(ctx).user_account.entries() == live_entries(
            old(ctx).user_account.entries(),
            current_time,
        ),
        r@.len() == final(ctx).user_account.entries().len(),
        forall|i: int|
            0 <= i < r@.len() ==> {
                let e = final(ctx).user_account.entries()[i];
                &&& (#[trigger] r@[i]).key == e.key
                &&& r@[i].name@ == e.name
                &&& r@[i].days_left == days_left(e, current_time)
                &&& r@[i].days_left >= 0
            },
{
    remove_unvalid_subscriptions(&mut ctx.user_account, current_time);
    let user = &ctx.user_account;
    proof {
        lemma_pruned_all_live(old(ctx).user_account.entries(), current_time);
    }
    let n = user.subscription_keys.len();
    let mut listed: Vec<ListedSubscription> = Vec::new();
    let mut i: usize = 0;
    while i < n
        invariant
            user.wf(),
            n == user.entries().len(),
            forall|j: int| 0 <= j < n ==> (#[trigger] user.entries()[j]).endtime >= current_time,
            i <= n,
            listed@.len() == i,
            forall|j: int|
                0 <= j < i ==> {
                    let e = user.entries()[j];
                    &&& (#[trigger] listed@[j]).key == e.key
                    &&& listed@[j].name@ == e.name
                    &&& listed@[j].days_left == days_left(e, current_time)
                    &&& listed@[j].days_left >= 0
                },
        decreases n - i,
    {
        let end = user.subscription_endtime[i];
        assert(user.entries()[i as int].endtime == end);
        let span = ((end as i128) - (current_time as i128)) as u64;
        let days = (span / (SECONDS_IN_DAY as u64)) as i64;
        listed.push(
            ListedSubscription {
                key: user.subscription_keys[i],
                name: slice_to_vec(user.subscription_names[i].as_slice()),
                days_left: days,
            },
        );
        i = i + 1;
    }
    listed
}

/// The number of entries of the record that are live at `t`.
pub fn count_live(user_account: &UserAccount, t: i64) -> (r: usize)
    requires
        user_account.wf(),
    ensures
        r == live_entries(user_account.entries(), t).len(),
{
    let ghost s = user_account.entries();
    let n = user_account.subscription_endtime.len();
    let mut count: usize = 0;
    let mut i: usize = 0;
    while i < n
        invariant
            user_account.wf(),
            s == user_account.entries(),
            n == s.len(),
            i <= n,
            count == live_entries(s.subrange(0, i as int), t).len(),
            count <= i,
        decreases n - i,
    {
        proof {
            reveal(Seq::filter);
            assert(s.subrange(0, i + 1).drop_last() =~= s.subrange(0, i as int));
            assert(s.subrange(0, i + 1).last() == s[i as int]);
        }
        if user_account.subscription_endtime[i] >= t {
            count = count + 1;
        }
        i = i + 1;
    }
    assert(s.subrange(0, n as int) =~= s);
    count
}

/// Returns the content reference of entry `subscription_index`, counted from
/// 1 among the entries live at `current_time`, and prunes the record.
///
/// Fails with `ItemDoesNotExist` exactly when no live entry has that
/// position, and then leaves the record as it was.
pub fn get_subscription_link(
    ctx: &mut GetSubscriptionLink,
    subscription_index: u8,
    current_time: i64,
) -> (r: Result<Vec<u8>, Error>)
    requires
        old(ctx).user_account.wf(),
    ensures
        final(ctx).user_account.wf(),
        r is Ok <==> 1 <= subscription_index <= live_entries(
            old(ctx).user_account.entries(),
            current_time,
        ).len(),
        r is Ok ==> final(ctx).user_account.owner == old(ctx).user_account.owner,
        r is Ok ==> final(ctx).user_account.entries() == live_entries(
            old(ctx).user_account.entries(),
            current_time,
        ),
        r is Ok ==> r->Ok_0@ == final(ctx).user_account.entries()[subscription_index - 1].link,
        r is Err ==> r->Err_0 == Error::ItemDoesNotExist,
        r is Err ==> final(ctx).user_account == old(ctx).user_account,
{
    let live = count_live(&ctx.user_account, current_time);
    if subscription_index == 0 || subscription_index as usize > live {
        return Err(Error::ItemDoesNotExist);
    }
    remove_unvalid_subscriptions(&mut ctx.user_account, current_time);
    let i = subscription_index as usize - 1;
    Ok(slice_to_vec(ctx.user_account.subscription_links[i].as_slice()))
}

/// Creates an empty subscription record owned by `ctx.signer`.
pub fn create_user_account(ctx: &CreateUserAccount) -> (r: UserAccount)
    ensures
        r.wf(),
        r.owner == ctx.signer,
        r.entries().len() == 0,
{
    UserAccount {
        owner: ctx.signer,
        subscription_keys: Vec::new(),
        subscription_links: Vec::new(),
        subscription_names: Vec::new(),
        subscription_endtime: Vec::new(),
    }
}

} // verus!
