//! Creator catalogs and their registration.
use vstd::prelude::*;
use vstd::utf8::encode_utf8;

use crate::codec::{decode_base64_url, le_bytes, le_value, price_from_le, price_to_le, url_safe_decoded};
use crate::error::Error;
use crate::pubkey::Pubkey;
use crate::{MAX_NAME_LENGTH, MAX_SUBSCRIPTION_AMOUNT, MAX_URL_LENGTH};

verus! {

/// A creator's catalog of plans. Plan `i` is described by entry `i` of the
/// three plan lists: its price (eight little-endian bytes), its name and its
/// decoded content reference.
pub struct CreatorAccount {
    pub creator: Pubkey,
    pub payto: Pubkey,
    pub name: Vec<u8>,
    pub subscription_plans_prices: Vec<Vec<u8>>,
    pub subscription_plans_names: Vec<Vec<u8>>,
    pub subscription_plans_images: Vec<Vec<u8>>,
}

/// The accounts that take part in registering a catalog.
pub struct CreateCreatorAccount {
    /// The creator who registers the catalog.
    pub signer: Pubkey,
    /// The account that is to receive every payment for the catalog's plans.
    pub payto_account: Pubkey,
}

impl CreatorAccount {
    /// The number of plans.
    pub open spec fn plan_count(&self) -> nat {
        self.subscription_plans_prices@.len()
    }

    /// The price of plan `i`.
    pub open spec fn price(&self, i: int) -> u64 {
        le_value(self.subscription_plans_prices@[i]@)
    }

    /// The plan lists are aligned, within their bounds, and every price is
    /// stored in eight bytes.
    pub open spec fn wf(&self) -> bool {
        &&& self.subscription_plans_names@.len() == self.plan_count()
        &&& self.subscription_plans_images@.len() == self.plan_count()
        &&& self.plan_count() <= MAX_SUBSCRIPTION_AMOUNT
        &&& self.name@.len() <= MAX_NAME_LENGTH
        &&& forall|i: int|
            0 <= i < self.plan_count() ==> {
                &&& (#[trigger] self.subscription_plans_prices@[i])@.len() == 8
                &&& self.subscription_plans_names@[i]@.len() <= MAX_NAME_LENGTH
                &&& self.subscription_plans_images@[i]@.len() <= MAX_URL_LENGTH
            }
    }

    /// Whether the record is well formed, as one loaded from storage must be
    /// before it is used.
    pub fn is_well_formed(&self) -> (r: bool)
        ensures
            r == self.wf(),
    {
        let n = self.subscription_plans_prices.len();
        if !(self.subscription_plans_names.len() == n && self.subscription_plans_images.len() == n
            && n <= MAX_SUBSCRIPTION_AMOUNT && self.name.len() <= MAX_NAME_LENGTH) {
            return false;
        }
        let mut i: usize = 0;
        while i < n
            invariant
                n == self.plan_count(),
                self.subscription_plans_names@.len() == n,
                self.subscription_plans_images@.len() == n,
                i <= n,
                forall|j: int| 0 <= j < i ==> (#[trigger] self.subscription_plans_prices@[j])@.len() == 8,
                forall|j: int| 0 <= j < i ==> (#[trigger] self.subscription_plans_names@[j])@.len() <= MAX_NAME_LENGTH,
                forall|j: int| 0 <= j < i ==> (#[trigger] self.subscription_plans_images@[j])@.len() <= MAX_URL_LENGTH,
            decreases n - i,
        {
            if !(self.subscription_plans_prices[i].len() == 8
                && self.subscription_plans_names[i].len() <= MAX_NAME_LENGTH
                && self.subscription_plans_images[i].len() <= MAX_URL_LENGTH) {
                assert(!({
                    &&& self.subscription_plans_prices@[i as int]@.len() == 8
                    &&& self.subscription_plans_names@[i as int]@.len() <= MAX_NAME_LENGTH
                    &&& self.subscription_plans_images@[i as int]@.len() <= MAX_URL_LENGTH
                }));
                return false;
            }
            i = i + 1;
        }
        true
    }

    /// The price of plan `i` (from 0), read from its stored bytes.
    pub fn plan_price(&self, i: usize) -> (r: u64)
        requires
            self.wf(),
            i < self.plan_count(),
        ensures
            r == self.price(i as int),
    {
        price_from_le(self.subscription_plans_prices[i].as_slice())
    }
}

/// Why a registration with these arguments is refused, if it is: the plan
/// lists are compared first, then their number, the topic and the plan
/// names; then every reference must decode, and last every decoded
/// reference must fit.
pub open spec fn registration_error(
    topic: Seq<char>,
    prices: Seq<u64>,
    names: Seq<String>,
    refs: Seq<String>,
) -> Option<Error> {
    if !(prices.len() == names.len() && names.len() == refs.len()) {
        Some(Error::InvalidInputLength)
    } else if prices.len() > MAX_SUBSCRIPTION_AMOUNT {
        Some(Error::TooManyPlans)
    } else if encode_utf8(topic).len() > MAX_NAME_LENGTH {
        Some(Error::NameTooLong)
    } else if exists|i: int| 0 <= i < names.len() && encode_utf8(#[trigger] names[i]@).len() > MAX_NAME_LENGTH {
        Some(Error::NameTooLong)
    } else if exists|i: int| 0 <= i < refs.len() && url_safe_decoded(#[trigger] refs[i]@) is None {
        Some(Error::InvalidURLFormat)
    } else if exists|i: int|
        0 <= i < refs.len() && url_safe_decoded(#[trigger] refs[i]@)->0.len() > MAX_URL_LENGTH {
        Some(Error::URLTooLong)
    } else {
        None
    }
}

/// The number of bytes in the UTF-8 form of `s`.
fn byte_len(s: &String) -> (r: usize)
    ensures
        r == encode_utf8(s@).len(),
{
    s.as_str().as_bytes().len()
}

/// Registers a catalog for `ctx.signer`, paid to `ctx.payto_account`.
///
/// It is refused exactly when `registration_error` names a refusal, with that
/// error; otherwise the catalog holds the topic's bytes, each price's eight
/// little-endian bytes, each name's bytes and each reference decoded.
pub fn create_creator_account(
    ctx: &CreateCreatorAccount,
    name: String,
    subscription_plans_prices: Vec<u64>,
    subscription_plans_names: Vec<String>,
    subscription_plans_images: Vec<String>,
) -> (r: Result<CreatorAccount, Error>)
    ensures
        r is Err <==> registration_error(
            name@,
            subscription_plans_prices@,
            subscription_plans_names@,
            subscription_plans_images@,
        ) is Some,
        r is Err ==> r->Err_0 == registration_error(
            name@,
            subscription_plans_prices@,
            subscription_plans_names@,
            subscription_plans_images@,
        )->0,
        !(subscription_plans_prices@.len() == subscription_plans_names@.len()
            && subscription_plans_names@.len() == subscription_plans_images@.len()) ==> r
            == Err::<CreatorAccount, Error>(Error::InvalidInputLength),
        r is Ok ==> {
            let c = r->Ok_0;
            &&& c.wf()
            &&& c.creator == ctx.signer
            &&& c.payto == ctx.payto_account
            &&& c.name@ == encode_utf8(name@)
            &&& c.plan_count() == subscription_plans_prices@.len()
            &&& forall|i: int|
                0 <= i < c.plan_count() ==> {
                    &&& (#[trigger] c.subscription_plans_prices@[i])@ == le_bytes(
                        subscription_plans_prices@[i],
                    )
                    &&& c.price(i) == subscription_plans_prices@[i]
                    &&& c.subscription_plans_names@[i]@ == encode_utf8(
                        subscription_plans_names@[i]@,
                    )
                    &&& c.subscription_plans_images@[i]@ == url_safe_decoded(
                        subscription_plans_images@[i]@,
                    )->0
                }
        },
{
    let n = subscription_plans_prices.len();
    if !(n == subscription_plans_names.len() && subscription_plans_names.len()
        == subscription_plans_images.len()) {
        return Err(Error::InvalidInputLength);
    }
    if n > MAX_SUBSCRIPTION_AMOUNT {
        return Err(Error::TooManyPlans);
    }
    if byte_len(&name) > MAX_NAME_LENGTH {
        return Err(Error::NameTooLong);
    }
    let mut i: usize = 0;
    while i < n
        invariant
            n == subscription_plans_names@.len(),
            n == subscription_plans_prices@.len(),
            n == subscription_plans_images@.len(),
            n <= MAX_SUBSCRIPTION_AMOUNT,
            encode_utf8(name@).len() <= MAX_NAME_LENGTH,
            i <= n,
            forall|j: int| 0 <= j < i ==> encode_utf8(#[trigger] subscription_plans_names@[j]@).len() <= MAX_NAME_LENGTH,
        decreases n - i,
    {
        if byte_len(&subscription_plans_names[i]) > MAX_NAME_LENGTH {
            assert(encode_utf8(subscription_plans_names@[i as int]@).len() > MAX_NAME_LENGTH);
            return Err(Error::NameTooLong);
        }
        assert(encode_utf8(subscription_plans_names@[i as int]@).len() <= MAX_NAME_LENGTH);
        i = i + 1;
    }

    let ghost refs = subscription_plans_images@;
    let mut images: Vec<Vec<u8>> = Vec::new();
    let mut i: usize = 0;
    while i < n
        invariant
            n == refs.len(),
            refs == subscription_plans_images@,
            n == subscription_plans_names@.len(),
            n == subscription_plans_prices@.len(),
            n <= MAX_SUBSCRIPTION_AMOUNT,
            encode_utf8(name@).len() <= MAX_NAME_LENGTH,
            forall|j: int| 0 <= j < n ==> encode_utf8(#[trigger] subscription_plans_names@[j]@).len() <= MAX_NAME_LENGTH,
            i <= n,
            images@.len() == i,
            forall|j: int| 0 <= j < i ==> url_safe_decoded(#[trigger] refs[j]@) is Some,
            forall|j: int| 0 <= j < i ==> (#[trigger] images@[j])@ == url_safe_decoded(refs[j]@)->0,
        decreases n - i,
    {
        match decode_base64_url(subscription_plans_images[i].as_str()) {
            Err(e) => {
                assert(url_safe_decoded(refs[i as int]@) is None);
                return Err(e);
            },
            Ok(bytes) => {
                images.push(bytes);
                assert(images@[i as int] == bytes);
            },
        }
        i = i + 1;
    }

    let mut i: usize = 0;
    while i < n
        invariant
            n == refs.len(),
            refs == subscription_plans_images@,
            n == subscription_plans_names@.len(),
            n == subscription_plans_prices@.len(),
            n <= MAX_SUBSCRIPTION_AMOUNT,
            encode_utf8(name@).len() <= MAX_NAME_LENGTH,
            forall|j: int| 0 <= j < n ==> encode_utf8(#[trigger] subscription_plans_names@[j]@).len() <= MAX_NAME_LENGTH,
            i <= n,
            images@.len() == n,
            forall|j: int| 0 <= j < n ==> url_safe_decoded(#[trigger] refs[j]@) is Some,
            forall|j: int| 0 <= j < n ==> (#[trigger] images@[j])@ == url_safe_decoded(refs[j]@)->0,
            forall|j: int| 0 <= j < i ==> (#[trigger] images@[j])@.len() <= MAX_URL_LENGTH,
        decreases n - i,
    {
        if images[i].len() > MAX_URL_LENGTH {
            assert(url_safe_decoded(refs[i as int]@)->0.len() > MAX_URL_LENGTH);
            return Err(Error::URLTooLong);
        }
        i = i + 1;
    }
    assert forall|j: int| 0 <= j < n implies url_safe_decoded(#[trigger] refs[j]@)->0.len() <= MAX_URL_LENGTH by {
        assert(images@[j]@.len() <= MAX_URL_LENGTH);
    }

    let mut prices: Vec<Vec<u8>> = Vec::new();
    let mut names: Vec<Vec<u8>> = Vec::new();
    let mut i: usize = 0;
    while i < n
        invariant
            n == subscription_plans_prices@.len(),
            n == subscription_plans_names@.len(),
            i <= n,
            prices@.len() == i,
            names@.len() == i,
            forall|j: int| 0 <= j < n ==> encode_utf8(#[trigger] subscription_plans_names@[j]@).len() <= MAX_NAME_LENGTH,
            forall|j: int| 0 <= j < i ==> {
                &&& (#[trigger] prices@[j])@ == le_bytes(subscription_plans_prices@[j])
                &&& le_value(prices@[j]@) == subscription_plans_prices@[j]
                &&& names@[j]@ == encode_utf8(subscription_plans_names@[j]@)
            },
        decreases n - i,
    {
        proof {
            crate::codec::lemma_le_round_trip(subscription_plans_prices[i as int]);
        }
        prices.push(price_to_le(subscription_plans_prices[i]));
        names.push(subscription_plans_names[i].as_str().as_bytes_vec());
        assert(prices@[i as int]@ == le_bytes(subscription_plans_prices@[i as int]));
        assert(names@[i as int]@ == encode_utf8(subscription_plans_names@[i as int]@));
        i = i + 1;
    }

    let c = CreatorAccount {
        creator: ctx.signer,
        payto: ctx.payto_account,
        name: name.as_str().as_bytes_vec(),
        subscription_plans_prices: prices,
        subscription_plans_names: names,
        subscription_plans_images: images,
    };
    assert forall|j: int| 0 <= j < n implies {
        &&& (#[trigger] c.subscription_plans_prices@[j])@.len() == 8
        &&& c.subscription_plans_names@[j]@.len() <= MAX_NAME_LENGTH
        &&& c.subscription_plans_images@[j]@.len() <= MAX_URL_LENGTH
    } by {
        assert(c.subscription_plans_prices@[j]@ == le_bytes(subscription_plans_prices@[j]));
        assert(c.subscription_plans_names@[j]@ == encode_utf8(subscription_plans_names@[j]@));
        assert(c.subscription_plans_images@[j] == images@[j]);
    }
    Ok(c)
}

} // verus!
