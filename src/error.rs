use vstd::prelude::*;

verus! {

/// Why an operation was rejected. Every rejection leaves all records as they were.
#[derive(Clone, Copy, Debug, PartialEq, Eq, Structural)]
pub enum Error {
    /// The offered amount differs from the plan's price.
    InvalidAmountOfSOL,
    /// A plan or subscription index is out of range.
    ItemDoesNotExist,
    /// The payee account is not the catalog's payee.
    KeysMismatch,
    /// The catalog would hold more plans than allowed.
    TooManyPlans,
    /// The plan price, name and reference lists differ in length.
    InvalidInputLength,
    /// A topic or a plan name is longer than allowed.
    NameTooLong,
    /// A decoded content reference is longer than allowed.
    URLTooLong,
    /// A content reference is not valid URL-safe base64.
    InvalidURLFormat,
    /// The buyer's record already holds as many subscriptions as it can.
    TooManySubscriptions,
}

/// The human-readable message of each error.
pub open spec fn message_of(e: Error) -> Seq<char> {
    match e {
        Error::InvalidAmountOfSOL => "Wrong amount of SOL!"@,
        Error::ItemDoesNotExist => "Item does not exist in this collection!"@,
        Error::KeysMismatch => "Pay keys mismatch!"@,
        Error::TooManyPlans => "Too many subscription plans!"@,
        Error::InvalidInputLength => "Invalid input length!"@,
        Error::NameTooLong => "Name too long!"@,
        Error::URLTooLong => "URL too long!"@,
        Error::InvalidURLFormat => "Invalid URL format!"@,
        Error::TooManySubscriptions => "Too many subscriptions!"@,
    }
}

impl Error {
    /// The human-readable message of this error.
    pub fn message(&self) -> (r: &'static str)
        ensures
            r@ == message_of(*self),
    {
        match self {
            Error::InvalidAmountOfSOL => "Wrong amount of SOL!",
            Error::ItemDoesNotExist => "Item does not exist in this collection!",
            Error::KeysMismatch => "Pay keys mismatch!",
            Error::TooManyPlans => "Too many subscription plans!",
            Error::InvalidInputLength => "Invalid input length!",
            Error::NameTooLong => "Name too long!",
            Error::URLTooLong => "URL too long!",
            Error::InvalidURLFormat => "Invalid URL format!",
            Error::TooManySubscriptions => "Too many subscriptions!",
        }
    }
}

} // verus!
