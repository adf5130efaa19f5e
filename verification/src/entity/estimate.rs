//! Estimates.

use vstd::prelude::*;
use vstd::string::*;
use super::clock::Timestamp;
use super::error::Error;
use super::traits::Identifiable;

verus! {

/// A priced piece of work at a location.
///
/// `price` and `price_guess` hold the bit pattern of an IEEE 754
/// double-precision number.
#[derive(Debug)]
pub struct Estimate {
    pub id: u128,
    pub name: String,
    pub description: String,
    pub price: u64,
    pub location: String,
    pub price_guess: u64,
    pub created_at: Timestamp,
    pub updated_at: Timestamp,
}

/// What an estimate holds, text as sequences of characters.
pub struct EstimateView {
    pub id: u128,
    pub name: Seq<char>,
    pub description: Seq<char>,
    pub price: u64,
    pub location: Seq<char>,
    pub price_guess: u64,
    pub created_at: Timestamp,
    pub updated_at: Timestamp,
}

impl View for Estimate {
    type V = EstimateView;

    open spec fn view(&self) -> EstimateView {
        EstimateView {
            id: self.id,
            name: self.name@,
            description: self.description@,
            price: self.price,
            location: self.location@,
            price_guess: self.price_guess,
            created_at: self.created_at,
            updated_at: self.updated_at,
        }
    }
}

impl Clone for Estimate {
    fn clone(&self) -> (r: Self)
        ensures
            r@ == self@,
    {
        Estimate {
            id: self.id,
            name: self.name.clone(),
            description: self.description.clone(),
            price: self.price,
            location: self.location.clone(),
            price_guess: self.price_guess,
            created_at: self.created_at,
            updated_at: self.updated_at,
        }
    }
}

impl Identifiable for Estimate {
    open spec fn id_of(v: EstimateView) -> u128 {
        v.id
    }

    fn id(&self) -> (r: u128) {
        self.id
    }

    proof fn clone_keeps_view(a: &Self, b: &Self) {
    }
}

/// The bit pattern of positive infinity, the largest pattern of a number
/// greater than zero: above it lie the patterns that are no number, and those
/// with the sign bit set.
pub const POSITIVE_INFINITY: u64 = 0x7ff0_0000_0000_0000;

/// The bit pattern of zero.
pub const ZERO: u64 = 0;

/// Whether the double-precision number with bit pattern `bits` is greater than
/// zero.
pub open spec fn is_positive(bits: u64) -> bool {
    ZERO < bits <= POSITIVE_INFINITY
}

/// What is said of a name that is too short or too long.
pub open spec fn name_rule() -> Seq<char> {
    "Name must be between 50 and 100 characters"@
}

/// What is said of a description that is empty or too long.
pub open spec fn description_rule() -> Seq<char> {
    "Description must be between 1 and 1000 characters"@
}

/// What is said of a price that is not greater than zero.
pub open spec fn price_rule() -> Seq<char> {
    "Price must be greater than 0"@
}

/// What is said of a location that is too short or too long.
pub open spec fn location_rule() -> Seq<char> {
    "Location must be between 3 and 100 characters"@
}

/// What is said of a guessed price that is not greater than zero.
pub open spec fn price_guess_rule() -> Seq<char> {
    "Price guess must be greater than 0"@
}

/// The failure that names a broken constraint of an estimate.
pub open spec fn rejects(r: Result<(), Error>, message: Seq<char>) -> bool {
    r matches Err(Error::ValidationError { entity, message: m }) && entity@ == "Estimate"@ && m@
        == message
}

fn rejected(message: &str) -> (r: Result<(), Error>)
    ensures
        rejects(r, message@),
{
    Err(Error::ValidationError { entity: "Estimate", message: message.to_string() })
}

impl Estimate {
    pub open spec fn valid_name(name: Seq<char>) -> bool {
        50 <= name.len() <= 100
    }

    pub open spec fn valid_description(description: Seq<char>) -> bool {
        1 <= description.len() <= 1000
    }

    pub open spec fn valid_location(location: Seq<char>) -> bool {
        3 <= location.len() <= 100
    }

    /// A name has 50 to 100 characters.
    pub fn is_valid_name(name: &str) -> (r: Result<(), Error>)
        ensures
            r is Ok <==> Self::valid_name(name@),
            r is Err ==> rejects(r, name_rule()),
    {
        let n = name.unicode_len();
        if n >= 50 && n <= 100 {
            Ok(())
        } else {
            rejected("Name must be between 50 and 100 characters")
        }
    }

    /// A description has 1 to 1000 characters.
    pub fn is_valid_description(description: &str) -> (r: Result<(), Error>)
        ensures
            r is Ok <==> Self::valid_description(description@),
            r is Err ==> rejects(r, description_rule()),
    {
        let n = description.unicode_len();
        if n >= 1 && n <= 1000 {
            Ok(())
        } else {
            rejected("Description must be between 1 and 1000 characters")
        }
    }

    /// A price is greater than zero.
    pub fn is_valid_price(price: u64) -> (r: Result<(), Error>)
        ensures
            r is Ok <==> is_positive(price),
            r is Err ==> rejects(r, price_rule()),
    {
        if ZERO < price && price <= POSITIVE_INFINITY {
            Ok(())
        } else {
            rejected("Price must be greater than 0")
        }
    }

    /// A location has 3 to 100 characters.
    pub fn is_valid_location(location: &str) -> (r: Result<(), Error>)
        ensures
            r is Ok <==> Self::valid_location(location@),
            r is Err ==> rejects(r, location_rule()),
    {
        let n = location.unicode_len();
        if n >= 3 && n <= 100 {
            Ok(())
        } else {
            rejected("Location must be between 3 and 100 characters")
        }
    }

    /// A guessed price is greater than zero.
    pub fn is_valid_price_guess(price_guess: u64) -> (r: Result<(), Error>)
        ensures
            r is Ok <==> is_positive(price_guess),
            r is Err ==> rejects(r, price_guess_rule()),
    {
        if ZERO < price_guess && price_guess <= POSITIVE_INFINITY {
            Ok(())
        } else {
            rejected("Price guess must be greater than 0")
        }
    }
}

} // verus!
