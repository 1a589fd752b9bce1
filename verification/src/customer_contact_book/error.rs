//! Errors of the contact book and its value objects.
use vstd::string::StringExecFns;
use vstd::prelude::*;

verus! {

/// Reasons a phone number is not accepted.
#[derive(Debug, Clone, PartialEq, Eq, Structural)]
pub enum PhoneNumberError {
    /// The input holds nothing but white space.
    Empty,
    /// The digits are not a Belarus phone number.
    InvalidFormat,
}

/// Business-rule violations of the contact book.
#[derive(Debug, Clone, PartialEq, Eq, Structural)]
pub enum CustomerContactBookError {
    /// A phone contact was already added.
    PhoneAlreadyExists,
}

/// The text shown for a refused phone number.
pub open spec fn phone_number_error_message(e: PhoneNumberError) -> Seq<char> {
    match e {
        PhoneNumberError::Empty => "phone number is empty"@,
        PhoneNumberError::InvalidFormat => "invalid Belarus phone number format"@,
    }
}

impl PhoneNumberError {
    /// The text of the refusal.
    pub fn to_string(&self) -> (s: String)
        ensures
            s@ == phone_number_error_message(*self),
    {
        match self {
            PhoneNumberError::Empty => String::from_str("phone number is empty"),
            PhoneNumberError::InvalidFormat => String::from_str("invalid Belarus phone number format"),
        }
    }
}

impl CustomerContactBookError {
    /// The text of the refusal.
    pub fn to_string(&self) -> (s: String)
        ensures
            s@ == "phone contact already exists"@,
    {
        String::from_str("phone contact already exists")
    }
}

} // verus!
