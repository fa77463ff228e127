//! Entries of the sign-up list: ids, the text a user writes down, and the
//! pairs of entry or id with a receipt.

use vstd::prelude::*;
use vstd::string::StringExecFns;

use crate::signup_receipt::SignupReceipt;

verus! {

/// An ASCII decimal digit.
pub open spec fn is_ascii_digit(c: char) -> bool {
    '0' <= c <= '9'
}

/// The value of a string of decimal digits, most significant first.
pub open spec fn digits_value(s: Seq<char>) -> int
    decreases s.len(),
{
    if s.len() == 0 {
        0
    } else {
        digits_value(s.drop_last()) * 10 + (s.last() as int - 48)
    }
}

/// What `usize::from_str` accepts: an optional `+` followed by at least one
/// decimal digit and nothing else, whose value fits in a `usize`.
pub open spec fn parsed_usize(s: Seq<char>) -> Option<usize> {
    let digits = if s.len() > 0 && s[0] == '+' {
        s.drop_first()
    } else {
        s
    };
    if digits.len() > 0 && (forall|i: int| 0 <= i < digits.len() ==> is_ascii_digit(#[trigger] digits[i]))
        && digits_value(digits) <= usize::MAX {
        Some(digits_value(digits) as usize)
    } else {
        None
    }
}

/// Error of `usize::from_str`, carried through unchanged.
#[verifier::external_type_specification]
#[verifier::external_body]
pub struct ExParseIntError(std::num::ParseIntError);

/// `usize::from_str`: as its documentation states, the text must be an
/// optional `+` sign followed by decimal digits only, with a value that fits
/// in a `usize`; anything else is an error.
#[verifier::external_body]
fn parse_usize(s: &str) -> (res: Result<usize, std::num::ParseIntError>)
    ensures
        res is Ok <==> parsed_usize(s@) is Some,
        res matches Ok(v) ==> parsed_usize(s@) == Some(v),
{
    s.parse::<usize>()
}

/// The id of a sign-up: a number that names one entry of the list.
#[derive(Clone, Copy, Debug, PartialEq, Eq)]
pub struct SignupId(usize);

impl View for SignupId {
    type V = usize;

    closed spec fn view(&self) -> usize {
        self.0
    }
}

impl SignupId {
    /// An id with the given number.
    pub fn new(inner: usize) -> (res: Self)
        ensures
            res@ == inner,
    {
        SignupId(inner)
    }

    /// The id's number.
    pub fn value(&self) -> (res: usize)
        ensures
            res == self@,
    {
        self.0
    }

    /// Reads an id written in decimal (optionally after a `+`).
    pub fn parse(s: &str) -> (res: Result<Self, std::num::ParseIntError>)
        ensures
            res is Ok <==> parsed_usize(s@) is Some,
            res matches Ok(id) ==> parsed_usize(s@) == Some(id@),
    {
        match parse_usize(s) {
            Ok(v) => Ok(SignupId(v)),
            Err(e) => Err(e),
        }
    }
}

impl From<usize> for SignupId {
    fn from(inner: usize) -> (res: Self)
        ensures
            res@ == inner,
    {
        SignupId(inner)
    }
}

impl vstd::std_specs::convert::FromSpecImpl<usize> for SignupId {
    open spec fn obeys_from_spec() -> bool {
        true
    }

    closed spec fn from_spec(inner: usize) -> SignupId {
        SignupId(inner)
    }
}

impl std::str::FromStr for SignupId {
    type Err = std::num::ParseIntError;

    fn from_str(s: &str) -> (res: Result<Self, Self::Err>)
        ensures
            res is Ok <==> parsed_usize(s@) is Some,
            res matches Ok(id) ==> parsed_usize(s@) == Some(id@),
    {
        SignupId::parse(s)
    }
}

/// Whatever the user wrote down on the list (probably their name).
#[derive(Clone, Debug)]
pub struct SignupListEntryText(String);

impl View for SignupListEntryText {
    type V = Seq<char>;

    closed spec fn view(&self) -> Seq<char> {
        self.0@
    }
}

impl SignupListEntryText {
    /// The text as a string slice.
    pub fn as_str(&self) -> (res: &str)
        ensures
            res@ == self@,
    {
        self.0.as_str()
    }

    /// The text as an owned string (what the text is displayed as).
    pub fn to_string(&self) -> (res: String)
        ensures
            res@ == self@,
    {
        self.0.clone()
    }

    /// A text holding a copy of the given characters.
    pub fn from_text(s: &str) -> (res: Self)
        ensures
            res@ == s@,
    {
        SignupListEntryText(String::from_str(s))
    }
}

impl From<String> for SignupListEntryText {
    fn from(s: String) -> (res: Self)
        ensures
            res@ == s@,
    {
        SignupListEntryText(s)
    }
}

impl vstd::std_specs::convert::FromSpecImpl<String> for SignupListEntryText {
    open spec fn obeys_from_spec() -> bool {
        true
    }

    closed spec fn from_spec(s: String) -> SignupListEntryText {
        SignupListEntryText(s)
    }
}

impl std::str::FromStr for SignupListEntryText {
    type Err = std::convert::Infallible;

    fn from_str(s: &str) -> (res: Result<Self, Self::Err>)
        ensures
            res matches Ok(text) && text@ == s@,
    {
        Ok(SignupListEntryText::from_text(s))
    }
}

/// An entry on the sign-up list.
#[derive(Clone)]
pub struct SignupListEntry {
    pub id: SignupId,
    pub text: SignupListEntryText,
}

/// An entry together with the receipt that proves ownership of it.
#[derive(Clone)]
pub struct EntryAndReceipt {
    pub entry: SignupListEntry,
    pub receipt: SignupReceipt,
}

/// What a user keeps after signing up: the entry's id and its receipt.
#[derive(Clone, Copy)]
pub struct IdAndReceipt {
    pub id: SignupId,
    pub receipt: SignupReceipt,
}

impl EntryAndReceipt {
    /// The id and receipt of this entry, as handed back to the user.
    pub fn id_and_receipt(&self) -> (res: IdAndReceipt)
        ensures
            res.id == self.entry.id,
            res.receipt == self.receipt,
    {
        IdAndReceipt { id: self.entry.id, receipt: self.receipt }
    }
}

} // verus!
