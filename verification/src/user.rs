//! A record whose fields may own their text or borrow it.

use vstd::prelude::*;
use crate::cow::CowValue;

verus! {

/// A person's name in two parts, each held either by reference or by value.
/// The fields are set at construction and only read afterwards.
pub struct User<'a> {
    first_name: CowValue<'a, str>,
    last_name: CowValue<'a, str>,
}

impl<'a> User<'a> {
    /// The container that holds the first name.
    pub closed spec fn first_name_field(&self) -> CowValue<'a, str> {
        self.first_name
    }

    /// The container that holds the last name.
    pub closed spec fn last_name_field(&self) -> CowValue<'a, str> {
        self.last_name
    }

    /// A user that owns both names.
    pub fn new_owned(first_name: String, last_name: String) -> (user: User<'a>)
        ensures
            user.first_name_field() == CowValue::<'a, str>::Owned(first_name),
            user.last_name_field() == CowValue::<'a, str>::Owned(last_name),
    {
        User { first_name: CowValue::Owned(first_name), last_name: CowValue::Owned(last_name) }
    }

    /// A user that borrows both names from the caller.
    pub fn new_borrowed(first_name: &'a str, last_name: &'a str) -> (user: Self)
        ensures
            user.first_name_field() == CowValue::<'a, str>::Borrowed(first_name),
            user.last_name_field() == CowValue::<'a, str>::Borrowed(last_name),
    {
        Self { first_name: CowValue::Borrowed(first_name), last_name: CowValue::Borrowed(last_name) }
    }

    /// The first name, read the same way whether it is owned or borrowed.
    pub fn first_name(&self) -> (name: &str)
        ensures
            name@ == self.first_name_field()@,
            self.first_name_field() matches CowValue::Borrowed(source) ==> name == source,
    {
        self.first_name.as_ref()
    }

    /// The last name, read the same way whether it is owned or borrowed.
    pub fn last_name(&self) -> (name: &str)
        ensures
            name@ == self.last_name_field()@,
            self.last_name_field() matches CowValue::Borrowed(source) ==> name == source,
    {
        self.last_name.as_ref()
    }
}

} // verus!
