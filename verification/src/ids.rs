//! Identifiers that carry the kind of thing they name in their type.

use crate::text::{signed_decimal_text, signed_digits_of};
use std::marker::PhantomData;
use vstd::prelude::*;
use vstd::std_specs::convert::FromSpecImpl;

verus! {

/// A numeric identifier of a `T`.
#[derive(Debug, PartialEq, Eq, Hash)]
pub struct NumId<T> {
    value: i64,
    _mark: PhantomData<T>,
}

impl<T> View for NumId<T> {
    type V = i64;

    closed spec fn view(&self) -> i64 {
        self.value
    }
}

impl<T> Clone for NumId<T> {
    fn clone(&self) -> (r: Self)
        ensures
            r == *self,
    {
        Self { value: self.value, _mark: PhantomData }
    }
}

impl<T> Copy for NumId<T> {

}

impl<T> NumId<T> {
    /// The identifier with the number `id`.
    pub fn new(id: i64) -> (r: NumId<T>)
        ensures
            r@ == id,
    {
        Self { value: id, _mark: PhantomData }
    }

    /// The number of the identifier.
    pub fn as_ref(&self) -> (r: &i64)
        ensures
            *r == self@,
    {
        &self.value
    }

    /// The number of the identifier as a decimal numeral.
    pub fn to_text(&self) -> (r: String)
        ensures
            r@ == signed_digits_of(self@ as int),
    {
        signed_decimal_text(self.value)
    }

    /// The number of the identifier, without its kind.
    pub fn breach_extract(&self) -> (r: i64)
        ensures
            r == self@,
    {
        self.value
    }
}

/// A textual identifier of a `T`.
#[derive(Debug, PartialEq, Eq, Hash)]
pub struct StringId<T> {
    value: String,
    _mark: PhantomData<T>,
}

impl<T> View for StringId<T> {
    type V = Seq<char>;

    closed spec fn view(&self) -> Seq<char> {
        self.value@
    }
}

impl<T> Clone for StringId<T> {
    fn clone(&self) -> (r: Self)
        ensures
            r == *self,
    {
        Self { value: self.value.clone(), _mark: PhantomData }
    }
}

impl<T> Default for StringId<T> {
    /// The identifier with the empty text.
    fn default() -> (r: Self)
        ensures
            r@ == Seq::<char>::empty(),
    {
        Self { value: String::new(), _mark: PhantomData }
    }
}

impl<T> From<StringId<T>> for String {
    fn from(id: StringId<T>) -> (r: Self)
        ensures
            r@ == id@,
    {
        id.value
    }
}

impl<T> FromSpecImpl<StringId<T>> for String {
    open spec fn obeys_from_spec() -> bool {
        true
    }

    closed spec fn from_spec(id: StringId<T>) -> Self {
        id.value
    }
}

impl<T> StringId<T> {
    /// The identifier with the text `id`.
    pub fn new(id: &str) -> (r: StringId<T>)
        ensures
            r@ == id@,
    {
        Self { value: id.to_owned(), _mark: PhantomData }
    }

    /// The text of the identifier.
    pub fn as_ref(&self) -> (r: &str)
        ensures
            r@ == self@,
    {
        self.value.as_str()
    }

    /// Whether the identifier reads as `text`.
    pub fn same_text(&self, text: &String) -> (r: bool)
        ensures
            r == (self@ == text@),
    {
        self.value == *text
    }

    /// Whether both identifiers read the same.
    pub fn same(&self, other: &StringId<T>) -> (r: bool)
        ensures
            r == (self@ == other@),
    {
        self.value == other.value
    }

    /// A copy of the text of the identifier.
    pub fn to_text(&self) -> (r: String)
        ensures
            r@ == self@,
    {
        self.value.clone()
    }

    /// The text of the identifier, without its kind.
    pub fn breach_inner(self) -> (r: String)
        ensures
            r@ == self@,
    {
        self.value
    }
}

/// What a list of identifiers says, one by one.
pub open spec fn texts_of<T>(ids: Seq<StringId<T>>) -> Seq<Seq<char>> {
    ids.map_values(|id: StringId<T>| id@)
}

} // verus!
