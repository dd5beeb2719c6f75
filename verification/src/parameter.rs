//! Named dimension values.

use core::marker::PhantomData;
use num_format::{Locale, ToFormattedString};
use vstd::prelude::*;
use vstd::string::StringExecFns;
use crate::text::{decimal, digit_char, natural_digits, push_decimal};

verus! {

/// One dimension value under a brand. Values of different brands have
/// different types, so that one cannot be passed where another is meant.
#[derive(Debug, PartialEq, PartialOrd, Hash)]
pub struct ParameterValue<Brand> {
    pub value: i64,
    pub brand: PhantomData<Brand>,
}

impl<Brand> View for ParameterValue<Brand> {
    type V = i64;

    open spec fn view(&self) -> i64 {
        self.value
    }
}

/// Three decimal digits, with leading zeros.
pub open spec fn three_digits(n: nat) -> Seq<char> {
    seq![
        digit_char((n / 100) as int),
        digit_char((n / 10 % 10) as int),
        digit_char((n % 10) as int),
    ]
}

/// The decimal digits of a natural number, with a comma before each group
/// of three digits but the first.
pub open spec fn grouped_digits(n: nat) -> Seq<char>
    decreases n,
{
    if n < 1000 {
        natural_digits(n)
    } else {
        grouped_digits(n / 1000) + seq![','] + three_digits(n % 1000)
    }
}

/// The text of an integer as English writes it: a minus sign where it is
/// negative, then its digits in groups of three.
pub open spec fn grouped(n: int) -> Seq<char> {
    if n < 0 {
        seq!['-'] + grouped_digits((-n) as nat)
    } else {
        grouped_digits(n as nat)
    }
}

/// Formats `value` with `num_format::ToFormattedString::to_formatted_string`
/// under `Locale::en`: the minus sign is `-`, the digits stand in groups of
/// three, and the separator is a comma.
#[verifier::external_body]
fn format_en(value: i64) -> (text: String)
    ensures
        text@ == grouped(value as int),
{
    value.to_formatted_string(&Locale::en)
}

impl<Brand> ParameterValue<Brand> {
    /// Gives `value` the brand.
    pub fn new(value: i64) -> (p: Self)
        ensures
            p@ == value,
    {
        ParameterValue { value, brand: PhantomData }
    }

    /// Returns the value.
    pub fn v(&self) -> (value: i64)
        ensures
            value == self@,
    {
        self.value
    }

    /// Returns the value by reference.
    pub fn as_ref(&self) -> (value: &i64)
        ensures
            *value == self@,
    {
        &self.value
    }

    /// Returns the value's text, with its digits in groups of three.
    pub fn display(&self) -> (text: String)
        ensures
            text@ == grouped(self@ as int),
    {
        format_en(self.value)
    }

    /// Returns the text of the value under the name of its type: the name,
    /// then the value's decimal text in round brackets.
    pub fn debug_string(&self, name: &str) -> (text: String)
        ensures
            text@ == name@ + seq!['('] + decimal(self@ as int) + seq![')'],
    {
        proof {
            reveal_strlit("(");
            reveal_strlit(")");
        }
        let mut text = String::from_str(name);
        text.append("(");
        push_decimal(&mut text, self.value);
        text.append(")");
        assert(text@ =~= name@ + seq!['('] + decimal(self@ as int) + seq![')']);
        text
    }
}

impl<Brand> From<i64> for ParameterValue<Brand> {
    fn from(value: i64) -> (p: Self) {
        ParameterValue { value, brand: PhantomData }
    }
}

impl<Brand> vstd::std_specs::convert::FromSpecImpl<i64> for ParameterValue<Brand> {
    open spec fn obeys_from_spec() -> bool {
        true
    }

    open spec fn from_spec(value: i64) -> Self {
        ParameterValue { value, brand: PhantomData }
    }
}

impl<Brand> From<ParameterValue<Brand>> for i64 {
    fn from(p: ParameterValue<Brand>) -> (value: i64) {
        p.value
    }
}

impl<Brand> vstd::std_specs::convert::FromSpecImpl<ParameterValue<Brand>> for i64 {
    open spec fn obeys_from_spec() -> bool {
        true
    }

    open spec fn from_spec(p: ParameterValue<Brand>) -> i64 {
        p@
    }
}

impl<Brand> core::ops::Deref for ParameterValue<Brand> {
    type Target = i64;

    fn deref(&self) -> (value: &i64)
        ensures
            *value == self@,
    {
        &self.value
    }
}

impl<Brand> core::ops::DerefMut for ParameterValue<Brand> {
    fn deref_mut(&mut self) -> (value: &mut i64)
        ensures
            *value == old(self)@,
            final(self)@ == *final(value),
    {
        &mut self.value
    }
}

impl<Brand> Clone for ParameterValue<Brand> {
    fn clone(&self) -> (p: Self)
        ensures
            p == *self,
    {
        ParameterValue { value: self.value, brand: PhantomData }
    }
}

impl<Brand> Copy for ParameterValue<Brand> {

}

impl<Brand> Default for ParameterValue<Brand> {
    fn default() -> (p: Self)
        ensures
            p@ == 0,
    {
        ParameterValue { value: 0, brand: PhantomData }
    }
}

} // verus!
