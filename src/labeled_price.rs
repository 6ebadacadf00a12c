//! A price portion of an invoice.
use vstd::prelude::*;

verus! {

/// A portion of the price of goods or services, with its label.
#[derive(Debug, PartialEq, Eq, Clone, Copy, Hash)]
pub struct LabeledPrice<'a> {
    label: &'a str,
    amount: u32,
}

impl<'a> LabeledPrice<'a> {
    /// The label of this portion.
    pub closed spec fn label_view(&self) -> Seq<char> {
        self.label@
    }

    /// The amount of this portion, in the smallest units of the currency.
    pub closed spec fn amount_view(&self) -> u32 {
        self.amount
    }

    /// Constructs a `LabeledPrice`.
    pub fn new(label: &'a str, amount: u32) -> (r: Self)
        ensures
            r.label_view() == label@,
            r.amount_view() == amount,
    {
        Self { label, amount }
    }

    /// The label of this portion.
    pub fn label(&self) -> (r: &'a str)
        ensures
            r@ == self.label_view(),
    {
        self.label
    }

    /// The amount of this portion, in the smallest units of the currency.
    pub fn amount(&self) -> (r: u32)
        ensures
            r == self.amount_view(),
    {
        self.amount
    }
}

} // verus!
