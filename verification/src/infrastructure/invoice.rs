//! Invoices that payments, discounts and surcharges refer to.
use vstd::prelude::*;

use crate::infrastructure::json::JsonValue;

verus! {

/// An open invoice. Money is held in cents.
#[derive(Debug, PartialEq)]
pub struct Invoice {
    pub id: JsonValue,
    pub number: String,
    pub cost: i64,
    pub payment: i64,
    pub balance: i64,
    pub discount: i64,
}

impl Invoice {
    /// The invoice id as text: a string id as it is, a number as its JSON text,
    /// and any other value as the empty text.
    pub open spec fn spec_id_string(self) -> Seq<char> {
        match self.id {
            JsonValue::Text { value, json } => value@,
            JsonValue::Number(t) => t@,
            _ => Seq::<char>::empty(),
        }
    }

    /// The invoice id as text.
    pub fn id_string(&self) -> (r: String)
        ensures
            r@ == self.spec_id_string(),
    {
        match &self.id {
            JsonValue::Text { value, json } => value.clone(),
            JsonValue::Number(t) => t.clone(),
            _ => String::new(),
        }
    }
}

/// The invoices returned by an invoice search; a `null` list arrives as an
/// empty one.
#[derive(Debug)]
pub struct InvoiceSearchResponse {
    pub data: Vec<Invoice>,
}

} // verus!
