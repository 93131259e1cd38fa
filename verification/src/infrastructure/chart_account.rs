//! Chart-of-accounts entries offered when a journal transaction is entered.
use vstd::prelude::*;

use crate::text::{is_blank, trim};

verus! {

/// An account of the company's chart of accounts.
#[derive(Debug, PartialEq, Eq)]
pub struct ChartAccount {
    pub id: u32,
    pub name: String,
    pub display_name: String,
    /// The account type as the API names it, such as `ASSET` or `BANK`.
    pub account_type: String,
    pub system_account: bool,
}

impl ChartAccount {
    /// The name shown for the account: its display name, or its name when the
    /// display name is blank.
    pub open spec fn spec_label(self) -> Seq<char> {
        if is_blank(self.display_name@) {
            self.name@
        } else {
            self.display_name@
        }
    }

    /// The name shown for the account.
    pub fn label(&self) -> (r: String)
        ensures
            r@ == self.spec_label(),
    {
        if trim(self.display_name.as_str()).is_empty() {
            self.name.clone()
        } else {
            self.display_name.clone()
        }
    }
}

/// The accounts returned by a chart-of-accounts search; a `null` list arrives
/// as an empty one.
#[derive(Debug)]
pub struct ChartAccountSearchResponse {
    pub data: Vec<ChartAccount>,
}

} // verus!
