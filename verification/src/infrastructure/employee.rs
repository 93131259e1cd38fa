//! Employees offered when a journal transaction is entered.
use vstd::prelude::*;

verus! {

/// An employee of the company.
#[derive(Debug, PartialEq, Eq)]
pub struct Employee {
    pub id: u16,
    pub name: String,
    pub active: bool,
}

/// The employees returned by an employee search; a `null` list arrives as an
/// empty one.
#[derive(Debug)]
pub struct EmployeeSearchResponse {
    pub data: Vec<Employee>,
}

} // verus!
