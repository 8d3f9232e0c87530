//! The lines of text that the command-line front end shows.
//!
//! The wording of each line is fixed, letter for letter: it is what users
//! and their scripts see. An amount that is not a number is answered with
//! the same line, whether it was given as an income or as an expense.

use vstd::prelude::*;
use crate::decimal::{decimal, format_amount};

verus! {

/// The line that confirms an income of `amount`.
pub open spec fn credited_text(amount: int) -> Seq<char> {
    decimal(amount) + " has been credited to your account."@
}

/// The line that confirms an expense of `amount`.
pub open spec fn debited_text(amount: int) -> Seq<char> {
    decimal(amount) + " has been debited from your account."@
}

/// The line that repeats the description of a new entry.
pub open spec fn description_text(description: Seq<char>) -> Seq<char> {
    "Description: "@ + description
}

/// The line that reports the balance.
pub open spec fn balance_text(balance: int) -> Seq<char> {
    "You current balance is "@ + decimal(balance)
}

/// The line that reports the total of all expenses.
pub open spec fn total_expenses_text(total: int) -> Seq<char> {
    "Total expnses: "@ + decimal(total)
}

/// The line that reports the total of all incomes.
pub open spec fn total_income_text(total: int) -> Seq<char> {
    "Total Income: "@ + decimal(total)
}

/// The line that rejects an amount argument that is not a number.
pub open spec fn invalid_amount_text(argument: Seq<char>) -> Seq<char> {
    "Invalid input for income "@ + argument
}

/// The line that announces the passbook that was written to `file`.
pub open spec fn passbook_written_text(file: Seq<char>) -> Seq<char> {
    "PDF generated with the name: "@ + file
}

/// Builds [`credited_text`].
pub fn credited_line(amount: i32) -> (line: String)
    ensures
        line@ == credited_text(amount as int),
{
    let mut line = format_amount(amount);
    line.append(" has been credited to your account.");
    line
}

/// Builds [`debited_text`].
pub fn debited_line(amount: i32) -> (line: String)
    ensures
        line@ == debited_text(amount as int),
{
    let mut line = format_amount(amount);
    line.append(" has been debited from your account.");
    line
}

/// Builds [`description_text`].
pub fn description_line(description: &str) -> (line: String)
    ensures
        line@ == description_text(description@),
{
    let mut line = String::from_str("Description: ");
    line.append(description);
    line
}

/// Builds [`balance_text`].
pub fn balance_line(balance: i32) -> (line: String)
    ensures
        line@ == balance_text(balance as int),
{
    let mut line = String::from_str("You current balance is ");
    line.append(format_amount(balance).as_str());
    line
}

/// Builds [`total_expenses_text`].
pub fn total_expenses_line(total: i32) -> (line: String)
    ensures
        line@ == total_expenses_text(total as int),
{
    let mut line = String::from_str("Total expnses: ");
    line.append(format_amount(total).as_str());
    line
}

/// Builds [`total_income_text`].
pub fn total_income_line(total: i32) -> (line: String)
    ensures
        line@ == total_income_text(total as int),
{
    let mut line = String::from_str("Total Income: ");
    line.append(format_amount(total).as_str());
    line
}

/// Builds [`invalid_amount_text`].
pub fn invalid_amount_line(argument: &str) -> (line: String)
    ensures
        line@ == invalid_amount_text(argument@),
{
    let mut line = String::from_str("Invalid input for income ");
    line.append(argument);
    line
}

/// Builds [`passbook_written_text`].
pub fn passbook_written_line(file: &str) -> (line: String)
    ensures
        line@ == passbook_written_text(file@),
{
    let mut line = String::from_str("PDF generated with the name: ");
    line.append(file);
    line
}

} // verus!
