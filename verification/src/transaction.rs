//! A single ledger entry and its mathematical model.

use vstd::prelude::*;

verus! {

/// One entry of the ledger. An entry is never changed or removed once it has
/// been recorded.
#[derive(Debug, PartialEq, Eq)]
pub enum Transaction {
    /// Money received, in whole units.
    Income { amount: i32, description: Option<String> },
    /// Money spent, in whole units.
    Expense { amount: i32, description: Option<String> },
}

/// The model of a [`Transaction`]: the amount as a mathematical integer and
/// the description as a sequence of characters.
pub enum Entry {
    Income { amount: int, description: Option<Seq<char>> },
    Expense { amount: int, description: Option<Seq<char>> },
}

impl Entry {
    /// The amount of the entry, whatever its kind.
    pub open spec fn amount(self) -> int {
        match self {
            Entry::Income { amount, .. } => amount,
            Entry::Expense { amount, .. } => amount,
        }
    }

    /// The description of the entry, if it has one.
    pub open spec fn description(self) -> Option<Seq<char>> {
        match self {
            Entry::Income { description, .. } => description,
            Entry::Expense { description, .. } => description,
        }
    }

    /// What the entry adds to the total income: its amount if it is an
    /// income, nothing otherwise.
    pub open spec fn income(self) -> int {
        match self {
            Entry::Income { amount, .. } => amount,
            Entry::Expense { .. } => 0,
        }
    }

    /// What the entry adds to the total expenses: its amount if it is an
    /// expense, nothing otherwise.
    pub open spec fn expense(self) -> int {
        match self {
            Entry::Income { .. } => 0,
            Entry::Expense { amount, .. } => amount,
        }
    }
}

impl View for Transaction {
    type V = Entry;

    open spec fn view(&self) -> Entry {
        match self {
            Transaction::Income { amount, description } => Entry::Income {
                amount: *amount as int,
                description: description.deep_view(),
            },
            Transaction::Expense { amount, description } => Entry::Expense {
                amount: *amount as int,
                description: description.deep_view(),
            },
        }
    }
}

impl DeepView for Transaction {
    type V = Entry;

    open spec fn deep_view(&self) -> Entry {
        self.view()
    }
}

impl Clone for Transaction {
    /// A transaction of the same kind, with the same amount and description.
    fn clone(&self) -> (copy: Self)
        ensures
            copy@ == self@,
    {
        match self {
            Transaction::Income { amount, description } => Transaction::Income {
                amount: *amount,
                description: clone_description(description),
            },
            Transaction::Expense { amount, description } => Transaction::Expense {
                amount: *amount,
                description: clone_description(description),
            },
        }
    }
}

/// A copy of an optional description.
pub(crate) fn clone_description(description: &Option<String>) -> (copy: Option<String>)
    ensures
        copy.deep_view() == description.deep_view(),
{
    match description {
        Some(text) => Some(text.clone()),
        None => None,
    }
}

impl Transaction {
    /// The amount of the transaction, whatever its kind.
    pub fn amount(&self) -> (amount: i32)
        ensures
            amount == self@.amount(),
    {
        match self {
            Transaction::Income { amount, .. } => *amount,
            Transaction::Expense { amount, .. } => *amount,
        }
    }

    /// The description of the transaction, if it has one.
    pub fn description(&self) -> (description: Option<&str>)
        ensures
            description.deep_view() == self@.description(),
    {
        match self {
            Transaction::Income { description, .. } => match description {
                Some(text) => Some(text.as_str()),
                None => None,
            },
            Transaction::Expense { description, .. } => match description {
                Some(text) => Some(text.as_str()),
                None => None,
            },
        }
    }

    /// Whether the transaction is an income.
    pub fn is_income(&self) -> (income: bool)
        ensures
            income == (self@ is Income),
    {
        match self {
            Transaction::Income { .. } => true,
            Transaction::Expense { .. } => false,
        }
    }

    /// Whether the transaction is an expense.
    pub fn is_expense(&self) -> (expense: bool)
        ensures
            expense == (self@ is Expense),
    {
        match self {
            Transaction::Income { .. } => false,
            Transaction::Expense { .. } => true,
        }
    }
}

} // verus!
