//! The account: a balance and the ordered list of transactions behind it.

use vstd::prelude::*;
use crate::decimal::fits_i32;
use crate::messages::{
    balance_line, balance_text, credited_line, credited_text, debited_line, debited_text,
    description_line, description_text,
};
use crate::transaction::{Entry, Transaction};

verus! {

/// Sum of the amounts of the income entries of `entries`.
pub open spec fn income_sum(entries: Seq<Entry>) -> int
    decreases entries.len(),
{
    if entries.len() == 0 {
        0
    } else {
        income_sum(entries.drop_last()) + entries.last().income()
    }
}

/// Sum of the amounts of the expense entries of `entries`.
pub open spec fn expense_sum(entries: Seq<Entry>) -> int
    decreases entries.len(),
{
    if entries.len() == 0 {
        0
    } else {
        expense_sum(entries.drop_last()) + entries.last().expense()
    }
}

/// The model of an [`Account`]: an unbounded balance and the sequence of
/// entries in the order in which they were recorded.
pub struct Ledger {
    pub balance: int,
    pub transactions: Seq<Entry>,
}

impl Ledger {
    /// The ledger of a new account: balance zero, no entries.
    pub open spec fn empty() -> Ledger {
        Ledger { balance: 0, transactions: Seq::empty() }
    }

    /// Sum of all incomes.
    pub open spec fn total_income(self) -> int {
        income_sum(self.transactions)
    }

    /// Sum of all expenses.
    pub open spec fn total_expenses(self) -> int {
        expense_sum(self.transactions)
    }

    /// The invariant of a ledger: the balance is what the entries add up to,
    /// incomes counted positive and expenses negative.
    pub open spec fn balanced(self) -> bool {
        self.balance == self.total_income() - self.total_expenses()
    }

    /// The ledger after an income has been recorded.
    pub open spec fn credit(self, amount: int, description: Option<Seq<char>>) -> Ledger {
        Ledger {
            balance: self.balance + amount,
            transactions: self.transactions.push(Entry::Income { amount, description }),
        }
    }

    /// The ledger after an expense has been recorded.
    pub open spec fn debit(self, amount: int, description: Option<Seq<char>>) -> Ledger {
        Ledger {
            balance: self.balance - amount,
            transactions: self.transactions.push(Entry::Expense { amount, description }),
        }
    }

    /// The ledger after `entry` has been recorded.
    pub open spec fn record(self, entry: Entry) -> Ledger {
        match entry {
            Entry::Income { amount, description } => self.credit(amount, description),
            Entry::Expense { amount, description } => self.debit(amount, description),
        }
    }
}

/// The lines shown after an income of `amount` has been recorded: the
/// confirmation, then the description if there is one.
pub open spec fn credit_confirmation(
    amount: int,
    description: Option<Seq<char>>,
) -> Seq<Seq<char>> {
    match description {
        Some(text) => seq![credited_text(amount), description_text(text)],
        None => seq![credited_text(amount)],
    }
}

/// The lines shown after an expense of `amount` has been recorded: the
/// confirmation, then the description if there is one.
pub open spec fn debit_confirmation(
    amount: int,
    description: Option<Seq<char>>,
) -> Seq<Seq<char>> {
    match description {
        Some(text) => seq![debited_text(amount), description_text(text)],
        None => seq![debited_text(amount)],
    }
}

/// The ledger that results from recording `entries`, in order, in an empty
/// ledger.
pub open spec fn replay(entries: Seq<Entry>) -> Ledger
    decreases entries.len(),
{
    if entries.len() == 0 {
        Ledger::empty()
    } else {
        replay(entries.drop_last()).record(entries.last())
    }
}

/// Recording an entry in a balanced ledger leaves it balanced.
pub proof fn lemma_record_keeps_balanced(ledger: Ledger, entry: Entry)
    requires
        ledger.balanced(),
    ensures
        ledger.record(entry).balanced(),
{
    assert(ledger.record(entry).transactions.drop_last() =~= ledger.transactions);
}

/// Whatever incomes and expenses are recorded, in whatever order, starting
/// from an empty ledger: the entries are kept in that order, and the balance
/// is the sum of the incomes minus the sum of the expenses.
pub proof fn lemma_balance_is_income_minus_expenses(entries: Seq<Entry>)
    ensures
        replay(entries).transactions == entries,
        replay(entries).balance == income_sum(entries) - expense_sum(entries),
        replay(entries).balanced(),
    decreases entries.len(),
{
    if entries.len() > 0 {
        lemma_balance_is_income_minus_expenses(entries.drop_last());
    }
}

/// A ledger without entries has no income and no expenses.
pub proof fn lemma_totals_of_no_entries(ledger: Ledger)
    requires
        ledger.transactions.len() == 0,
    ensures
        ledger.total_income() == 0,
        ledger.total_expenses() == 0,
{
}

/// An account: the current balance and every transaction recorded so far,
/// oldest first.
#[derive(Debug, PartialEq, Eq)]
pub struct Account {
    pub balance: i32,
    pub transactions: Vec<Transaction>,
}

impl View for Account {
    type V = Ledger;

    open spec fn view(&self) -> Ledger {
        Ledger { balance: self.balance as int, transactions: self.transactions.deep_view() }
    }
}

impl Default for Account {
    /// The empty account.
    fn default() -> (account: Account)
        ensures
            account@ == Ledger::empty(),
            account@.balanced(),
    {
        Account::new()
    }
}

/// The confirmation line followed by the description line, if any.
fn confirmation_lines(first: String, description: &Option<String>) -> (lines: Vec<String>)
    ensures
        lines.deep_view() == match description.deep_view() {
            Some(text) => seq![first@, description_text(text)],
            None => seq![first@],
        },
{
    let mut lines: Vec<String> = Vec::new();
    lines.push(first);
    if let Some(text) = description {
        lines.push(description_line(text.as_str()));
    }
    lines
}

impl Account {
    /// An account with balance zero and no transactions.
    pub fn new() -> (account: Account)
        ensures
            account@ == Ledger::empty(),
            account@.balanced(),
    {
        let account = Account { balance: 0, transactions: Vec::new() };
        assert(account@.transactions =~= Seq::empty());
        account
    }

    /// The account that a session starts from: the saved one if there is
    /// one, the empty account otherwise.
    pub fn restore(saved: Option<Account>) -> (account: Account)
        ensures
            match saved {
                Some(found) => account == found,
                None => account@ == Ledger::empty(),
            },
    {
        match saved {
            Some(found) => found,
            None => Account::new(),
        }
    }

    /// Whether an income of `amount` can be recorded without the balance
    /// leaving the range of `i32`.
    pub fn can_add_income(&self, amount: i32) -> (possible: bool)
        ensures
            possible == fits_i32(self.balance + amount),
    {
        let sum: i64 = self.balance as i64 + amount as i64;
        -0x8000_0000 <= sum && sum <= 0x7fff_ffff
    }

    /// Whether an expense of `amount` can be recorded without the balance
    /// leaving the range of `i32`.
    pub fn can_add_expense(&self, amount: i32) -> (possible: bool)
        ensures
            possible == fits_i32(self.balance - amount),
    {
        let difference: i64 = self.balance as i64 - amount as i64;
        -0x8000_0000 <= difference && difference <= 0x7fff_ffff
    }

    /// Records an income: adds `amount` to the balance and appends the
    /// entry. Returns the lines that confirm it.
    pub fn add_income(
        &mut self,
        amount: i32,
        description: Option<String>,
    ) -> (confirmation: Vec<String>)
        requires
            fits_i32(old(self).balance + amount),
        ensures
            final(self)@ == old(self)@.credit(amount as int, description.deep_view()),
            old(self)@.balanced() ==> final(self)@.balanced(),
            confirmation.deep_view() == credit_confirmation(amount as int, description.deep_view()),
    {
        let confirmation = confirmation_lines(credited_line(amount), &description);
        self.balance = self.balance + amount;
        self.transactions.push(Transaction::Income { amount, description });
        assert(self@.transactions =~= old(self)@.transactions.push(
            Entry::Income { amount: amount as int, description: description.deep_view() },
        ));
        assert(self@.transactions.drop_last() =~= old(self)@.transactions);
        confirmation
    }

    /// Records an expense: subtracts `amount` from the balance and appends
    /// the entry. Returns the lines that confirm it.
    pub fn add_expense(
        &mut self,
        amount: i32,
        description: Option<String>,
    ) -> (confirmation: Vec<String>)
        requires
            fits_i32(old(self).balance - amount),
        ensures
            final(self)@ == old(self)@.debit(amount as int, description.deep_view()),
            old(self)@.balanced() ==> final(self)@.balanced(),
            confirmation.deep_view() == debit_confirmation(amount as int, description.deep_view()),
    {
        let confirmation = confirmation_lines(debited_line(amount), &description);
        self.balance = self.balance - amount;
        self.transactions.push(Transaction::Expense { amount, description });
        assert(self@.transactions =~= old(self)@.transactions.push(
            Entry::Expense { amount: amount as int, description: description.deep_view() },
        ));
        assert(self@.transactions.drop_last() =~= old(self)@.transactions);
        confirmation
    }

    /// Records an income if the new balance can be held in an `i32`, and
    /// returns the lines that confirm it. Otherwise leaves the account as it
    /// is and returns `None`.
    pub fn checked_add_income(
        &mut self,
        amount: i32,
        description: Option<String>,
    ) -> (confirmation: Option<Vec<String>>)
        ensures
            match confirmation {
                Some(lines) => {
                    &&& fits_i32(old(self).balance + amount)
                    &&& final(self)@ == old(self)@.credit(amount as int, description.deep_view())
                    &&& lines.deep_view() == credit_confirmation(
                        amount as int,
                        description.deep_view(),
                    )
                },
                None => !fits_i32(old(self).balance + amount) && *final(self) == *old(self),
            },
            old(self)@.balanced() ==> final(self)@.balanced(),
    {
        if self.can_add_income(amount) {
            Some(self.add_income(amount, description))
        } else {
            None
        }
    }

    /// Records an expense if the new balance can be held in an `i32`, and
    /// returns the lines that confirm it. Otherwise leaves the account as it
    /// is and returns `None`.
    pub fn checked_add_expense(
        &mut self,
        amount: i32,
        description: Option<String>,
    ) -> (confirmation: Option<Vec<String>>)
        ensures
            match confirmation {
                Some(lines) => {
                    &&& fits_i32(old(self).balance - amount)
                    &&& final(self)@ == old(self)@.debit(amount as int, description.deep_view())
                    &&& lines.deep_view() == debit_confirmation(
                        amount as int,
                        description.deep_view(),
                    )
                },
                None => !fits_i32(old(self).balance - amount) && *final(self) == *old(self),
            },
            old(self)@.balanced() ==> final(self)@.balanced(),
    {
        if self.can_add_expense(amount) {
            Some(self.add_expense(amount, description))
        } else {
            None
        }
    }

    /// The line that reports the current balance.
    pub fn show_balance(&self) -> (line: String)
        ensures
            line@ == balance_text(self@.balance),
    {
        balance_line(self.balance)
    }

    /// Sum of the incomes, in an integer wide enough for any account.
    fn income_total(&self) -> (total: i128)
        ensures
            total == self@.total_income(),
    {
        let mut total: i128 = 0;
        let count = self.transactions.len();
        for i in 0..count
            invariant
                count == self.transactions.len(),
                total == income_sum(self@.transactions.take(i as int)),
                -0x8000_0000 * i <= total <= 0x8000_0000 * i,
        {
            assert(self@.transactions.take(i + 1).drop_last() =~= self@.transactions.take(
                i as int,
            ));
            match &self.transactions[i] {
                Transaction::Income { amount, .. } => {
                    total = total + *amount as i128;
                },
                Transaction::Expense { .. } => {},
            }
        }
        assert(self@.transactions.take(count as int) =~= self@.transactions);
        total
    }

    /// Sum of the expenses, in an integer wide enough for any account.
    fn expense_total(&self) -> (total: i128)
        ensures
            total == self@.total_expenses(),
    {
        let mut total: i128 = 0;
        let count = self.transactions.len();
        for i in 0..count
            invariant
                count == self.transactions.len(),
                total == expense_sum(self@.transactions.take(i as int)),
                -0x8000_0000 * i <= total <= 0x8000_0000 * i,
        {
            assert(self@.transactions.take(i + 1).drop_last() =~= self@.transactions.take(
                i as int,
            ));
            match &self.transactions[i] {
                Transaction::Income { .. } => {},
                Transaction::Expense { amount, .. } => {
                    total = total + *amount as i128;
                },
            }
        }
        assert(self@.transactions.take(count as int) =~= self@.transactions);
        total
    }

    /// Sum of the amounts of all income transactions, or `None` if that sum
    /// cannot be held in an `i32`.
    pub fn checked_total_income(&self) -> (total: Option<i32>)
        ensures
            total == if fits_i32(self@.total_income()) {
                Some(self@.total_income() as i32)
            } else {
                None
            },
    {
        let total = self.income_total();
        if -0x8000_0000 <= total && total <= 0x7fff_ffff {
            Some(total as i32)
        } else {
            None
        }
    }

    /// Sum of the amounts of all expense transactions, or `None` if that sum
    /// cannot be held in an `i32`.
    pub fn checked_total_expenses(&self) -> (total: Option<i32>)
        ensures
            total == if fits_i32(self@.total_expenses()) {
                Some(self@.total_expenses() as i32)
            } else {
                None
            },
    {
        let total = self.expense_total();
        if -0x8000_0000 <= total && total <= 0x7fff_ffff {
            Some(total as i32)
        } else {
            None
        }
    }

    /// Sum of the amounts of all income transactions; zero if there are
    /// none.
    pub fn total_income(&self) -> (total: i32)
        requires
            fits_i32(self@.total_income()),
        ensures
            total == self@.total_income(),
            self@.transactions.len() == 0 ==> total == 0,
    {
        self.income_total() as i32
    }

    /// Sum of the amounts of all expense transactions; zero if there are
    /// none.
    pub fn total_expenses(&self) -> (total: i32)
        requires
            fits_i32(self@.total_expenses()),
        ensures
            total == self@.total_expenses(),
            self@.transactions.len() == 0 ==> total == 0,
    {
        self.expense_total() as i32
    }
}

} // verus!
