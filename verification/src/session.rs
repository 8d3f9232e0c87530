//! One run of the command-line front end: what is recorded, shown, exported
//! and saved for a given set of arguments.

use vstd::prelude::*;
use crate::account::{
    credit_confirmation, debit_confirmation, lemma_record_keeps_balanced, Account, Ledger,
};
use crate::decimal::{denoted_amount, fits_i32, parse_amount};
use crate::messages::{
    balance_text, invalid_amount_line, invalid_amount_text, passbook_written_line,
    passbook_written_text, total_expenses_line, total_expenses_text, total_income_line,
    total_income_text,
};
use crate::passbook::{passbook, PassbookPage, PlacedText};
use crate::transaction::{clone_description, Entry};

verus! {

/// Name of the file that holds the account between runs.
pub const ACCOUNT_FILE: &'static str = "account_data.json";

/// Name of the file that an exported passbook is written to.
pub const PASSBOOK_FILE: &'static str = "transaction_history.pdf";

/// What one run was asked to do, as given on the command line.
#[derive(Debug, PartialEq, Eq)]
pub struct Request {
    /// The amount of an income to record, as it was typed.
    pub income: Option<String>,
    /// The amount of an expense to record, as it was typed.
    pub expense: Option<String>,
    /// The description of the income, of the expense, or of both.
    pub description: Option<String>,
    /// Whether to show the balance.
    pub balance: bool,
    /// Whether to show the total of all expenses.
    pub total_expense: bool,
    /// Whether to show the total of all incomes.
    pub total_income: bool,
    /// Whether to export the passbook.
    pub passbook: bool,
}

/// The model of a [`Request`].
pub struct RequestView {
    pub income: Option<Seq<char>>,
    pub expense: Option<Seq<char>>,
    pub description: Option<Seq<char>>,
    pub balance: bool,
    pub total_expense: bool,
    pub total_income: bool,
    pub passbook: bool,
}

impl View for Request {
    type V = RequestView;

    open spec fn view(&self) -> RequestView {
        RequestView {
            income: self.income.deep_view(),
            expense: self.expense.deep_view(),
            description: self.description.deep_view(),
            balance: self.balance,
            total_expense: self.total_expense,
            total_income: self.total_income,
            passbook: self.passbook,
        }
    }
}

/// One thing for the front end to do. It carries out the actions of a run in
/// the order in which they are given.
#[derive(Debug, PartialEq, Eq)]
pub enum Action {
    /// Show a line of text.
    Print(String),
    /// Write these pages to [`PASSBOOK_FILE`].
    ExportPassbook(Vec<PassbookPage>),
    /// Write the account to [`ACCOUNT_FILE`], replacing what was there.
    Save,
    /// Stop without saving: a balance or a total has left the range of
    /// `i32`.
    Abort,
}

/// The model of an [`Action`].
pub enum ActionView {
    Print(Seq<char>),
    ExportPassbook(Seq<Seq<PlacedText>>),
    Save,
    Abort,
}

impl View for Action {
    type V = ActionView;

    open spec fn view(&self) -> ActionView {
        match self {
            Action::Print(line) => ActionView::Print(line@),
            Action::ExportPassbook(pages) => ActionView::ExportPassbook(pages.deep_view()),
            Action::Save => ActionView::Save,
            Action::Abort => ActionView::Abort,
        }
    }
}

impl DeepView for Action {
    type V = ActionView;

    open spec fn deep_view(&self) -> ActionView {
        self.view()
    }
}

/// The state of a run between two of its steps.
pub struct Session {
    /// The account as it stands.
    pub ledger: Ledger,
    /// The actions decided so far.
    pub actions: Seq<ActionView>,
    /// Whether the run is still going; once it has been aborted, the
    /// remaining steps do nothing.
    pub running: bool,
}

impl Session {
    /// The state at the beginning of a run.
    pub open spec fn start(ledger: Ledger) -> Session {
        Session { ledger, actions: Seq::empty(), running: true }
    }

    /// The state after one more action.
    pub open spec fn emit(self, action: ActionView) -> Session {
        Session { actions: self.actions.push(action), ..self }
    }

    /// The state after `lines` have been shown, one after the other.
    pub open spec fn say(self, lines: Seq<Seq<char>>) -> Session {
        Session {
            actions: self.actions + lines.map_values(|line: Seq<char>| ActionView::Print(line)),
            ..self
        }
    }

    /// The state after the run has been aborted.
    pub open spec fn abort(self) -> Session {
        Session { actions: self.actions.push(ActionView::Abort), running: false, ..self }
    }

    /// Records the income, if one was asked for. An amount that is not a
    /// number is reported and skipped.
    pub open spec fn income_step(self, request: RequestView) -> Session {
        if !self.running {
            self
        } else {
            match request.income {
                None => self,
                Some(argument) => match denoted_amount(argument) {
                    None => self.emit(ActionView::Print(invalid_amount_text(argument))),
                    Some(amount) => if fits_i32(self.ledger.balance + amount) {
                        Session {
                            ledger: self.ledger.credit(amount as int, request.description),
                            ..self
                        }.say(credit_confirmation(amount as int, request.description))
                    } else {
                        self.abort()
                    },
                },
            }
        }
    }

    /// Records the expense, if one was asked for. An amount that is not a
    /// number is reported and skipped.
    pub open spec fn expense_step(self, request: RequestView) -> Session {
        if !self.running {
            self
        } else {
            match request.expense {
                None => self,
                Some(argument) => match denoted_amount(argument) {
                    None => self.emit(ActionView::Print(invalid_amount_text(argument))),
                    Some(amount) => if fits_i32(self.ledger.balance - amount) {
                        Session {
                            ledger: self.ledger.debit(amount as int, request.description),
                            ..self
                        }.say(debit_confirmation(amount as int, request.description))
                    } else {
                        self.abort()
                    },
                },
            }
        }
    }

    /// Shows the balance, if that was asked for.
    pub open spec fn balance_step(self, request: RequestView) -> Session {
        if self.running && request.balance {
            self.emit(ActionView::Print(balance_text(self.ledger.balance)))
        } else {
            self
        }
    }

    /// Shows the total of all expenses, if that was asked for.
    pub open spec fn total_expense_step(self, request: RequestView) -> Session {
        if self.running && request.total_expense {
            if fits_i32(self.ledger.total_expenses()) {
                self.emit(ActionView::Print(total_expenses_text(self.ledger.total_expenses())))
            } else {
                self.abort()
            }
        } else {
            self
        }
    }

    /// Shows the total of all incomes, if that was asked for.
    pub open spec fn total_income_step(self, request: RequestView) -> Session {
        if self.running && request.total_income {
            if fits_i32(self.ledger.total_income()) {
                self.emit(ActionView::Print(total_income_text(self.ledger.total_income())))
            } else {
                self.abort()
            }
        } else {
            self
        }
    }

    /// Exports the passbook and says so, if that was asked for.
    pub open spec fn passbook_step(self, request: RequestView) -> Session {
        if self.running && request.passbook {
            self.emit(ActionView::ExportPassbook(passbook(self.ledger.transactions))).emit(
                ActionView::Print(passbook_written_text(PASSBOOK_FILE@)),
            )
        } else {
            self
        }
    }

    /// Saves the account, unless the run was aborted.
    pub open spec fn save_step(self) -> Session {
        if self.running {
            self.emit(ActionView::Save)
        } else {
            self
        }
    }
}

/// A whole run on `ledger`: the income, the expense, the balance, the total
/// of the expenses, the total of the incomes, the passbook, and the save, in
/// this order.
pub open spec fn run(ledger: Ledger, request: RequestView) -> Session {
    Session::start(ledger)
        .income_step(request)
        .expense_step(request)
        .balance_step(request)
        .total_expense_step(request)
        .total_income_step(request)
        .passbook_step(request)
        .save_step()
}

/// A run leaves a balanced ledger balanced, whatever was asked for.
pub proof fn lemma_run_keeps_balanced(ledger: Ledger, request: RequestView)
    requires
        ledger.balanced(),
    ensures
        run(ledger, request).ledger.balanced(),
{
    let begun = Session::start(ledger);
    let credited = begun.income_step(request);
    assert(credited.ledger.balanced()) by {
        if credited.ledger != ledger {
            let amount = denoted_amount(request.income->0)->0;
            lemma_record_keeps_balanced(
                ledger,
                Entry::Income { amount: amount as int, description: request.description },
            );
        }
    }
    let debited = credited.expense_step(request);
    assert(debited.ledger.balanced()) by {
        if debited.ledger != credited.ledger {
            let amount = denoted_amount(request.expense->0)->0;
            lemma_record_keeps_balanced(
                credited.ledger,
                Entry::Expense { amount: amount as int, description: request.description },
            );
        }
    }
}

/// A run never changes or removes an entry: it appends at most the income
/// and the expense that were asked for, in this order.
pub proof fn lemma_run_only_appends(ledger: Ledger, request: RequestView)
    ensures
        ({
            let before = ledger.transactions;
            let after = run(ledger, request).ledger.transactions;
            &&& before.len() <= after.len() <= before.len() + 2
            &&& after.take(before.len() as int) == before
        }),
{
    let credited = Session::start(ledger).income_step(request).ledger.transactions;
    assert(credited.take(ledger.transactions.len() as int) == ledger.transactions);
}

/// Whether the actions of `session` hold no save, and an abort exactly if
/// the run was aborted, as the last of them.
spec fn settled(session: Session) -> bool {
    let actions = session.actions;
    &&& forall|i: int|
        0 <= i < actions.len() - 1 ==> !(#[trigger] actions[i] is Save) && !(actions[i] is Abort)
    &&& if session.running {
        actions.len() > 0 ==> !(actions.last() is Save) && !(actions.last() is Abort)
    } else {
        actions.len() > 0 && actions.last() is Abort
    }
}

/// Showing lines keeps a running session settled.
proof fn lemma_say_keeps_settled(session: Session, lines: Seq<Seq<char>>)
    requires
        settled(session),
        session.running,
    ensures
        settled(session.say(lines)),
        session.say(lines).running,
{
}

/// Recording the income keeps a session settled.
proof fn lemma_income_step_keeps_settled(session: Session, request: RequestView)
    requires
        settled(session),
    ensures
        settled(session.income_step(request)),
{
    if session.running && request.income is Some {
        let argument = request.income->0;
        if denoted_amount(argument) is Some {
            let amount = denoted_amount(argument)->0;
            let credited = Session {
                ledger: session.ledger.credit(amount as int, request.description),
                ..session
            };
            lemma_say_keeps_settled(
                credited,
                credit_confirmation(amount as int, request.description),
            );
        }
    }
}

/// Recording the expense keeps a session settled.
proof fn lemma_expense_step_keeps_settled(session: Session, request: RequestView)
    requires
        settled(session),
    ensures
        settled(session.expense_step(request)),
{
    if session.running && request.expense is Some {
        let argument = request.expense->0;
        if denoted_amount(argument) is Some {
            let amount = denoted_amount(argument)->0;
            let debited = Session {
                ledger: session.ledger.debit(amount as int, request.description),
                ..session
            };
            lemma_say_keeps_settled(
                debited,
                debit_confirmation(amount as int, request.description),
            );
        }
    }
}

/// The reports keep a session settled.
proof fn lemma_report_steps_keep_settled(session: Session, request: RequestView)
    requires
        settled(session),
    ensures
        settled(session.balance_step(request)),
        settled(session.balance_step(request).total_expense_step(request)),
        settled(
            session.balance_step(request).total_expense_step(request).total_income_step(request),
        ),
{
}

/// Exporting the passbook keeps a session settled.
proof fn lemma_passbook_step_keeps_settled(session: Session, request: RequestView)
    requires
        settled(session),
    ensures
        settled(session.passbook_step(request)),
{
}

/// The last action of a run is to save the account or to abort, and neither
/// happens earlier in the run.
pub proof fn lemma_run_ends_with_save_or_abort(ledger: Ledger, request: RequestView)
    ensures
        ({
            let actions = run(ledger, request).actions;
            &&& actions.len() > 0
            &&& actions.last() is Save || actions.last() is Abort
            &&& forall|i: int|
                0 <= i < actions.len() - 1 ==> !(#[trigger] actions[i] is Save) && !(actions[i] is Abort)
        }),
{
    let begun = Session::start(ledger);
    let credited = begun.income_step(request);
    let debited = credited.expense_step(request);
    let reported = debited
        .balance_step(request)
        .total_expense_step(request)
        .total_income_step(request);
    let listed = reported.passbook_step(request);
    lemma_income_step_keeps_settled(begun, request);
    lemma_expense_step_keeps_settled(credited, request);
    lemma_report_steps_keep_settled(debited, request);
    lemma_passbook_step_keeps_settled(reported, request);
}

/// The state of a run, from what the front end holds.
spec fn session_of(account: &Account, actions: &Vec<Action>, running: bool) -> Session {
    Session { ledger: account@, actions: actions.deep_view(), running }
}

/// Adds one action to the list.
fn emit(actions: &mut Vec<Action>, action: Action)
    ensures
        final(actions).deep_view() == old(actions).deep_view().push(action@),
{
    actions.push(action);
}

/// Adds an action for each line, to show them one after the other.
fn say(actions: &mut Vec<Action>, lines: &Vec<String>)
    ensures
        final(actions).deep_view() == old(actions).deep_view() + lines.deep_view().map_values(
            |line: Seq<char>| ActionView::Print(line),
        ),
{
    let ghost shown = lines.deep_view().map_values(|line: Seq<char>| ActionView::Print(line));
    for i in 0..lines.len()
        invariant
            shown == lines.deep_view().map_values(|line: Seq<char>| ActionView::Print(line)),
            actions.deep_view() == old(actions).deep_view() + shown.take(i as int),
    {
        emit(actions, Action::Print(lines[i].clone()));
    }
}

/// Records the income, if one was asked for.
fn income_step(
    account: &mut Account,
    request: &Request,
    actions: &mut Vec<Action>,
) -> (running: bool)
    ensures
        session_of(final(account), final(actions), running) == session_of(
            old(account),
            old(actions),
            true,
        ).income_step(request@),
{
    match &request.income {
        None => true,
        Some(argument) => match parse_amount(argument.as_str()) {
            None => {
                emit(actions, Action::Print(invalid_amount_line(argument.as_str())));
                true
            },
            Some(amount) => {
                let description = clone_description(&request.description);
                match account.checked_add_income(amount, description) {
                    Some(lines) => {
                        say(actions, &lines);
                        true
                    },
                    None => {
                        emit(actions, Action::Abort);
                        false
                    },
                }
            },
        },
    }
}

/// Records the expense, if one was asked for.
fn expense_step(
    account: &mut Account,
    request: &Request,
    actions: &mut Vec<Action>,
) -> (running: bool)
    ensures
        session_of(final(account), final(actions), running) == session_of(
            old(account),
            old(actions),
            true,
        ).expense_step(request@),
{
    match &request.expense {
        None => true,
        Some(argument) => match parse_amount(argument.as_str()) {
            None => {
                emit(actions, Action::Print(invalid_amount_line(argument.as_str())));
                true
            },
            Some(amount) => {
                let description = clone_description(&request.description);
                match account.checked_add_expense(amount, description) {
                    Some(lines) => {
                        say(actions, &lines);
                        true
                    },
                    None => {
                        emit(actions, Action::Abort);
                        false
                    },
                }
            },
        },
    }
}

/// The reports of a run: balance, total of the expenses, total of the
/// incomes, as far as they were asked for.
fn report_steps(account: &Account, request: &Request, actions: &mut Vec<Action>) -> (running: bool)
    ensures
        session_of(account, final(actions), running) == session_of(
            account,
            old(actions),
            true,
        ).balance_step(request@).total_expense_step(request@).total_income_step(request@),
{
    if request.balance {
        emit(actions, Action::Print(account.show_balance()));
    }
    if request.total_expense {
        match account.checked_total_expenses() {
            Some(total) => emit(actions, Action::Print(total_expenses_line(total))),
            None => {
                emit(actions, Action::Abort);
                return false;
            },
        }
    }
    if request.total_income {
        match account.checked_total_income() {
            Some(total) => emit(actions, Action::Print(total_income_line(total))),
            None => {
                emit(actions, Action::Abort);
                return false;
            },
        }
    }
    true
}

/// Decides what one run does: changes `account` as the request asks, and
/// returns what the front end has to show, export and save, in order.
pub fn call_alfred(account: &mut Account, request: &Request) -> (actions: Vec<Action>)
    ensures
        final(account)@ == run(old(account)@, request@).ledger,
        actions.deep_view() == run(old(account)@, request@).actions,
        old(account)@.balanced() ==> final(account)@.balanced(),
{
    let mut actions: Vec<Action> = Vec::new();
    assert(actions.deep_view() =~= Seq::empty());
    proof {
        if account@.balanced() {
            lemma_run_keeps_balanced(account@, request@);
        }
    }
    if !income_step(account, request, &mut actions) {
        return actions;
    }
    if !expense_step(account, request, &mut actions) {
        return actions;
    }
    if !report_steps(account, request, &mut actions) {
        return actions;
    }
    if request.passbook {
        emit(&mut actions, Action::ExportPassbook(account.generate_passbook()));
        emit(&mut actions, Action::Print(passbook_written_line(PASSBOOK_FILE)));
    }
    emit(&mut actions, Action::Save);
    actions
}

} // verus!
