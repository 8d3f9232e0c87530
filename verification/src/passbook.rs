//! The passbook: a printable statement that lists every transaction, laid
//! out on pages. This module decides what text goes where; drawing the pages
//! is left to the caller.

use vstd::prelude::*;
use crate::account::Account;
use crate::decimal::{decimal, format_amount};
use crate::transaction::{Entry, Transaction};

verus! {

/// Width of a page, in millimetres.
pub const PAGE_WIDTH: u32 = 210;

/// Height of a page, in millimetres.
pub const PAGE_HEIGHT: u32 = 297;

/// Distance of every line from the left edge of the page, in millimetres.
pub const LEFT_MARGIN: u32 = 10;

/// Font size of a page heading, in points.
pub const HEADING_SIZE: u32 = 24;

/// Font size of a transaction line, in points.
pub const ENTRY_SIZE: u32 = 12;

/// Height of the heading above the bottom edge on the first page, in
/// millimetres.
pub const FIRST_HEADING_Y: u32 = 200;

/// Height of the heading above the bottom edge on every later page, in
/// millimetres.
pub const LATER_HEADING_Y: u32 = 280;

/// Distance between a heading and the first transaction line below it, in
/// millimetres.
pub const HEADING_GAP: u32 = 20;

/// Distance between two transaction lines, in millimetres.
pub const LINE_GAP: u32 = 10;

/// Lowest height at which a transaction line is drawn, in millimetres.
pub const BOTTOM_MARGIN: u32 = 20;

/// One line of text at its place on a page.
#[derive(Debug, PartialEq, Eq)]
pub struct PassbookLine {
    pub text: String,
    /// Font size, in points.
    pub size: u32,
    /// Distance from the left edge of the page, in millimetres.
    pub x: u32,
    /// Height above the bottom edge of the page, in millimetres.
    pub y: u32,
}

/// The model of a [`PassbookLine`].
pub struct PlacedText {
    pub text: Seq<char>,
    pub size: int,
    pub x: int,
    pub y: int,
}

impl View for PassbookLine {
    type V = PlacedText;

    open spec fn view(&self) -> PlacedText {
        PlacedText { text: self.text@, size: self.size as int, x: self.x as int, y: self.y as int }
    }
}

impl DeepView for PassbookLine {
    type V = PlacedText;

    open spec fn deep_view(&self) -> PlacedText {
        self.view()
    }
}

/// One page of the passbook: its lines, heading first.
#[derive(Debug, PartialEq, Eq)]
pub struct PassbookPage {
    pub lines: Vec<PassbookLine>,
}

impl View for PassbookPage {
    type V = Seq<PlacedText>;

    open spec fn view(&self) -> Seq<PlacedText> {
        self.lines.deep_view()
    }
}

impl DeepView for PassbookPage {
    type V = Seq<PlacedText>;

    open spec fn deep_view(&self) -> Seq<PlacedText> {
        self.view()
    }
}

/// The text of the line that lists `entry`: its kind, its amount, and its
/// description or a note that it has none.
pub open spec fn entry_text(entry: Entry) -> Seq<char> {
    let kind = match entry {
        Entry::Income { .. } => "Income: Rs."@,
        Entry::Expense { .. } => "Expense: Rs."@,
    };
    let description = match entry.description() {
        Some(text) => text,
        None => "No description"@,
    };
    kind + decimal(entry.amount()) + " - "@ + description
}

/// The heading of page `page`, pages counted from zero.
pub open spec fn heading(page: int) -> PlacedText {
    if page == 0 {
        PlacedText {
            text: "Transaction History"@,
            size: HEADING_SIZE as int,
            x: LEFT_MARGIN as int,
            y: FIRST_HEADING_Y as int,
        }
    } else {
        PlacedText {
            text: "Transaction History (Continued)"@,
            size: HEADING_SIZE as int,
            x: LEFT_MARGIN as int,
            y: LATER_HEADING_Y as int,
        }
    }
}

/// Height of the first transaction line on page `page`.
pub open spec fn first_line_y(page: int) -> int {
    heading(page).y - HEADING_GAP
}

/// How many transaction lines fit on page `page`: lines are drawn from
/// [`first_line_y`] downwards, one every [`LINE_GAP`], as long as they stay
/// at or above [`BOTTOM_MARGIN`].
pub open spec fn capacity(page: int) -> int {
    (first_line_y(page) - BOTTOM_MARGIN) / (LINE_GAP as int) + 1
}

/// Index of the first transaction that is listed on page `page`.
pub open spec fn first_on(page: int) -> int {
    if page <= 0 {
        0
    } else {
        capacity(0) + (page - 1) * capacity(1)
    }
}

/// How many of `count` transactions are listed on page `page`.
pub open spec fn listed_on(page: int, count: int) -> int {
    if count - first_on(page) < capacity(page) {
        count - first_on(page)
    } else {
        capacity(page)
    }
}

/// How many pages a passbook of `count` transactions has: the first page is
/// always there, and a further page is begun only for a transaction that
/// does not fit on the pages before it.
pub open spec fn page_count(count: int) -> int {
    if count <= capacity(0) {
        1
    } else {
        1 + (count - capacity(0) + capacity(1) - 1) / capacity(1)
    }
}

/// The line for the transaction in slot `slot` of page `page`.
pub open spec fn entry_line_at(entries: Seq<Entry>, page: int, slot: int) -> PlacedText {
    PlacedText {
        text: entry_text(entries[first_on(page) + slot]),
        size: ENTRY_SIZE as int,
        x: LEFT_MARGIN as int,
        y: first_line_y(page) - slot * LINE_GAP,
    }
}

/// The first `listed` transaction lines of page `page`, below its heading.
pub open spec fn page_prefix(entries: Seq<Entry>, page: int, listed: int) -> Seq<PlacedText> {
    seq![heading(page)] + Seq::new(listed as nat, |slot: int| entry_line_at(entries, page, slot))
}

/// The lines of page `page` of the passbook of `entries`.
pub open spec fn page_lines(entries: Seq<Entry>, page: int) -> Seq<PlacedText> {
    page_prefix(entries, page, listed_on(page, entries.len() as int))
}

/// The passbook of `entries`: every transaction on a line of its own, in
/// order, on as many pages as they need.
pub open spec fn passbook(entries: Seq<Entry>) -> Seq<Seq<PlacedText>> {
    Seq::new(page_count(entries.len() as int) as nat, |page: int| page_lines(entries, page))
}

/// The page on which the transaction with index `index` is listed.
pub open spec fn page_of(index: int) -> int {
    if index < capacity(0) {
        0
    } else {
        1 + (index - capacity(0)) / capacity(1)
    }
}

/// The first page holds 17 transaction lines, every later page 25. The
/// same is stated of `page`, so that one call serves a proof about a page.
pub proof fn lemma_capacity(page: int)
    ensures
        capacity(0) == 17,
        capacity(1) == 25,
        capacity(page) == if page == 0 {
            17int
        } else {
            25int
        },
{
}

/// Every transaction has a line of its own in the passbook: on the page and
/// in the slot that its index gives, with its text, at or above the bottom
/// margin.
pub proof fn lemma_every_entry_is_listed(entries: Seq<Entry>, index: int)
    requires
        0 <= index < entries.len(),
    ensures
        ({
            let page = page_of(index);
            let slot = index - first_on(page);
            let book = passbook(entries);
            &&& 0 <= page < book.len()
            &&& 0 <= slot < listed_on(page, entries.len() as int)
            &&& book[page].len() == 1 + listed_on(page, entries.len() as int)
            &&& book[page][1 + slot] == entry_line_at(entries, page, slot)
            &&& book[page][1 + slot].text == entry_text(entries[index])
            &&& book[page][1 + slot].y >= BOTTOM_MARGIN
        }),
{
    lemma_capacity(page_of(index));
}

/// Every line below the heading of a page lists a transaction: the one
/// whose index the page and the slot give.
pub proof fn lemma_every_line_lists_an_entry(entries: Seq<Entry>, page: int, slot: int)
    requires
        0 <= page < passbook(entries).len(),
        0 <= slot < passbook(entries)[page].len() - 1,
    ensures
        0 <= first_on(page) + slot < entries.len(),
        page_of(first_on(page) + slot) == page,
        passbook(entries)[page][1 + slot] == entry_line_at(entries, page, slot),
{
    lemma_capacity(page);
}

/// Every page begins with its heading. A page that another page follows is
/// full, and no page but the first is without a transaction.
pub proof fn lemma_pages_are_filled_in_turn(entries: Seq<Entry>, page: int)
    requires
        0 <= page < passbook(entries).len(),
    ensures
        passbook(entries)[page][0] == heading(page),
        page + 1 < passbook(entries).len() ==> listed_on(page, entries.len() as int) == capacity(
            page,
        ),
        page > 0 ==> listed_on(page, entries.len() as int) > 0,
{
    lemma_capacity(page);
}

/// The line that lists `transaction` in the passbook.
pub fn entry_line(transaction: &Transaction) -> (line: String)
    ensures
        line@ == entry_text(transaction@),
{
    let mut line = match transaction {
        Transaction::Income { .. } => String::from_str("Income: Rs."),
        Transaction::Expense { .. } => String::from_str("Expense: Rs."),
    };
    line.append(format_amount(transaction.amount()).as_str());
    line.append(" - ");
    match transaction.description() {
        Some(text) => line.append(text),
        None => line.append("No description"),
    }
    line
}

/// The heading line of page `page`.
fn heading_line(page: usize) -> (line: PassbookLine)
    ensures
        line@ == heading(page as int),
{
    if page == 0 {
        PassbookLine {
            text: String::from_str("Transaction History"),
            size: HEADING_SIZE,
            x: LEFT_MARGIN,
            y: FIRST_HEADING_Y,
        }
    } else {
        PassbookLine {
            text: String::from_str("Transaction History (Continued)"),
            size: HEADING_SIZE,
            x: LEFT_MARGIN,
            y: LATER_HEADING_Y,
        }
    }
}

impl Account {
    /// Lays out the passbook: the heading, then one line per transaction
    /// from top to bottom, and a new page with its own heading whenever the
    /// next line would fall below the bottom margin.
    pub fn generate_passbook(&self) -> (pages: Vec<PassbookPage>)
        ensures
            pages.deep_view() == passbook(self@.transactions),
    {
        let ghost entries = self@.transactions;
        let count = self.transactions.len();
        let mut pages: Vec<PassbookPage> = Vec::new();
        let mut lines: Vec<PassbookLine> = Vec::new();
        lines.push(heading_line(0));
        let mut y: u32 = FIRST_HEADING_Y - HEADING_GAP;
        for i in 0..count
            invariant
                count == self.transactions.len(),
                entries == self@.transactions,
                pages.deep_view() == Seq::new(
                    pages.len() as nat,
                    |page: int| page_lines(entries, page),
                ),
                pages.len() <= i,
                first_on(pages.len() as int) <= i <= first_on(pages.len() as int) + capacity(
                    pages.len() as int,
                ),
                pages.len() == 0 || first_on(pages.len() as int) < i,
                lines.deep_view() == page_prefix(
                    entries,
                    pages.len() as int,
                    i - first_on(pages.len() as int),
                ),
                y == first_line_y(pages.len() as int) - (i - first_on(pages.len() as int))
                    * LINE_GAP,
        {
            proof {
                lemma_capacity(pages.len() as int);
            }
            if y < BOTTOM_MARGIN {
                // The page is full: the line goes to the top of a new one.
                let ghost finished = pages.deep_view();
                pages.push(PassbookPage { lines });
                assert(pages.deep_view() =~= finished.push(
                    page_lines(entries, pages.len() - 1),
                ));
                lines = Vec::new();
                lines.push(heading_line(pages.len()));
                y = LATER_HEADING_Y - HEADING_GAP;
            }
            let ghost listed = lines.deep_view();
            lines.push(
                PassbookLine {
                    text: entry_line(&self.transactions[i]),
                    size: ENTRY_SIZE,
                    x: LEFT_MARGIN,
                    y,
                },
            );
            assert(lines.deep_view() =~= listed.push(
                entry_line_at(entries, pages.len() as int, i - first_on(pages.len() as int)),
            ));
            y = y - LINE_GAP;
        }
        let ghost finished = pages.deep_view();
        proof {
            lemma_capacity(pages.len() as int);
        }
        pages.push(PassbookPage { lines });
        assert(pages.deep_view() =~= finished.push(page_lines(entries, pages.len() - 1)));
        pages
    }
}

} // verus!
