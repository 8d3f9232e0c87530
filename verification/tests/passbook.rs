use alfred::account::Account;
use alfred::passbook::{
    entry_line, PassbookLine, PassbookPage, BOTTOM_MARGIN, ENTRY_SIZE, FIRST_HEADING_Y,
    HEADING_GAP, HEADING_SIZE, LATER_HEADING_Y, LEFT_MARGIN, LINE_GAP, PAGE_HEIGHT, PAGE_WIDTH,
};
use alfred::transaction::Transaction;

fn account_with(count: usize) -> Account {
    let mut account = Account::new();
    for i in 0..count {
        if i % 2 == 0 {
            account.add_income(1, Some(format!("entry {}", i)));
        } else {
            account.add_expense(1, Some(format!("entry {}", i)));
        }
    }
    account
}

fn expected_text(i: usize) -> String {
    if i % 2 == 0 {
        format!("Income: Rs.1 - entry {}", i)
    } else {
        format!("Expense: Rs.1 - entry {}", i)
    }
}

fn check_layout(count: usize, pages: &[PassbookPage]) {
    let mut listed = 0;
    for (p, page) in pages.iter().enumerate() {
        let heading = &page.lines[0];
        assert_eq!(heading.size, 24);
        assert_eq!(heading.x, 10);
        if p == 0 {
            assert_eq!(heading.text, "Transaction History");
            assert_eq!(heading.y, 200);
        } else {
            assert_eq!(heading.text, "Transaction History (Continued)");
            assert_eq!(heading.y, 280);
            assert!(page.lines.len() > 1, "a later page is begun only for a transaction");
        }
        let mut y = heading.y - 20;
        for line in &page.lines[1..] {
            assert_eq!(line.text, expected_text(listed));
            assert_eq!(line.size, 12);
            assert_eq!(line.x, 10);
            assert_eq!(line.y, y);
            assert!(line.y >= 20);
            listed += 1;
            if y >= 10 {
                y -= 10;
            }
        }
        if p + 1 < pages.len() {
            assert_eq!(page.lines.last().map(|line| line.y), Some(20), "a page is left only when full");
        }
    }
    assert_eq!(listed, count);
}

#[test]
fn page_geometry() {
    assert_eq!(PAGE_WIDTH, 210);
    assert_eq!(PAGE_HEIGHT, 297);
    assert_eq!(LEFT_MARGIN, 10);
    assert_eq!(HEADING_SIZE, 24);
    assert_eq!(ENTRY_SIZE, 12);
    assert_eq!(FIRST_HEADING_Y, 200);
    assert_eq!(LATER_HEADING_Y, 280);
    assert_eq!(HEADING_GAP, 20);
    assert_eq!(LINE_GAP, 10);
    assert_eq!(BOTTOM_MARGIN, 20);
}

#[test]
fn entry_line_of_income_with_description() {
    let transaction = Transaction::Income { amount: 100, description: Some("salary".to_string()) };
    assert_eq!(entry_line(&transaction), "Income: Rs.100 - salary");
}

#[test]
fn entry_line_of_expense_with_description() {
    let transaction = Transaction::Expense { amount: 30, description: Some("food".to_string()) };
    assert_eq!(entry_line(&transaction), "Expense: Rs.30 - food");
}

#[test]
fn entry_line_without_description() {
    let transaction = Transaction::Income { amount: 50, description: None };
    assert_eq!(entry_line(&transaction), "Income: Rs.50 - No description");
    let transaction = Transaction::Expense { amount: -7, description: None };
    assert_eq!(entry_line(&transaction), "Expense: Rs.-7 - No description");
}

#[test]
fn entry_line_with_empty_description() {
    let transaction = Transaction::Expense { amount: 0, description: Some(String::new()) };
    assert_eq!(entry_line(&transaction), "Expense: Rs.0 - ");
}

#[test]
fn passbook_of_empty_account_has_only_the_heading() {
    let pages = Account::new().generate_passbook();
    assert_eq!(
        pages,
        vec![PassbookPage {
            lines: vec![PassbookLine {
                text: "Transaction History".to_string(),
                size: 24,
                x: 10,
                y: 200,
            }],
        }]
    );
}

#[test]
fn passbook_of_two_transactions() {
    let mut account = Account::new();
    account.add_income(100, Some("salary".to_string()));
    account.add_expense(30, None);
    let pages = account.generate_passbook();
    assert_eq!(
        pages,
        vec![PassbookPage {
            lines: vec![
                PassbookLine { text: "Transaction History".to_string(), size: 24, x: 10, y: 200 },
                PassbookLine { text: "Income: Rs.100 - salary".to_string(), size: 12, x: 10, y: 180 },
                PassbookLine {
                    text: "Expense: Rs.30 - No description".to_string(),
                    size: 12,
                    x: 10,
                    y: 170,
                },
            ],
        }]
    );
}

#[test]
fn first_page_holds_seventeen_transactions() {
    let pages = account_with(17).generate_passbook();
    assert_eq!(pages.len(), 1);
    assert_eq!(pages[0].lines.len(), 18);
    assert_eq!(pages[0].lines[17].y, 20);
    check_layout(17, &pages);
}

#[test]
fn eighteenth_transaction_begins_a_second_page() {
    let pages = account_with(18).generate_passbook();
    assert_eq!(pages.len(), 2);
    assert_eq!(pages[0].lines.len(), 18);
    assert_eq!(
        pages[1].lines,
        vec![
            PassbookLine {
                text: "Transaction History (Continued)".to_string(),
                size: 24,
                x: 10,
                y: 280,
            },
            PassbookLine { text: "Expense: Rs.1 - entry 17".to_string(), size: 12, x: 10, y: 260 },
        ]
    );
    check_layout(18, &pages);
}

#[test]
fn later_pages_hold_twenty_five_transactions() {
    let pages = account_with(42).generate_passbook();
    assert_eq!(pages.len(), 2);
    assert_eq!(pages[1].lines.len(), 26);
    assert_eq!(pages[1].lines[25].y, 20);
    check_layout(42, &pages);
    let pages = account_with(43).generate_passbook();
    assert_eq!(pages.len(), 3);
    assert_eq!(pages[2].lines.len(), 2);
    assert_eq!(pages[2].lines[1].y, 260);
    assert_eq!(pages[2].lines[1].text, "Income: Rs.1 - entry 42");
    check_layout(43, &pages);
}

#[test]
fn every_transaction_is_listed_once_and_in_order() {
    for count in 0..130 {
        let pages = account_with(count).generate_passbook();
        check_layout(count, &pages);
        let expected_pages = if count <= 17 { 1 } else { 1 + (count - 17 + 24) / 25 };
        assert_eq!(pages.len(), expected_pages, "{} transactions", count);
    }
}

#[test]
fn passbook_does_not_change_the_account() {
    let account = account_with(20);
    account.generate_passbook();
    assert_eq!(account.transactions.len(), 20);
    assert_eq!(account.balance, 0);
}
