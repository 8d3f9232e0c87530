use alfred::account::Account;
use alfred::transaction::Transaction;

fn described(text: &str) -> Option<String> {
    Some(text.to_string())
}

#[test]
fn new_account_is_empty() {
    let account = Account::new();
    assert_eq!(account.balance, 0);
    assert!(account.transactions.is_empty());
}

#[test]
fn default_account_is_empty() {
    let account = Account::default();
    assert_eq!(account.balance, 0);
    assert!(account.transactions.is_empty());
    assert_eq!(account, Account::new());
}

#[test]
fn totals_of_empty_account_are_zero() {
    let account = Account::new();
    assert_eq!(account.total_income(), 0);
    assert_eq!(account.total_expenses(), 0);
    assert_eq!(account.checked_total_income(), Some(0));
    assert_eq!(account.checked_total_expenses(), Some(0));
}

#[test]
fn totals_of_account_without_transactions_ignore_the_balance() {
    let account = Account { balance: 55, transactions: Vec::new() };
    assert_eq!(account.total_income(), 0);
    assert_eq!(account.total_expenses(), 0);
}

#[test]
fn income_then_expense() {
    let mut account = Account::new();
    account.add_income(100, described("salary"));
    assert_eq!(account.balance, 100);
    account.add_expense(30, described("food"));
    assert_eq!(account.balance, 70);
    assert_eq!(account.total_income(), 100);
    assert_eq!(account.total_expenses(), 30);
    assert_eq!(
        account.transactions,
        vec![
            Transaction::Income { amount: 100, description: described("salary") },
            Transaction::Expense { amount: 30, description: described("food") },
        ]
    );
}

#[test]
fn income_without_description() {
    let mut account = Account::new();
    let confirmation = account.add_income(50, None);
    assert_eq!(confirmation, vec!["50 has been credited to your account.".to_string()]);
    assert_eq!(account.balance, 50);
    assert_eq!(account.transactions, vec![Transaction::Income { amount: 50, description: None }]);
}

#[test]
fn income_with_description() {
    let mut account = Account::new();
    let confirmation = account.add_income(100, described("salary"));
    assert_eq!(
        confirmation,
        vec![
            "100 has been credited to your account.".to_string(),
            "Description: salary".to_string(),
        ]
    );
}

#[test]
fn expense_without_description() {
    let mut account = Account::new();
    let confirmation = account.add_expense(30, None);
    assert_eq!(confirmation, vec!["30 has been debited from your account.".to_string()]);
    assert_eq!(account.balance, -30);
    assert_eq!(account.transactions, vec![Transaction::Expense { amount: 30, description: None }]);
}

#[test]
fn expense_with_description() {
    let mut account = Account::new();
    let confirmation = account.add_expense(30, described("food"));
    assert_eq!(
        confirmation,
        vec![
            "30 has been debited from your account.".to_string(),
            "Description: food".to_string(),
        ]
    );
}

#[test]
fn empty_description_is_still_a_description() {
    let mut account = Account::new();
    let confirmation = account.add_income(1, described(""));
    assert_eq!(
        confirmation,
        vec!["1 has been credited to your account.".to_string(), "Description: ".to_string()]
    );
    assert_eq!(account.transactions[0].description(), Some(""));
}

#[test]
fn negative_amounts_are_recorded_as_given() {
    let mut account = Account::new();
    let confirmation = account.add_income(-5, None);
    assert_eq!(confirmation, vec!["-5 has been credited to your account.".to_string()]);
    assert_eq!(account.balance, -5);
    account.add_expense(-20, None);
    assert_eq!(account.balance, 15);
    assert_eq!(account.total_income(), -5);
    assert_eq!(account.total_expenses(), -20);
}

#[test]
fn balance_is_income_minus_expenses() {
    let mut account = Account::new();
    let amounts = [12, 7, 0, 1500, 3, 99, 250, 1, 42, 8];
    for (i, amount) in amounts.iter().enumerate() {
        if i % 3 == 1 {
            account.add_expense(*amount, None);
        } else {
            account.add_income(*amount, None);
        }
        assert_eq!(account.balance, account.total_income() - account.total_expenses());
        assert_eq!(account.transactions.len(), i + 1);
    }
    assert_eq!(account.total_income(), 12 + 0 + 1500 + 99 + 250 + 42 + 8);
    assert_eq!(account.total_expenses(), 7 + 3 + 1);
    assert_eq!(account.balance, 1911 - 11);
}

#[test]
fn transactions_keep_their_order() {
    let mut account = Account::new();
    account.add_expense(3, described("c"));
    account.add_income(1, described("a"));
    account.add_income(2, None);
    account.add_expense(4, described("d"));
    let amounts: Vec<i32> = account.transactions.iter().map(|t| t.amount()).collect();
    assert_eq!(amounts, vec![3, 1, 2, 4]);
    let kinds: Vec<bool> = account.transactions.iter().map(|t| t.is_income()).collect();
    assert_eq!(kinds, vec![false, true, true, false]);
}

#[test]
fn show_balance_line() {
    let mut account = Account::new();
    assert_eq!(account.show_balance(), "You current balance is 0");
    account.add_income(100, None);
    account.add_expense(30, None);
    assert_eq!(account.show_balance(), "You current balance is 70");
    account.add_expense(100, None);
    assert_eq!(account.show_balance(), "You current balance is -30");
}

#[test]
fn show_balance_does_not_change_the_account() {
    let mut account = Account::new();
    account.add_income(5, described("x"));
    account.show_balance();
    assert_eq!(account.balance, 5);
    assert_eq!(account.transactions.len(), 1);
}

#[test]
fn can_add_income_at_the_limits() {
    let account = Account { balance: i32::MAX - 1, transactions: Vec::new() };
    assert!(account.can_add_income(1));
    assert!(!account.can_add_income(2));
    assert!(account.can_add_income(i32::MIN));
    let account = Account { balance: i32::MIN, transactions: Vec::new() };
    assert!(account.can_add_income(0));
    assert!(!account.can_add_income(-1));
    assert!(account.can_add_income(i32::MAX));
}

#[test]
fn can_add_expense_at_the_limits() {
    let account = Account { balance: i32::MIN + 1, transactions: Vec::new() };
    assert!(account.can_add_expense(1));
    assert!(!account.can_add_expense(2));
    let account = Account { balance: 0, transactions: Vec::new() };
    assert!(account.can_add_expense(i32::MAX));
    assert!(!account.can_add_expense(i32::MIN));
    let account = Account { balance: -1, transactions: Vec::new() };
    assert!(account.can_add_expense(i32::MIN));
}

#[test]
fn checked_add_income_records_when_it_fits() {
    let mut account = Account::new();
    let confirmation = account.checked_add_income(100, described("salary"));
    assert_eq!(
        confirmation,
        Some(vec![
            "100 has been credited to your account.".to_string(),
            "Description: salary".to_string(),
        ])
    );
    assert_eq!(account.balance, 100);
    assert_eq!(account.transactions.len(), 1);
}

#[test]
fn checked_add_income_refuses_overflow() {
    let mut account = Account::new();
    account.add_income(i32::MAX, None);
    let confirmation = account.checked_add_income(1, described("one too many"));
    assert_eq!(confirmation, None);
    assert_eq!(account.balance, i32::MAX);
    assert_eq!(account.transactions, vec![Transaction::Income { amount: i32::MAX, description: None }]);
}

#[test]
fn checked_add_expense_records_when_it_fits() {
    let mut account = Account::new();
    let confirmation = account.checked_add_expense(30, None);
    assert_eq!(confirmation, Some(vec!["30 has been debited from your account.".to_string()]));
    assert_eq!(account.balance, -30);
}

#[test]
fn checked_add_expense_refuses_overflow() {
    let mut account = Account::new();
    account.add_expense(i32::MAX, None);
    account.add_expense(1, None);
    assert_eq!(account.balance, i32::MIN);
    let confirmation = account.checked_add_expense(1, None);
    assert_eq!(confirmation, None);
    assert_eq!(account.balance, i32::MIN);
    assert_eq!(account.transactions.len(), 2);
}

#[test]
fn checked_totals_when_the_sum_does_not_fit() {
    let mut account = Account::new();
    account.add_income(i32::MAX, None);
    account.add_expense(i32::MAX, None);
    account.add_income(i32::MAX, None);
    account.add_expense(i32::MAX, None);
    assert_eq!(account.balance, 0);
    assert_eq!(account.checked_total_income(), None);
    assert_eq!(account.checked_total_expenses(), None);
}

#[test]
fn checked_totals_at_the_limit() {
    let mut account = Account::new();
    account.add_income(i32::MAX - 5, None);
    account.add_expense(i32::MAX - 5, None);
    account.add_income(5, None);
    assert_eq!(account.checked_total_income(), Some(i32::MAX));
    assert_eq!(account.checked_total_expenses(), Some(i32::MAX - 5));
    assert_eq!(account.total_income(), i32::MAX);
}

#[test]
fn totals_whose_partial_sums_leave_the_range() {
    let account = Account {
        balance: 0,
        transactions: vec![
            Transaction::Income { amount: i32::MAX, description: None },
            Transaction::Income { amount: i32::MAX, description: None },
            Transaction::Income { amount: i32::MIN, description: None },
            Transaction::Income { amount: i32::MIN, description: None },
            Transaction::Income { amount: 9, description: None },
        ],
    };
    assert_eq!(account.checked_total_income(), Some(7));
    assert_eq!(account.total_income(), 7);
    assert_eq!(account.total_expenses(), 0);
}

#[test]
fn restore_without_saved_account_gives_the_empty_account() {
    let account = Account::restore(None);
    assert_eq!(account.balance, 0);
    assert!(account.transactions.is_empty());
}

#[test]
fn restore_keeps_the_saved_account() {
    let saved = Account {
        balance: 70,
        transactions: vec![
            Transaction::Income { amount: 100, description: described("salary") },
            Transaction::Expense { amount: 30, description: None },
        ],
    };
    let account = Account::restore(Some(saved));
    assert_eq!(account.balance, 70);
    assert_eq!(
        account.transactions,
        vec![
            Transaction::Income { amount: 100, description: described("salary") },
            Transaction::Expense { amount: 30, description: None },
        ]
    );
}

#[test]
fn restore_takes_the_saved_balance_as_it_is() {
    let saved = Account { balance: 5, transactions: Vec::new() };
    let account = Account::restore(Some(saved));
    assert_eq!(account.balance, 5);
    assert_eq!(account.total_income(), 0);
}

#[test]
fn transaction_accessors() {
    let income = Transaction::Income { amount: 100, description: described("salary") };
    assert_eq!(income.amount(), 100);
    assert_eq!(income.description(), Some("salary"));
    assert!(income.is_income());
    assert!(!income.is_expense());
    let expense = Transaction::Expense { amount: 30, description: None };
    assert_eq!(expense.amount(), 30);
    assert_eq!(expense.description(), None);
    assert!(!expense.is_income());
    assert!(expense.is_expense());
}

#[test]
fn transaction_clone_is_equal() {
    let income = Transaction::Income { amount: 100, description: described("salary") };
    assert_eq!(income.clone(), income);
    let expense = Transaction::Expense { amount: -3, description: None };
    assert_eq!(expense.clone(), expense);
    assert_ne!(income.clone(), expense);
}
