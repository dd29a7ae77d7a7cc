use finance_ledger::database::{decode_row, encode_row, records_from_rows, Database, LedgerError, StorageFault, StoreLocation};
use finance_ledger::transaction::{Transaction, TransactionBuilder, TransactionError, TransactionType, UUID_V4_BITS, UUID_V4_MASK};

fn record(amount: i64, operation: TransactionType) -> Transaction {
    TransactionBuilder::new()
        .amount(amount)
        .description("entry")
        .category("Misc")
        .date("2025-01-01")
        .operation(operation)
        .build()
}

#[test]
fn test_in_memory_database() {
    let mut db = Database::new_in_memory().expect("Failed to create in-memory database");

    let transaction = TransactionBuilder::new()
        .amount(100_00)
        .description("Test transaction")
        .category("Test")
        .date("2025-01-01")
        .operation(TransactionType::Income)
        .build();

    assert!(db.add_transaction(&transaction).is_ok());
    assert_eq!(db.get_balance(), 100_00);
}

#[test]
fn sample_ledger_balance_and_history() {
    let mut db = Database::new_in_memory().unwrap();
    db.add_transaction(&record(1000_00, TransactionType::Income)).unwrap();
    db.add_transaction(&record(50_00, TransactionType::Expense)).unwrap();
    db.add_transaction(&record(25_00, TransactionType::Expense)).unwrap();
    assert_eq!(db.get_balance(), 925_00);
    assert_eq!(db.get_all_transactions().len(), 3);
}

#[test]
fn balance_ignores_insertion_order() {
    let income = record(730, TransactionType::Income);
    let expense = record(1205, TransactionType::Expense);
    let other = record(99, TransactionType::Income);
    let mut first = Database::new_in_memory().unwrap();
    let mut second = Database::new_in_memory().unwrap();
    for t in [&income, &expense, &other] {
        first.add_transaction(t).unwrap();
    }
    for t in [&other, &expense, &income] {
        second.add_transaction(t).unwrap();
    }
    assert_eq!(first.get_balance(), 730 - 1205 + 99);
    assert_eq!(first.get_balance(), second.get_balance());
}

#[test]
fn empty_store_has_zero_balance_and_no_history() {
    let db = Database::new_in_memory().unwrap();
    assert_eq!(db.get_balance(), 0);
    assert!(db.get_all_transactions().is_empty());
}

#[test]
fn appended_record_round_trips() {
    let mut db = Database::new_in_memory().unwrap();
    let t = TransactionBuilder::new()
        .amount(1234)
        .description("Lunch with ñ")
        .category("Food")
        .date("2025-02-03")
        .operation(TransactionType::Expense)
        .build();
    db.add_transaction(&t).unwrap();
    let all = db.get_all_transactions();
    assert_eq!(all.len(), 1);
    assert_eq!(all[0].get_id(), t.get_id());
    assert_eq!(all[0].get_amount(), 1234);
    assert_eq!(all[0].get_description(), "Lunch with ñ");
    assert_eq!(all[0].get_category(), "Food");
    assert_eq!(all[0].get_date(), "2025-02-03");
    assert_eq!(*all[0].get_operation(), TransactionType::Expense);
}

#[test]
fn duplicate_id_is_refused_and_keeps_the_stored_record() {
    let mut db = Database::new_in_memory().unwrap();
    let t = record(500, TransactionType::Income);
    db.add_transaction(&t).unwrap();
    let clash = TransactionBuilder::new()
        .id(t.get_id())
        .amount(9)
        .description("other")
        .operation(TransactionType::Expense)
        .build();
    assert!(matches!(db.add_transaction(&clash), Err(LedgerError::DuplicateId)));
    let all = db.get_all_transactions();
    assert_eq!(all.len(), 1);
    assert_eq!(all[0].get_amount(), 500);
    assert_eq!(all[0].get_description(), "entry");
    assert_eq!(db.get_balance(), 500);
}

#[test]
fn negative_amount_is_refused() {
    let mut t = record(300, TransactionType::Expense);
    assert_eq!(t.set_amount(-1_00), Err(TransactionError::InvalidAmount));
    assert_eq!(t.get_amount(), 300);
    assert_eq!(t.set_amount(5_00), Ok(()));
    assert_eq!(t.get_amount(), 5_00);
    assert_eq!(t.set_amount(0), Ok(()));
    assert_eq!(t.get_amount(), 0);
}

#[test]
fn setters_replace_fields() {
    let mut t = record(1, TransactionType::Expense);
    t.set_description("Rent");
    t.set_date("2025-03-01");
    t.set_category("Bills");
    t.set_operation(TransactionType::Income);
    assert_eq!(t.get_description(), "Rent");
    assert_eq!(t.get_date(), "2025-03-01");
    assert_eq!(t.get_category(), "Bills");
    assert_eq!(*t.get_operation(), TransactionType::Income);
}

#[test]
fn builder_defaults() {
    let t = TransactionBuilder::new().build();
    assert_eq!(t.get_amount(), 0);
    assert_eq!(t.get_description(), "");
    assert_eq!(t.get_date(), "");
    assert_eq!(t.get_category(), "");
    assert_eq!(*t.get_operation(), TransactionType::Expense);
    assert_eq!(TransactionType::default(), TransactionType::Expense);
    assert_ne!(TransactionBuilder::new().build().get_id(), t.get_id());
}

#[test]
fn ephemeral_stores_share_nothing() {
    let mut first = Database::new_in_memory().unwrap();
    first.add_transaction(&record(10, TransactionType::Income)).unwrap();
    drop(first);
    let second = Database::new_in_memory().unwrap();
    assert!(second.get_all_transactions().is_empty());
    assert_eq!(second.get_balance(), 0);
}

#[test]
fn durable_store_survives_reopen() {
    let path = format!("/tmp/finance-ledger-{}.db", uuid::Uuid::new_v4());
    let t = TransactionBuilder::new()
        .amount(4250)
        .description("Salary")
        .category("Income")
        .date("2025-01-31")
        .operation(TransactionType::Income)
        .build();
    {
        let mut db = Database::new(&path).unwrap();
        assert!(db.get_all_transactions().is_empty());
        db.add_transaction(&t).unwrap();
    }
    let mut reopened = Database::new(&path).unwrap();
    let all = reopened.get_all_transactions();
    assert_eq!(all.len(), 1);
    assert_eq!(all[0].get_id(), t.get_id());
    assert_eq!(all[0].get_amount(), 4250);
    assert_eq!(all[0].get_description(), "Salary");
    assert_eq!(all[0].get_category(), "Income");
    assert_eq!(all[0].get_date(), "2025-01-31");
    assert_eq!(*all[0].get_operation(), TransactionType::Income);
    assert_eq!(reopened.get_balance(), 4250);
    assert!(matches!(reopened.add_transaction(&t), Err(LedgerError::DuplicateId)));
}

#[test]
fn unopenable_location_is_storage_unavailable() {
    let r = Database::new("/nonexistent-dir-for-ledger/sub/ledger.db");
    assert!(matches!(r, Err(LedgerError::StorageUnavailable(_))));
}

#[test]
fn labels_round_trip() {
    assert_eq!(TransactionType::Income.label(), "Income");
    assert_eq!(TransactionType::Expense.label(), "Expense");
    assert_eq!(TransactionType::from_label(&"Income".to_string()), TransactionType::Income);
    assert_eq!(TransactionType::from_label(&"Expense".to_string()), TransactionType::Expense);
    assert_eq!(TransactionType::from_label(&"income".to_string()), TransactionType::Expense);
}

#[test]
fn decode_row_reads_every_column() {
    let row = (
        "ignored".to_string(),
        -75,
        "Refund".to_string(),
        "2024-12-24".to_string(),
        "Shopping".to_string(),
        "Income".to_string(),
    );
    let t = decode_row(42, &row);
    assert_eq!(t.get_id(), 42);
    assert_eq!(t.get_amount(), -75);
    assert_eq!(t.get_description(), "Refund");
    assert_eq!(t.get_date(), "2024-12-24");
    assert_eq!(t.get_category(), "Shopping");
    assert_eq!(*t.get_operation(), TransactionType::Income);
}

#[test]
fn sample_data_gives_the_demo_balance() {
    let samples = finance_ledger::transaction::sample_transactions();
    assert_eq!(samples.len(), 3);
    assert_eq!(samples[0].get_description(), "Initial deposit");
    let mut db = Database::open(&StoreLocation::Ephemeral).unwrap();
    for t in &samples {
        db.add_transaction(t).unwrap();
    }
    assert_eq!(db.get_balance(), 925_00);
    let listed = db.get_all_transactions();
    assert_eq!(listed.len(), 3);
    assert_eq!(listed[1].get_category(), "Food");
    assert_eq!(*listed[2].get_operation(), TransactionType::Expense);
}

#[test]
fn durable_location_opens_through_open() {
    let path = format!("/tmp/finance-ledger-{}.db", uuid::Uuid::new_v4());
    let mut db = Database::open(&StoreLocation::Durable(path.clone())).unwrap();
    db.add_transaction(&record(-40, TransactionType::Expense)).unwrap();
    drop(db);
    let reopened = Database::open(&StoreLocation::Durable(path)).unwrap();
    assert_eq!(reopened.get_balance(), 40);
}

#[test]
fn encode_row_writes_the_stored_layout() {
    let t = TransactionBuilder::new()
        .id(0x0123_4567_89ab_cdef_fedc_ba98_7654_3210)
        .amount(1999)
        .description("Book")
        .category("Education")
        .date("2025-04-05")
        .operation(TransactionType::Income)
        .build();
    let row = encode_row(&t);
    assert_eq!(row.0, "01234567-89ab-cdef-fedc-ba9876543210");
    assert_eq!(row.1, 1999);
    assert_eq!(row.2, "Book");
    assert_eq!(row.3, "2025-04-05");
    assert_eq!(row.4, "Education");
    assert_eq!(row.5, "Income");
    let expense = record(1, TransactionType::Expense);
    assert_eq!(encode_row(&expense).5, "Expense");
}

#[test]
fn records_from_rows_decodes_in_order() {
    let rows = vec![
        (
            "01234567-89ab-cdef-fedc-ba9876543210".to_string(),
            150,
            "a".to_string(),
            "2025-01-01".to_string(),
            "Food".to_string(),
            "Expense".to_string(),
        ),
        (
            "00000000-0000-0000-0000-00000000002a".to_string(),
            70,
            "b".to_string(),
            "2025-01-02".to_string(),
            "Income".to_string(),
            "Income".to_string(),
        ),
    ];
    let records = records_from_rows(&rows).unwrap();
    assert_eq!(records.len(), 2);
    assert_eq!(records[0].get_id(), 0x0123_4567_89ab_cdef_fedc_ba98_7654_3210);
    assert_eq!(records[0].get_amount(), 150);
    assert_eq!(*records[0].get_operation(), TransactionType::Expense);
    assert_eq!(records[1].get_id(), 42);
    assert_eq!(records[1].get_description(), "b");
    assert_eq!(*records[1].get_operation(), TransactionType::Income);
}

#[test]
fn records_from_rows_refuses_a_bad_id() {
    let rows = vec![(
        "not-a-uuid".to_string(),
        1,
        String::new(),
        String::new(),
        String::new(),
        "Income".to_string(),
    )];
    assert!(matches!(records_from_rows(&rows), Err(StorageFault::StoredId(_))));
}

#[test]
fn builder_ids_are_version_four() {
    for _ in 0..8 {
        let id = TransactionBuilder::new().build().get_id();
        assert_eq!(id & UUID_V4_MASK, UUID_V4_BITS);
    }
}
