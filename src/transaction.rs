//! The transaction record, its kind, and the builder that assembles it.
//!
//! Amounts are held as whole minor currency units (cents), so that sums over
//! the ledger are exact.

use vstd::prelude::*;

verus! {

/// The direction in which money moved.
#[derive(Clone, Copy, Debug, PartialEq, Eq, Structural)]
pub enum TransactionType {
    Income,
    Expense,
}

/// The stored text form of `Income`.
pub open spec fn income_label() -> Seq<char> {
    seq!['I', 'n', 'c', 'o', 'm', 'e']
}

/// The stored text form of `Expense`.
pub open spec fn expense_label() -> Seq<char> {
    seq!['E', 'x', 'p', 'e', 'n', 's', 'e']
}

impl TransactionType {
    /// The text under which a kind is stored.
    pub open spec fn label_spec(self) -> Seq<char> {
        match self {
            TransactionType::Income => income_label(),
            TransactionType::Expense => expense_label(),
        }
    }

    /// The kind that stored text denotes: only the exact label of `Income`
    /// reads as `Income`, anything else as `Expense`.
    pub open spec fn from_label_spec(s: Seq<char>) -> TransactionType {
        if s == income_label() {
            TransactionType::Income
        } else {
            TransactionType::Expense
        }
    }

    /// The text under which this kind is stored.
    pub fn label(&self) -> (r: String)
        ensures
            r@ == self.label_spec(),
    {
        match self {
            TransactionType::Income => {
                let r = "Income".to_owned();
                proof {
                    reveal_strlit("Income");
                }
                r
            },
            TransactionType::Expense => {
                let r = "Expense".to_owned();
                proof {
                    reveal_strlit("Expense");
                }
                r
            },
        }
    }

    /// Reads a stored label back into a kind.
    pub fn from_label(s: &String) -> (r: TransactionType)
        ensures
            r == Self::from_label_spec(s@),
    {
        let income = TransactionType::Income.label();
        if *s == income {
            TransactionType::Income
        } else {
            TransactionType::Expense
        }
    }
}

impl Default for TransactionType {
    fn default() -> (r: TransactionType)
        ensures
            r == TransactionType::Expense,
    {
        TransactionType::Expense
    }
}

/// What a transaction holds, as mathematical values.
pub struct TransactionModel {
    pub id: u128,
    pub amount: int,
    pub description: Seq<char>,
    pub date: Seq<char>,
    pub category: Seq<char>,
    pub operation: TransactionType,
}

/// One recorded movement of money. The amount is a magnitude in cents; its
/// direction is given by `operation`.
#[derive(Clone, Debug)]
pub struct Transaction {
    id: u128,
    amount: i64,
    description: String,
    date: String,
    category: String,
    operation: TransactionType,
}

/// Why a change to a transaction was refused.
#[derive(Clone, Copy, Debug, PartialEq, Eq, Structural)]
pub enum TransactionError {
    /// A negative amount was offered.
    InvalidAmount,
}

impl View for Transaction {
    type V = TransactionModel;

    closed spec fn view(&self) -> TransactionModel {
        TransactionModel {
            id: self.id,
            amount: self.amount as int,
            description: self.description@,
            date: self.date@,
            category: self.category@,
            operation: self.operation,
        }
    }
}

/// The bits of a UUID's value that hold its version and variant.
pub const UUID_V4_MASK: u128 = 0x0000_0000_0000_f000_c000_0000_0000_0000;

/// Those bits in a random (version 4, RFC 4122 variant) UUID.
pub const UUID_V4_BITS: u128 = 0x0000_0000_0000_4000_8000_0000_0000_0000;

/// Whether a 128-bit value is that of a random (version 4) UUID.
pub open spec fn is_v4_id(id: u128) -> bool {
    id & UUID_V4_MASK == UUID_V4_BITS
}

/// Relies on uuid::Uuid::new_v4 and Uuid::as_u128: a fresh random identifier,
/// as its 128-bit value. `new_v4` fixes the version and variant bits; the
/// other bits are random.
#[verifier::external_body]
fn random_id() -> (r: u128)
    ensures
        r & UUID_V4_MASK == UUID_V4_BITS,
{
    uuid::Uuid::new_v4().as_u128()
}

/// Incremental construction of a `Transaction`, with defaults for every field.
pub struct TransactionBuilder {
    pub id: u128,
    pub amount: i64,
    pub description: String,
    pub date: String,
    pub category: String,
    pub operation: TransactionType,
}

impl Default for TransactionBuilder {
    /// A fresh random id, a zero amount, empty texts, and `Expense`.
    fn default() -> (r: TransactionBuilder)
        ensures
            is_v4_id(r.id),
            r.amount == 0,
            r.description@ == Seq::<char>::empty(),
            r.date@ == Seq::<char>::empty(),
            r.category@ == Seq::<char>::empty(),
            r.operation == TransactionType::Expense,
    {
        TransactionBuilder {
            id: random_id(),
            amount: 0,
            description: String::new(),
            date: String::new(),
            category: String::new(),
            operation: TransactionType::Expense,
        }
    }
}

impl TransactionBuilder {
    /// A builder with a fresh random id, a zero amount, empty texts, and
    /// `Expense`.
    pub fn new() -> (r: TransactionBuilder)
        ensures
            is_v4_id(r.id),
            r.amount == 0,
            r.description@ == Seq::<char>::empty(),
            r.date@ == Seq::<char>::empty(),
            r.category@ == Seq::<char>::empty(),
            r.operation == TransactionType::Expense,
    {
        TransactionBuilder::default()
    }

    /// Sets the id; used when a stored record is read back.
    pub fn id(self, id: u128) -> (r: TransactionBuilder)
        ensures
            r == (TransactionBuilder { id, ..self }),
    {
        let mut b = self;
        b.id = id;
        b
    }

    /// Sets the amount, in cents, with no check. A durable store keeps
    /// amounts as floating-point whole units, so it gives back exactly only
    /// amounts of at most 2^53 cents in magnitude.
    pub fn amount(self, amount: i64) -> (r: TransactionBuilder)
        ensures
            r == (TransactionBuilder { amount, ..self }),
    {
        let mut b = self;
        b.amount = amount;
        b
    }

    /// Sets the description.
    pub fn description(self, description: &str) -> (r: TransactionBuilder)
        ensures
            r.description@ == description@,
            r == (TransactionBuilder { description: r.description, ..self }),
    {
        let mut b = self;
        b.description = description.to_owned();
        b
    }

    /// Sets the date text.
    pub fn date(self, date: &str) -> (r: TransactionBuilder)
        ensures
            r.date@ == date@,
            r == (TransactionBuilder { date: r.date, ..self }),
    {
        let mut b = self;
        b.date = date.to_owned();
        b
    }

    /// Sets the category label.
    pub fn category(self, category: &str) -> (r: TransactionBuilder)
        ensures
            r.category@ == category@,
            r == (TransactionBuilder { category: r.category, ..self }),
    {
        let mut b = self;
        b.category = category.to_owned();
        b
    }

    /// Sets the kind.
    pub fn operation(self, operation: TransactionType) -> (r: TransactionBuilder)
        ensures
            r == (TransactionBuilder { operation, ..self }),
    {
        let mut b = self;
        b.operation = operation;
        b
    }

    /// Finalises the record, field for field.
    pub fn build(self) -> (r: Transaction)
        ensures
            r@ == (TransactionModel {
                id: self.id,
                amount: self.amount as int,
                description: self.description@,
                date: self.date@,
                category: self.category@,
                operation: self.operation,
            }),
    {
        Transaction {
            id: self.id,
            amount: self.amount,
            description: self.description,
            date: self.date,
            category: self.category,
            operation: self.operation,
        }
    }
}

impl Transaction {
    /// A field-for-field copy.
    pub fn duplicate(&self) -> (r: Transaction)
        ensures
            r@ == self@,
    {
        Transaction {
            id: self.id,
            amount: self.amount,
            description: self.description.clone(),
            date: self.date.clone(),
            category: self.category.clone(),
            operation: self.operation,
        }
    }

    /// The 128-bit value of the record's unique identifier.
    pub fn get_id(&self) -> (r: u128)
        ensures
            r == self@.id,
    {
        self.id
    }

    /// The amount, in cents.
    pub fn get_amount(&self) -> (r: i64)
        ensures
            r as int == self@.amount,
    {
        self.amount
    }

    pub fn get_description(&self) -> (r: &str)
        ensures
            r@ == self@.description,
    {
        self.description.as_str()
    }

    pub fn get_date(&self) -> (r: &str)
        ensures
            r@ == self@.date,
    {
        self.date.as_str()
    }

    pub fn get_category(&self) -> (r: &str)
        ensures
            r@ == self@.category,
    {
        self.category.as_str()
    }

    pub fn get_operation(&self) -> (r: &TransactionType)
        ensures
            *r == self@.operation,
    {
        &self.operation
    }

    /// Replaces the amount; a negative amount is refused and changes nothing.
    pub fn set_amount(&mut self, amount: i64) -> (r: Result<(), TransactionError>)
        ensures
            amount < 0 ==> r == Err::<(), TransactionError>(TransactionError::InvalidAmount)
                && final(self)@ == old(self)@,
            amount >= 0 ==> r is Ok && final(self)@ == (TransactionModel {
                amount: amount as int,
                ..old(self)@
            }),
    {
        if amount < 0 {
            return Err(TransactionError::InvalidAmount);
        }
        self.amount = amount;
        Ok(())
    }

    pub fn set_description(&mut self, description: &str)
        ensures
            final(self)@ == (TransactionModel { description: description@, ..old(self)@ }),
    {
        self.description = description.to_owned();
    }

    pub fn set_date(&mut self, date: &str)
        ensures
            final(self)@ == (TransactionModel { date: date@, ..old(self)@ }),
    {
        self.date = date.to_owned();
    }

    pub fn set_category(&mut self, category: &str)
        ensures
            final(self)@ == (TransactionModel { category: category@, ..old(self)@ }),
    {
        self.category = category.to_owned();
    }

    pub fn set_operation(&mut self, operation: TransactionType)
        ensures
            final(self)@ == (TransactionModel { operation, ..old(self)@ }),
    {
        self.operation = operation;
    }
}

/// A small demonstration ledger: an initial deposit of 1000.00 and two food
/// expenses of 50.00 and 25.00, dated on consecutive days.
pub fn sample_transactions() -> (r: Vec<Transaction>)
    ensures
        r@.len() == 3,
        r@[0]@.amount == 100000 && r@[0]@.operation == TransactionType::Income,
        r@[1]@.amount == 5000 && r@[1]@.operation == TransactionType::Expense,
        r@[2]@.amount == 2500 && r@[2]@.operation == TransactionType::Expense,
        r@[0]@.description == "Initial deposit"@ && r@[0]@.category == "Income"@
            && r@[0]@.date == "2025-01-01"@,
        r@[1]@.description == "Groceries"@ && r@[1]@.category == "Food"@
            && r@[1]@.date == "2025-01-02"@,
        r@[2]@.description == "Coffee"@ && r@[2]@.category == "Food"@ && r@[2]@.date
            == "2025-01-03"@,
{
    let mut r: Vec<Transaction> = Vec::new();
    r.push(
        TransactionBuilder::new()
            .amount(100000)
            .description("Initial deposit")
            .category("Income")
            .date("2025-01-01")
            .operation(TransactionType::Income)
            .build(),
    );
    r.push(
        TransactionBuilder::new()
            .amount(5000)
            .description("Groceries")
            .category("Food")
            .date("2025-01-02")
            .operation(TransactionType::Expense)
            .build(),
    );
    r.push(
        TransactionBuilder::new()
            .amount(2500)
            .description("Coffee")
            .category("Food")
            .date("2025-01-03")
            .operation(TransactionType::Expense)
            .build(),
    );
    r
}

} // verus!
