//! Input rows, and what it takes for one to be a transaction.

use vstd::prelude::*;

use crate::amount::{Amount, AmountView, MAX_MANTISSA, MAX_SCALE};
use crate::{ClientId, Transaction, TransactionType, Txid};

verus! {

/// Largest scale of a decimal.
pub const MAX_DECIMAL_SCALE: u32 = 28;

/// Transaction type represented by the CSV field `type`
#[derive(Debug, Clone, Copy, PartialEq, Eq, Structural)]
pub enum CsvTransactionType {
    Deposit,
    Withdrawal,
    Dispute,
    Resolve,
    Chargeback,
}

/// A decimal as it was read, `mantissa / 10^scale`: any coefficient below
/// 2^96 in magnitude, with any scale up to 28.
#[derive(Debug, Clone, Copy)]
pub struct DecimalParts {
    mantissa: i128,
    scale: u32,
}

impl View for DecimalParts {
    type V = AmountView;

    closed spec fn view(&self) -> AmountView {
        AmountView { mantissa: self.mantissa as int, scale: self.scale }
    }
}

impl DecimalParts {
    /// Whether a coefficient and a scale denote a decimal.
    pub open spec fn is_decimal(mantissa: int, scale: u32) -> bool {
        scale <= MAX_DECIMAL_SCALE && -MAX_MANTISSA <= mantissa <= MAX_MANTISSA
    }

    /// Every decimal read is a decimal.
    #[verifier::type_invariant]
    pub open spec fn wf(&self) -> bool {
        DecimalParts::is_decimal(self@.mantissa, self@.scale)
    }

    /// The decimal `mantissa / 10^scale`, if there is one.
    pub fn new(mantissa: i128, scale: u32) -> (r: Option<DecimalParts>)
        ensures
            r is Some <==> DecimalParts::is_decimal(mantissa as int, scale),
            r matches Some(parts) ==> parts@ == (AmountView { mantissa: mantissa as int, scale }),
    {
        if scale > MAX_DECIMAL_SCALE || mantissa < -MAX_MANTISSA || mantissa > MAX_MANTISSA {
            None
        } else {
            Some(DecimalParts { mantissa, scale })
        }
    }

    /// The coefficient of the decimal.
    pub fn mantissa(&self) -> (r: i128)
        ensures
            r == self@.mantissa,
    {
        self.mantissa
    }

    /// The number of fractional digits of the decimal.
    pub fn scale(&self) -> (r: u32)
        ensures
            r == self@.scale,
    {
        self.scale
    }
}

/// Transaction represented by a CSV row
#[derive(Debug, Clone, Copy)]
pub struct CsvTransaction {
    pub tx_type: CsvTransactionType,
    pub client: u16,
    pub txid: u32,
    pub amount: Option<DecimalParts>,
}

/// Why a row is no transaction.
#[derive(Debug, Clone, Copy, PartialEq, Eq, Structural)]
pub enum TransactionError {
    /// A deposit or withdrawal without an amount.
    MissingAmount,
    /// An amount with more than four fractional digits.
    ExcessPrecision,
}

impl TransactionError {
    /// The error in words.
    pub fn message(&self) -> (text: &'static str)
        ensures
            text@ == match *self {
                TransactionError::MissingAmount => "amount is required for deposit/withdraw transactions"@,
                TransactionError::ExcessPrecision => "amount has more than 4 decimal places"@,
            },
    {
        match self {
            TransactionError::MissingAmount => "amount is required for deposit/withdraw transactions",
            TransactionError::ExcessPrecision => "amount has more than 4 decimal places",
        }
    }
}

impl CsvTransaction {
    /// Whether the row is a deposit or a withdrawal, which need an amount.
    pub open spec fn needs_amount(self) -> bool {
        self.tx_type == CsvTransactionType::Deposit || self.tx_type
            == CsvTransactionType::Withdrawal
    }

    /// What is wrong with the row, if anything. Only deposits and
    /// withdrawals can be wrong: the amount of any other row is not looked
    /// at.
    pub open spec fn error(self) -> Option<TransactionError> {
        if !self.needs_amount() {
            None
        } else {
            match self.amount {
                None => Some(TransactionError::MissingAmount),
                Some(parts) => if parts@.scale > MAX_SCALE {
                    Some(TransactionError::ExcessPrecision)
                } else {
                    None
                },
            }
        }
    }

    /// Whether `tx` is the transaction that the row describes: the same
    /// client, id and kind, and for a deposit or withdrawal the amount of the
    /// row, digit for digit.
    pub open spec fn describes(self, tx: Transaction) -> bool {
        &&& tx.client_id == ClientId(self.client)
        &&& tx.txid == Txid(self.txid)
        &&& match self.tx_type {
            CsvTransactionType::Deposit => tx.tx_type matches TransactionType::Deposit(amount)
                && self.amount matches Some(parts) && amount@ == parts@,
            CsvTransactionType::Withdrawal => tx.tx_type matches TransactionType::Withdrawal(amount)
                && self.amount matches Some(parts) && amount@ == parts@,
            CsvTransactionType::Dispute => tx.tx_type is Dispute,
            CsvTransactionType::Resolve => tx.tx_type is Resolve,
            CsvTransactionType::Chargeback => tx.tx_type is Chargeback,
        }
    }
}

impl Amount {
    /// The decimal as an amount, if it has at most four fractional digits.
    pub fn from_parts(parts: DecimalParts) -> (r: Option<Amount>)
        ensures
            r is Some <==> parts@.scale <= MAX_SCALE,
            r matches Some(amount) ==> amount@ == parts@,
    {
        proof {
            use_type_invariant(parts);
        }
        Amount::new(parts.mantissa, parts.scale)
    }
}

impl Transaction {
    /// The transaction that a row describes, or what is wrong with the row.
    pub fn try_from(tx: CsvTransaction) -> (r: Result<Transaction, TransactionError>)
        ensures
            match r {
                Ok(transaction) => tx.error() is None && tx.describes(transaction),
                Err(e) => tx.error() == Some(e),
            },
    {
        let amount = match tx.tx_type {
            CsvTransactionType::Deposit | CsvTransactionType::Withdrawal => {
                let parts = match tx.amount {
                    Some(parts) => parts,
                    None => {
                        return Err(TransactionError::MissingAmount);
                    },
                };
                match Amount::from_parts(parts) {
                    Some(amount) => amount,
                    None => {
                        return Err(TransactionError::ExcessPrecision);
                    },
                }
            },
            CsvTransactionType::Dispute
            | CsvTransactionType::Resolve
            | CsvTransactionType::Chargeback => Amount::zero(),
        };
        let tx_type = match tx.tx_type {
            CsvTransactionType::Deposit => TransactionType::Deposit(amount),
            CsvTransactionType::Withdrawal => TransactionType::Withdrawal(amount),
            CsvTransactionType::Dispute => TransactionType::Dispute,
            CsvTransactionType::Resolve => TransactionType::Resolve,
            CsvTransactionType::Chargeback => TransactionType::Chargeback,
        };

        Ok(Transaction { tx_type, client_id: ClientId(tx.client), txid: Txid(tx.txid) })
    }
}

} // verus!
