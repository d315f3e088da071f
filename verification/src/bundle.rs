use vstd::prelude::*;

verus! {

/// A transaction as submitted on the wire; carried through unread.
#[verifier::external_type_specification]
#[verifier::external_body]
pub struct ExVersionedTransaction(solana_sdk::transaction::VersionedTransaction);

/// A transaction after sanitization; carried through unread.
#[verifier::external_type_specification]
#[verifier::external_body]
pub struct ExSanitizedTransaction(solana_sdk::transaction::SanitizedTransaction);

/// A group of transactions to be executed together.
pub struct Bundle {
    pub transactions: Vec<solana_sdk::transaction::VersionedTransaction>,
}

/// A bundle whose transactions passed sanitization.
pub struct SanitizedBundle {
    pub sanitized_transactions: Vec<solana_sdk::transaction::SanitizedTransaction>,
}

/// A batch of sanitized bundles.
pub struct SanitizedBundleBatch {
    pub sanitized_bundles: Vec<SanitizedBundle>,
}

} // verus!
