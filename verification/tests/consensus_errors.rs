use zebra_rpc_core::error::{
    BlockError, Ed25519Error, ScriptError, SubsidyError, TransactionError,
};

#[test]
fn subsidy_error_into_transaction_error() {
    assert_eq!(
        TransactionError::from(SubsidyError::FoundersRewardNotFound),
        TransactionError::Subsidy(SubsidyError::FoundersRewardNotFound)
    );
}

#[test]
fn subsidy_error_into_block_error() {
    for err in [SubsidyError::NoCoinbase, SubsidyError::FoundersRewardNotFound] {
        assert_eq!(
            BlockError::from(err),
            BlockError::Transaction(TransactionError::Subsidy(err))
        );
        assert_eq!(BlockError::from(err), BlockError::from(TransactionError::from(err)));
    }
}

#[test]
fn script_and_signature_errors_into_transaction_error() {
    assert_eq!(
        TransactionError::from(ScriptError::ScriptInvalid),
        TransactionError::Script(ScriptError::ScriptInvalid)
    );
    assert_eq!(
        TransactionError::from(Ed25519Error::InvalidSignature),
        TransactionError::Ed25519(Ed25519Error::InvalidSignature)
    );
    assert_ne!(
        TransactionError::RedJubjub(redjubjub::Error::InvalidSignature),
        TransactionError::RedJubjub(redjubjub::Error::MalformedSigningKey)
    );
}

#[test]
fn transaction_error_into_block_error() {
    assert_eq!(
        BlockError::from(TransactionError::Groth16),
        BlockError::Transaction(TransactionError::Groth16)
    );
}
