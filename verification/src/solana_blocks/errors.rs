//! The ledger's vocabulary of errors, and its wire form.

use crate::json::{lemma_members_view, lemma_values_view, Value, ValueView};
use crate::text::str_eq;
use crate::wire::Wire;
use vstd::prelude::*;

verus! {

/// Why the ledger refused or failed a transaction. The names are those of the
/// ledger's published vocabulary and are written to the wire as they stand.
#[derive(Debug, PartialEq, Eq)]
pub enum TransactionError {
    AccountInUse,
    AccountLoadedTwice,
    AccountNotFound,
    ProgramAccountNotFound,
    InsufficientFundsForFee,
    InvalidAccountForFee,
    AlreadyProcessed,
    BlockhashNotFound,
    /// An instruction failed; the first field is the index of the instruction in
    /// the transaction.
    InstructionError(u8, InstructionError),
    CallChainTooDeep,
    MissingSignatureForFee,
    InvalidAccountIndex,
    SignatureFailure,
    InvalidProgramForExecution,
    SanitizeFailure,
    ClusterMaintenance,
    AccountBorrowOutstanding,
    WouldExceedMaxBlockCostLimit,
    UnsupportedVersion,
    InvalidWritableAccount,
}

/// Why an instruction of a transaction failed. Two cases carry a payload:
/// `Custom` a 32-bit code, `BorshIoError` a diagnostic text.
#[derive(Debug, PartialEq, Eq)]
pub enum InstructionError {
    GenericError,
    InvalidArgument,
    InvalidInstructionData,
    InvalidAccountData,
    AccountDataTooSmall,
    InsufficientFunds,
    IncorrectProgramId,
    MissingRequiredSignature,
    AccountAlreadyInitialized,
    UninitializedAccount,
    UnbalancedInstruction,
    ModifiedProgramId,
    ExternalAccountLamportSpend,
    ExternalAccountDataModified,
    ReadonlyLamportChange,
    ReadonlyDataModified,
    DuplicateAccountIndex,
    ExecutableModified,
    RentEpochModified,
    NotEnoughAccountKeys,
    AccountDataSizeChanged,
    AccountNotExecutable,
    AccountBorrowFailed,
    AccountBorrowOutstanding,
    DuplicateAccountOutOfSync,
    /// A code of the program's own.
    Custom(u32),
    InvalidError,
    ExecutableDataModified,
    ExecutableLamportChange,
    ExecutableAccountNotRentExempt,
    UnsupportedProgramId,
    CallDepth,
    MissingAccount,
    ReentrancyNotAllowed,
    MaxSeedLengthExceeded,
    InvalidSeeds,
    InvalidRealloc,
    ComputationalBudgetExceeded,
    PrivilegeEscalation,
    ProgramEnvironmentSetupFailure,
    ProgramFailedToComplete,
    ProgramFailedToCompile,
    Immutable,
    IncorrectAuthority,
    /// A failure to read or write account data, with the diagnostic text.
    BorshIoError(String),
    AccountNotRentExempt,
    InvalidAccountOwner,
    ArithmeticOverflow,
    UnsupportedSysvar,
    IllegalOwner,
}

/// The mathematical model of a [`TransactionError`].
pub enum TransactionErrorView {
    AccountInUse,
    AccountLoadedTwice,
    AccountNotFound,
    ProgramAccountNotFound,
    InsufficientFundsForFee,
    InvalidAccountForFee,
    AlreadyProcessed,
    BlockhashNotFound,
    InstructionError(u8, InstructionErrorView),
    CallChainTooDeep,
    MissingSignatureForFee,
    InvalidAccountIndex,
    SignatureFailure,
    InvalidProgramForExecution,
    SanitizeFailure,
    ClusterMaintenance,
    AccountBorrowOutstanding,
    WouldExceedMaxBlockCostLimit,
    UnsupportedVersion,
    InvalidWritableAccount,
}

/// The mathematical model of an [`InstructionError`].
pub enum InstructionErrorView {
    GenericError,
    InvalidArgument,
    InvalidInstructionData,
    InvalidAccountData,
    AccountDataTooSmall,
    InsufficientFunds,
    IncorrectProgramId,
    MissingRequiredSignature,
    AccountAlreadyInitialized,
    UninitializedAccount,
    UnbalancedInstruction,
    ModifiedProgramId,
    ExternalAccountLamportSpend,
    ExternalAccountDataModified,
    ReadonlyLamportChange,
    ReadonlyDataModified,
    DuplicateAccountIndex,
    ExecutableModified,
    RentEpochModified,
    NotEnoughAccountKeys,
    AccountDataSizeChanged,
    AccountNotExecutable,
    AccountBorrowFailed,
    AccountBorrowOutstanding,
    DuplicateAccountOutOfSync,
    Custom(u32),
    InvalidError,
    ExecutableDataModified,
    ExecutableLamportChange,
    ExecutableAccountNotRentExempt,
    UnsupportedProgramId,
    CallDepth,
    MissingAccount,
    ReentrancyNotAllowed,
    MaxSeedLengthExceeded,
    InvalidSeeds,
    InvalidRealloc,
    ComputationalBudgetExceeded,
    PrivilegeEscalation,
    ProgramEnvironmentSetupFailure,
    ProgramFailedToComplete,
    ProgramFailedToCompile,
    Immutable,
    IncorrectAuthority,
    BorshIoError(Seq<char>),
    AccountNotRentExempt,
    InvalidAccountOwner,
    ArithmeticOverflow,
    UnsupportedSysvar,
    IllegalOwner,
}

impl DeepView for InstructionError {
    type V = InstructionErrorView;

    open spec fn deep_view(&self) -> InstructionErrorView {
        match self {
            InstructionError::GenericError => InstructionErrorView::GenericError,
            InstructionError::InvalidArgument => InstructionErrorView::InvalidArgument,
            InstructionError::InvalidInstructionData => {
                InstructionErrorView::InvalidInstructionData
            },
            InstructionError::InvalidAccountData => InstructionErrorView::InvalidAccountData,
            InstructionError::AccountDataTooSmall => InstructionErrorView::AccountDataTooSmall,
            InstructionError::InsufficientFunds => InstructionErrorView::InsufficientFunds,
            InstructionError::IncorrectProgramId => InstructionErrorView::IncorrectProgramId,
            InstructionError::MissingRequiredSignature => {
                InstructionErrorView::MissingRequiredSignature
            },
            InstructionError::AccountAlreadyInitialized => {
                InstructionErrorView::AccountAlreadyInitialized
            },
            InstructionError::UninitializedAccount => InstructionErrorView::UninitializedAccount,
            InstructionError::UnbalancedInstruction => InstructionErrorView::UnbalancedInstruction,
            InstructionError::ModifiedProgramId => InstructionErrorView::ModifiedProgramId,
            InstructionError::ExternalAccountLamportSpend => {
                InstructionErrorView::ExternalAccountLamportSpend
            },
            InstructionError::ExternalAccountDataModified => {
                InstructionErrorView::ExternalAccountDataModified
            },
            InstructionError::ReadonlyLamportChange => InstructionErrorView::ReadonlyLamportChange,
            InstructionError::ReadonlyDataModified => InstructionErrorView::ReadonlyDataModified,
            InstructionError::DuplicateAccountIndex => InstructionErrorView::DuplicateAccountIndex,
            InstructionError::ExecutableModified => InstructionErrorView::ExecutableModified,
            InstructionError::RentEpochModified => InstructionErrorView::RentEpochModified,
            InstructionError::NotEnoughAccountKeys => InstructionErrorView::NotEnoughAccountKeys,
            InstructionError::AccountDataSizeChanged => {
                InstructionErrorView::AccountDataSizeChanged
            },
            InstructionError::AccountNotExecutable => InstructionErrorView::AccountNotExecutable,
            InstructionError::AccountBorrowFailed => InstructionErrorView::AccountBorrowFailed,
            InstructionError::AccountBorrowOutstanding => {
                InstructionErrorView::AccountBorrowOutstanding
            },
            InstructionError::DuplicateAccountOutOfSync => {
                InstructionErrorView::DuplicateAccountOutOfSync
            },
            InstructionError::Custom(code) => InstructionErrorView::Custom(*code),
            InstructionError::InvalidError => InstructionErrorView::InvalidError,
            InstructionError::ExecutableDataModified => {
                InstructionErrorView::ExecutableDataModified
            },
            InstructionError::ExecutableLamportChange => {
                InstructionErrorView::ExecutableLamportChange
            },
            InstructionError::ExecutableAccountNotRentExempt => {
                InstructionErrorView::ExecutableAccountNotRentExempt
            },
            InstructionError::UnsupportedProgramId => InstructionErrorView::UnsupportedProgramId,
            InstructionError::CallDepth => InstructionErrorView::CallDepth,
            InstructionError::MissingAccount => InstructionErrorView::MissingAccount,
            InstructionError::ReentrancyNotAllowed => InstructionErrorView::ReentrancyNotAllowed,
            InstructionError::MaxSeedLengthExceeded => InstructionErrorView::MaxSeedLengthExceeded,
            InstructionError::InvalidSeeds => InstructionErrorView::InvalidSeeds,
            InstructionError::InvalidRealloc => InstructionErrorView::InvalidRealloc,
            InstructionError::ComputationalBudgetExceeded => {
                InstructionErrorView::ComputationalBudgetExceeded
            },
            InstructionError::PrivilegeEscalation => InstructionErrorView::PrivilegeEscalation,
            InstructionError::ProgramEnvironmentSetupFailure => {
                InstructionErrorView::ProgramEnvironmentSetupFailure
            },
            InstructionError::ProgramFailedToComplete => {
                InstructionErrorView::ProgramFailedToComplete
            },
            InstructionError::ProgramFailedToCompile => {
                InstructionErrorView::ProgramFailedToCompile
            },
            InstructionError::Immutable => InstructionErrorView::Immutable,
            InstructionError::IncorrectAuthority => InstructionErrorView::IncorrectAuthority,
            InstructionError::BorshIoError(text) => InstructionErrorView::BorshIoError(text@),
            InstructionError::AccountNotRentExempt => InstructionErrorView::AccountNotRentExempt,
            InstructionError::InvalidAccountOwner => InstructionErrorView::InvalidAccountOwner,
            InstructionError::ArithmeticOverflow => InstructionErrorView::ArithmeticOverflow,
            InstructionError::UnsupportedSysvar => InstructionErrorView::UnsupportedSysvar,
            InstructionError::IllegalOwner => InstructionErrorView::IllegalOwner,
        }
    }
}

impl DeepView for TransactionError {
    type V = TransactionErrorView;

    open spec fn deep_view(&self) -> TransactionErrorView {
        match self {
            TransactionError::AccountInUse => TransactionErrorView::AccountInUse,
            TransactionError::AccountLoadedTwice => TransactionErrorView::AccountLoadedTwice,
            TransactionError::AccountNotFound => TransactionErrorView::AccountNotFound,
            TransactionError::ProgramAccountNotFound => {
                TransactionErrorView::ProgramAccountNotFound
            },
            TransactionError::InsufficientFundsForFee => {
                TransactionErrorView::InsufficientFundsForFee
            },
            TransactionError::InvalidAccountForFee => TransactionErrorView::InvalidAccountForFee,
            TransactionError::AlreadyProcessed => TransactionErrorView::AlreadyProcessed,
            TransactionError::BlockhashNotFound => TransactionErrorView::BlockhashNotFound,
            TransactionError::InstructionError(index, error) => {
                TransactionErrorView::InstructionError(*index, error.deep_view())
            },
            TransactionError::CallChainTooDeep => TransactionErrorView::CallChainTooDeep,
            TransactionError::MissingSignatureForFee => {
                TransactionErrorView::MissingSignatureForFee
            },
            TransactionError::InvalidAccountIndex => TransactionErrorView::InvalidAccountIndex,
            TransactionError::SignatureFailure => TransactionErrorView::SignatureFailure,
            TransactionError::InvalidProgramForExecution => {
                TransactionErrorView::InvalidProgramForExecution
            },
            TransactionError::SanitizeFailure => TransactionErrorView::SanitizeFailure,
            TransactionError::ClusterMaintenance => TransactionErrorView::ClusterMaintenance,
            TransactionError::AccountBorrowOutstanding => {
                TransactionErrorView::AccountBorrowOutstanding
            },
            TransactionError::WouldExceedMaxBlockCostLimit => {
                TransactionErrorView::WouldExceedMaxBlockCostLimit
            },
            TransactionError::UnsupportedVersion => TransactionErrorView::UnsupportedVersion,
            TransactionError::InvalidWritableAccount => {
                TransactionErrorView::InvalidWritableAccount
            },
        }
    }
}

impl Clone for InstructionError {
    fn clone(&self) -> (copy: InstructionError)
        ensures
            copy.deep_view() == self.deep_view(),
    {
        match self {
            InstructionError::GenericError => InstructionError::GenericError,
            InstructionError::InvalidArgument => InstructionError::InvalidArgument,
            InstructionError::InvalidInstructionData => InstructionError::InvalidInstructionData,
            InstructionError::InvalidAccountData => InstructionError::InvalidAccountData,
            InstructionError::AccountDataTooSmall => InstructionError::AccountDataTooSmall,
            InstructionError::InsufficientFunds => InstructionError::InsufficientFunds,
            InstructionError::IncorrectProgramId => InstructionError::IncorrectProgramId,
            InstructionError::MissingRequiredSignature => {
                InstructionError::MissingRequiredSignature
            },
            InstructionError::AccountAlreadyInitialized => {
                InstructionError::AccountAlreadyInitialized
            },
            InstructionError::UninitializedAccount => InstructionError::UninitializedAccount,
            InstructionError::UnbalancedInstruction => InstructionError::UnbalancedInstruction,
            InstructionError::ModifiedProgramId => InstructionError::ModifiedProgramId,
            InstructionError::ExternalAccountLamportSpend => {
                InstructionError::ExternalAccountLamportSpend
            },
            InstructionError::ExternalAccountDataModified => {
                InstructionError::ExternalAccountDataModified
            },
            InstructionError::ReadonlyLamportChange => InstructionError::ReadonlyLamportChange,
            InstructionError::ReadonlyDataModified => InstructionError::ReadonlyDataModified,
            InstructionError::DuplicateAccountIndex => InstructionError::DuplicateAccountIndex,
            InstructionError::ExecutableModified => InstructionError::ExecutableModified,
            InstructionError::RentEpochModified => InstructionError::RentEpochModified,
            InstructionError::NotEnoughAccountKeys => InstructionError::NotEnoughAccountKeys,
            InstructionError::AccountDataSizeChanged => InstructionError::AccountDataSizeChanged,
            InstructionError::AccountNotExecutable => InstructionError::AccountNotExecutable,
            InstructionError::AccountBorrowFailed => InstructionError::AccountBorrowFailed,
            InstructionError::AccountBorrowOutstanding => {
                InstructionError::AccountBorrowOutstanding
            },
            InstructionError::DuplicateAccountOutOfSync => {
                InstructionError::DuplicateAccountOutOfSync
            },
            InstructionError::Custom(code) => InstructionError::Custom(*code),
            InstructionError::InvalidError => InstructionError::InvalidError,
            InstructionError::ExecutableDataModified => InstructionError::ExecutableDataModified,
            InstructionError::ExecutableLamportChange => InstructionError::ExecutableLamportChange,
            InstructionError::ExecutableAccountNotRentExempt => {
                InstructionError::ExecutableAccountNotRentExempt
            },
            InstructionError::UnsupportedProgramId => InstructionError::UnsupportedProgramId,
            InstructionError::CallDepth => InstructionError::CallDepth,
            InstructionError::MissingAccount => InstructionError::MissingAccount,
            InstructionError::ReentrancyNotAllowed => InstructionError::ReentrancyNotAllowed,
            InstructionError::MaxSeedLengthExceeded => InstructionError::MaxSeedLengthExceeded,
            InstructionError::InvalidSeeds => InstructionError::InvalidSeeds,
            InstructionError::InvalidRealloc => InstructionError::InvalidRealloc,
            InstructionError::ComputationalBudgetExceeded => {
                InstructionError::ComputationalBudgetExceeded
            },
            InstructionError::PrivilegeEscalation => InstructionError::PrivilegeEscalation,
            InstructionError::ProgramEnvironmentSetupFailure => {
                InstructionError::ProgramEnvironmentSetupFailure
            },
            InstructionError::ProgramFailedToComplete => InstructionError::ProgramFailedToComplete,
            InstructionError::ProgramFailedToCompile => InstructionError::ProgramFailedToCompile,
            InstructionError::Immutable => InstructionError::Immutable,
            InstructionError::IncorrectAuthority => InstructionError::IncorrectAuthority,
            InstructionError::BorshIoError(text) => InstructionError::BorshIoError(text.clone()),
            InstructionError::AccountNotRentExempt => InstructionError::AccountNotRentExempt,
            InstructionError::InvalidAccountOwner => InstructionError::InvalidAccountOwner,
            InstructionError::ArithmeticOverflow => InstructionError::ArithmeticOverflow,
            InstructionError::UnsupportedSysvar => InstructionError::UnsupportedSysvar,
            InstructionError::IllegalOwner => InstructionError::IllegalOwner,
        }
    }
}

impl Clone for TransactionError {
    fn clone(&self) -> (copy: TransactionError)
        ensures
            copy.deep_view() == self.deep_view(),
    {
        match self {
            TransactionError::AccountInUse => TransactionError::AccountInUse,
            TransactionError::AccountLoadedTwice => TransactionError::AccountLoadedTwice,
            TransactionError::AccountNotFound => TransactionError::AccountNotFound,
            TransactionError::ProgramAccountNotFound => TransactionError::ProgramAccountNotFound,
            TransactionError::InsufficientFundsForFee => TransactionError::InsufficientFundsForFee,
            TransactionError::InvalidAccountForFee => TransactionError::InvalidAccountForFee,
            TransactionError::AlreadyProcessed => TransactionError::AlreadyProcessed,
            TransactionError::BlockhashNotFound => TransactionError::BlockhashNotFound,
            TransactionError::InstructionError(index, error) => {
                TransactionError::InstructionError(*index, error.clone())
            },
            TransactionError::CallChainTooDeep => TransactionError::CallChainTooDeep,
            TransactionError::MissingSignatureForFee => TransactionError::MissingSignatureForFee,
            TransactionError::InvalidAccountIndex => TransactionError::InvalidAccountIndex,
            TransactionError::SignatureFailure => TransactionError::SignatureFailure,
            TransactionError::InvalidProgramForExecution => {
                TransactionError::InvalidProgramForExecution
            },
            TransactionError::SanitizeFailure => TransactionError::SanitizeFailure,
            TransactionError::ClusterMaintenance => TransactionError::ClusterMaintenance,
            TransactionError::AccountBorrowOutstanding => {
                TransactionError::AccountBorrowOutstanding
            },
            TransactionError::WouldExceedMaxBlockCostLimit => {
                TransactionError::WouldExceedMaxBlockCostLimit
            },
            TransactionError::UnsupportedVersion => TransactionError::UnsupportedVersion,
            TransactionError::InvalidWritableAccount => TransactionError::InvalidWritableAccount,
        }
    }
}

impl InstructionErrorView {
    /// The name under which the case is written to the wire.
    pub open spec fn tag(self) -> Seq<char> {
        match self {
            InstructionErrorView::GenericError => "GenericError"@,
            InstructionErrorView::InvalidArgument => "InvalidArgument"@,
            InstructionErrorView::InvalidInstructionData => "InvalidInstructionData"@,
            InstructionErrorView::InvalidAccountData => "InvalidAccountData"@,
            InstructionErrorView::AccountDataTooSmall => "AccountDataTooSmall"@,
            InstructionErrorView::InsufficientFunds => "InsufficientFunds"@,
            InstructionErrorView::IncorrectProgramId => "IncorrectProgramId"@,
            InstructionErrorView::MissingRequiredSignature => "MissingRequiredSignature"@,
            InstructionErrorView::AccountAlreadyInitialized => "AccountAlreadyInitialized"@,
            InstructionErrorView::UninitializedAccount => "UninitializedAccount"@,
            InstructionErrorView::UnbalancedInstruction => "UnbalancedInstruction"@,
            InstructionErrorView::ModifiedProgramId => "ModifiedProgramId"@,
            InstructionErrorView::ExternalAccountLamportSpend => "ExternalAccountLamportSpend"@,
            InstructionErrorView::ExternalAccountDataModified => "ExternalAccountDataModified"@,
            InstructionErrorView::ReadonlyLamportChange => "ReadonlyLamportChange"@,
            InstructionErrorView::ReadonlyDataModified => "ReadonlyDataModified"@,
            InstructionErrorView::DuplicateAccountIndex => "DuplicateAccountIndex"@,
            InstructionErrorView::ExecutableModified => "ExecutableModified"@,
            InstructionErrorView::RentEpochModified => "RentEpochModified"@,
            InstructionErrorView::NotEnoughAccountKeys => "NotEnoughAccountKeys"@,
            InstructionErrorView::AccountDataSizeChanged => "AccountDataSizeChanged"@,
            InstructionErrorView::AccountNotExecutable => "AccountNotExecutable"@,
            InstructionErrorView::AccountBorrowFailed => "AccountBorrowFailed"@,
            InstructionErrorView::AccountBorrowOutstanding => "AccountBorrowOutstanding"@,
            InstructionErrorView::DuplicateAccountOutOfSync => "DuplicateAccountOutOfSync"@,
            InstructionErrorView::Custom(_) => "Custom"@,
            InstructionErrorView::InvalidError => "InvalidError"@,
            InstructionErrorView::ExecutableDataModified => "ExecutableDataModified"@,
            InstructionErrorView::ExecutableLamportChange => "ExecutableLamportChange"@,
            InstructionErrorView::ExecutableAccountNotRentExempt => {
                "ExecutableAccountNotRentExempt"@
            },
            InstructionErrorView::UnsupportedProgramId => "UnsupportedProgramId"@,
            InstructionErrorView::CallDepth => "CallDepth"@,
            InstructionErrorView::MissingAccount => "MissingAccount"@,
            InstructionErrorView::ReentrancyNotAllowed => "ReentrancyNotAllowed"@,
            InstructionErrorView::MaxSeedLengthExceeded => "MaxSeedLengthExceeded"@,
            InstructionErrorView::InvalidSeeds => "InvalidSeeds"@,
            InstructionErrorView::InvalidRealloc => "InvalidRealloc"@,
            InstructionErrorView::ComputationalBudgetExceeded => "ComputationalBudgetExceeded"@,
            InstructionErrorView::PrivilegeEscalation => "PrivilegeEscalation"@,
            InstructionErrorView::ProgramEnvironmentSetupFailure => {
                "ProgramEnvironmentSetupFailure"@
            },
            InstructionErrorView::ProgramFailedToComplete => "ProgramFailedToComplete"@,
            InstructionErrorView::ProgramFailedToCompile => "ProgramFailedToCompile"@,
            InstructionErrorView::Immutable => "Immutable"@,
            InstructionErrorView::IncorrectAuthority => "IncorrectAuthority"@,
            InstructionErrorView::BorshIoError(_) => "BorshIoError"@,
            InstructionErrorView::AccountNotRentExempt => "AccountNotRentExempt"@,
            InstructionErrorView::InvalidAccountOwner => "InvalidAccountOwner"@,
            InstructionErrorView::ArithmeticOverflow => "ArithmeticOverflow"@,
            InstructionErrorView::UnsupportedSysvar => "UnsupportedSysvar"@,
            InstructionErrorView::IllegalOwner => "IllegalOwner"@,
        }
    }

    /// The case without a payload that is written as `tag`.
    pub open spec fn from_unit_tag(tag: Seq<char>) -> Option<InstructionErrorView> {
        if tag == "GenericError"@ {
            Some(InstructionErrorView::GenericError)
        } else if tag == "InvalidArgument"@ {
            Some(InstructionErrorView::InvalidArgument)
        } else if tag == "InvalidInstructionData"@ {
            Some(InstructionErrorView::InvalidInstructionData)
        } else if tag == "InvalidAccountData"@ {
            Some(InstructionErrorView::InvalidAccountData)
        } else if tag == "AccountDataTooSmall"@ {
            Some(InstructionErrorView::AccountDataTooSmall)
        } else if tag == "InsufficientFunds"@ {
            Some(InstructionErrorView::InsufficientFunds)
        } else if tag == "IncorrectProgramId"@ {
            Some(InstructionErrorView::IncorrectProgramId)
        } else if tag == "MissingRequiredSignature"@ {
            Some(InstructionErrorView::MissingRequiredSignature)
        } else if tag == "AccountAlreadyInitialized"@ {
            Some(InstructionErrorView::AccountAlreadyInitialized)
        } else if tag == "UninitializedAccount"@ {
            Some(InstructionErrorView::UninitializedAccount)
        } else if tag == "UnbalancedInstruction"@ {
            Some(InstructionErrorView::UnbalancedInstruction)
        } else if tag == "ModifiedProgramId"@ {
            Some(InstructionErrorView::ModifiedProgramId)
        } else if tag == "ExternalAccountLamportSpend"@ {
            Some(InstructionErrorView::ExternalAccountLamportSpend)
        } else if tag == "ExternalAccountDataModified"@ {
            Some(InstructionErrorView::ExternalAccountDataModified)
        } else if tag == "ReadonlyLamportChange"@ {
            Some(InstructionErrorView::ReadonlyLamportChange)
        } else if tag == "ReadonlyDataModified"@ {
            Some(InstructionErrorView::ReadonlyDataModified)
        } else if tag == "DuplicateAccountIndex"@ {
            Some(InstructionErrorView::DuplicateAccountIndex)
        } else if tag == "ExecutableModified"@ {
            Some(InstructionErrorView::ExecutableModified)
        } else if tag == "RentEpochModified"@ {
            Some(InstructionErrorView::RentEpochModified)
        } else if tag == "NotEnoughAccountKeys"@ {
            Some(InstructionErrorView::NotEnoughAccountKeys)
        } else if tag == "AccountDataSizeChanged"@ {
            Some(InstructionErrorView::AccountDataSizeChanged)
        } else if tag == "AccountNotExecutable"@ {
            Some(InstructionErrorView::AccountNotExecutable)
        } else if tag == "AccountBorrowFailed"@ {
            Some(InstructionErrorView::AccountBorrowFailed)
        } else if tag == "AccountBorrowOutstanding"@ {
            Some(InstructionErrorView::AccountBorrowOutstanding)
        } else if tag == "DuplicateAccountOutOfSync"@ {
            Some(InstructionErrorView::DuplicateAccountOutOfSync)
        } else if tag == "InvalidError"@ {
            Some(InstructionErrorView::InvalidError)
        } else if tag == "ExecutableDataModified"@ {
            Some(InstructionErrorView::ExecutableDataModified)
        } else if tag == "ExecutableLamportChange"@ {
            Some(InstructionErrorView::ExecutableLamportChange)
        } else if tag == "ExecutableAccountNotRentExempt"@ {
            Some(InstructionErrorView::ExecutableAccountNotRentExempt)
        } else if tag == "UnsupportedProgramId"@ {
            Some(InstructionErrorView::UnsupportedProgramId)
        } else if tag == "CallDepth"@ {
            Some(InstructionErrorView::CallDepth)
        } else if tag == "MissingAccount"@ {
            Some(InstructionErrorView::MissingAccount)
        } else if tag == "ReentrancyNotAllowed"@ {
            Some(InstructionErrorView::ReentrancyNotAllowed)
        } else if tag == "MaxSeedLengthExceeded"@ {
            Some(InstructionErrorView::MaxSeedLengthExceeded)
        } else if tag == "InvalidSeeds"@ {
            Some(InstructionErrorView::InvalidSeeds)
        } else if tag == "InvalidRealloc"@ {
            Some(InstructionErrorView::InvalidRealloc)
        } else if tag == "ComputationalBudgetExceeded"@ {
            Some(InstructionErrorView::ComputationalBudgetExceeded)
        } else if tag == "PrivilegeEscalation"@ {
            Some(InstructionErrorView::PrivilegeEscalation)
        } else if tag == "ProgramEnvironmentSetupFailure"@ {
            Some(InstructionErrorView::ProgramEnvironmentSetupFailure)
        } else if tag == "ProgramFailedToComplete"@ {
            Some(InstructionErrorView::ProgramFailedToComplete)
        } else if tag == "ProgramFailedToCompile"@ {
            Some(InstructionErrorView::ProgramFailedToCompile)
        } else if tag == "Immutable"@ {
            Some(InstructionErrorView::Immutable)
        } else if tag == "IncorrectAuthority"@ {
            Some(InstructionErrorView::IncorrectAuthority)
        } else if tag == "AccountNotRentExempt"@ {
            Some(InstructionErrorView::AccountNotRentExempt)
        } else if tag == "InvalidAccountOwner"@ {
            Some(InstructionErrorView::InvalidAccountOwner)
        } else if tag == "ArithmeticOverflow"@ {
            Some(InstructionErrorView::ArithmeticOverflow)
        } else if tag == "UnsupportedSysvar"@ {
            Some(InstructionErrorView::UnsupportedSysvar)
        } else if tag == "IllegalOwner"@ {
            Some(InstructionErrorView::IllegalOwner)
        } else {
            None
        }
    }

    /// The case with a payload that is written as an object with the one
    /// member `tag`.
    pub open spec fn from_payload(tag: Seq<char>, payload: ValueView) -> Option<
        InstructionErrorView,
    > {
        if tag == "Custom"@ {
            match u32::decoded(payload) {
                Some(code) => Some(InstructionErrorView::Custom(code)),
                None => None,
            }
        } else if tag == "BorshIoError"@ {
            match String::decoded(payload) {
                Some(text) => Some(InstructionErrorView::BorshIoError(text)),
                None => None,
            }
        } else {
            None
        }
    }
}

impl TransactionErrorView {
    /// The name under which the case is written to the wire.
    pub open spec fn tag(self) -> Seq<char> {
        match self {
            TransactionErrorView::AccountInUse => "AccountInUse"@,
            TransactionErrorView::AccountLoadedTwice => "AccountLoadedTwice"@,
            TransactionErrorView::AccountNotFound => "AccountNotFound"@,
            TransactionErrorView::ProgramAccountNotFound => "ProgramAccountNotFound"@,
            TransactionErrorView::InsufficientFundsForFee => "InsufficientFundsForFee"@,
            TransactionErrorView::InvalidAccountForFee => "InvalidAccountForFee"@,
            TransactionErrorView::AlreadyProcessed => "AlreadyProcessed"@,
            TransactionErrorView::BlockhashNotFound => "BlockhashNotFound"@,
            TransactionErrorView::InstructionError(_, _) => "InstructionError"@,
            TransactionErrorView::CallChainTooDeep => "CallChainTooDeep"@,
            TransactionErrorView::MissingSignatureForFee => "MissingSignatureForFee"@,
            TransactionErrorView::InvalidAccountIndex => "InvalidAccountIndex"@,
            TransactionErrorView::SignatureFailure => "SignatureFailure"@,
            TransactionErrorView::InvalidProgramForExecution => "InvalidProgramForExecution"@,
            TransactionErrorView::SanitizeFailure => "SanitizeFailure"@,
            TransactionErrorView::ClusterMaintenance => "ClusterMaintenance"@,
            TransactionErrorView::AccountBorrowOutstanding => "AccountBorrowOutstanding"@,
            TransactionErrorView::WouldExceedMaxBlockCostLimit => "WouldExceedMaxBlockCostLimit"@,
            TransactionErrorView::UnsupportedVersion => "UnsupportedVersion"@,
            TransactionErrorView::InvalidWritableAccount => "InvalidWritableAccount"@,
        }
    }

    /// The case without a payload that is written as `tag`.
    pub open spec fn from_unit_tag(tag: Seq<char>) -> Option<TransactionErrorView> {
        if tag == "AccountInUse"@ {
            Some(TransactionErrorView::AccountInUse)
        } else if tag == "AccountLoadedTwice"@ {
            Some(TransactionErrorView::AccountLoadedTwice)
        } else if tag == "AccountNotFound"@ {
            Some(TransactionErrorView::AccountNotFound)
        } else if tag == "ProgramAccountNotFound"@ {
            Some(TransactionErrorView::ProgramAccountNotFound)
        } else if tag == "InsufficientFundsForFee"@ {
            Some(TransactionErrorView::InsufficientFundsForFee)
        } else if tag == "InvalidAccountForFee"@ {
            Some(TransactionErrorView::InvalidAccountForFee)
        } else if tag == "AlreadyProcessed"@ {
            Some(TransactionErrorView::AlreadyProcessed)
        } else if tag == "BlockhashNotFound"@ {
            Some(TransactionErrorView::BlockhashNotFound)
        } else if tag == "CallChainTooDeep"@ {
            Some(TransactionErrorView::CallChainTooDeep)
        } else if tag == "MissingSignatureForFee"@ {
            Some(TransactionErrorView::MissingSignatureForFee)
        } else if tag == "InvalidAccountIndex"@ {
            Some(TransactionErrorView::InvalidAccountIndex)
        } else if tag == "SignatureFailure"@ {
            Some(TransactionErrorView::SignatureFailure)
        } else if tag == "InvalidProgramForExecution"@ {
            Some(TransactionErrorView::InvalidProgramForExecution)
        } else if tag == "SanitizeFailure"@ {
            Some(TransactionErrorView::SanitizeFailure)
        } else if tag == "ClusterMaintenance"@ {
            Some(TransactionErrorView::ClusterMaintenance)
        } else if tag == "AccountBorrowOutstanding"@ {
            Some(TransactionErrorView::AccountBorrowOutstanding)
        } else if tag == "WouldExceedMaxBlockCostLimit"@ {
            Some(TransactionErrorView::WouldExceedMaxBlockCostLimit)
        } else if tag == "UnsupportedVersion"@ {
            Some(TransactionErrorView::UnsupportedVersion)
        } else if tag == "InvalidWritableAccount"@ {
            Some(TransactionErrorView::InvalidWritableAccount)
        } else {
            None
        }
    }

    /// The case with a payload that is written as an object with the one
    /// member `tag`: an instruction's index and its error, as an array of two.
    pub open spec fn from_payload(tag: Seq<char>, payload: ValueView) -> Option<
        TransactionErrorView,
    > {
        if tag == "InstructionError"@ {
            match payload {
                ValueView::Array(pair) if pair.len() == 2 => match (
                    u8::decoded(pair[0]),
                    InstructionError::decoded(pair[1]),
                ) {
                    (Some(index), Some(error)) => Some(
                        TransactionErrorView::InstructionError(index, error),
                    ),
                    _ => None,
                },
                _ => None,
            }
        } else {
            None
        }
    }
}

/// The names of the instruction errors differ from one another.
pub proof fn lemma_instruction_error_tags(a: InstructionErrorView, b: InstructionErrorView)
    requires
        a.tag() == b.tag(),
    ensures
        a is Custom <==> b is Custom,
        a is BorshIoError <==> b is BorshIoError,
        !(a is Custom) && !(a is BorshIoError) ==> a == b,
{
    // names of one length differ in their third, eleventh or sixteenth letter
    reveal_strlit("GenericError");
    assert("GenericError"@.len() == 12 && "GenericError"@[2] == 'n' && "GenericError"@[10] == 'o');
    reveal_strlit("InvalidArgument");
    assert(
        "InvalidArgument"@.len() == 15
        && "InvalidArgument"@[2] == 'v'
        && "InvalidArgument"@[10] == 'u'
    );
    reveal_strlit("InvalidInstructionData");
    assert(
        "InvalidInstructionData"@.len() == 22
        && "InvalidInstructionData"@[2] == 'v'
        && "InvalidInstructionData"@[10] == 't'
        && "InvalidInstructionData"@[15] == 'i'
    );
    reveal_strlit("InvalidAccountData");
    assert(
        "InvalidAccountData"@.len() == 18
        && "InvalidAccountData"@[2] == 'v'
        && "InvalidAccountData"@[10] == 'o'
        && "InvalidAccountData"@[15] == 'a'
    );
    reveal_strlit("AccountDataTooSmall");
    assert(
        "AccountDataTooSmall"@.len() == 19
        && "AccountDataTooSmall"@[2] == 'c'
        && "AccountDataTooSmall"@[10] == 'a'
        && "AccountDataTooSmall"@[15] == 'm'
    );
    reveal_strlit("InsufficientFunds");
    assert(
        "InsufficientFunds"@.len() == 17
        && "InsufficientFunds"@[2] == 's'
        && "InsufficientFunds"@[10] == 'n'
        && "InsufficientFunds"@[15] == 'd'
    );
    reveal_strlit("IncorrectProgramId");
    assert(
        "IncorrectProgramId"@.len() == 18
        && "IncorrectProgramId"@[2] == 'c'
        && "IncorrectProgramId"@[10] == 'r'
        && "IncorrectProgramId"@[15] == 'm'
    );
    reveal_strlit("MissingRequiredSignature");
    assert(
        "MissingRequiredSignature"@.len() == 24
        && "MissingRequiredSignature"@[2] == 's'
        && "MissingRequiredSignature"@[10] == 'u'
        && "MissingRequiredSignature"@[15] == 'S'
    );
    reveal_strlit("AccountAlreadyInitialized");
    assert(
        "AccountAlreadyInitialized"@.len() == 25
        && "AccountAlreadyInitialized"@[2] == 'c'
        && "AccountAlreadyInitialized"@[10] == 'e'
        && "AccountAlreadyInitialized"@[15] == 'n'
    );
    reveal_strlit("UninitializedAccount");
    assert(
        "UninitializedAccount"@.len() == 20
        && "UninitializedAccount"@[2] == 'i'
        && "UninitializedAccount"@[10] == 'z'
        && "UninitializedAccount"@[15] == 'c'
    );
    reveal_strlit("UnbalancedInstruction");
    assert(
        "UnbalancedInstruction"@.len() == 21
        && "UnbalancedInstruction"@[2] == 'b'
        && "UnbalancedInstruction"@[10] == 'I'
        && "UnbalancedInstruction"@[15] == 'u'
    );
    reveal_strlit("ModifiedProgramId");
    assert(
        "ModifiedProgramId"@.len() == 17
        && "ModifiedProgramId"@[2] == 'd'
        && "ModifiedProgramId"@[10] == 'o'
        && "ModifiedProgramId"@[15] == 'I'
    );
    reveal_strlit("ExternalAccountLamportSpend");
    assert(
        "ExternalAccountLamportSpend"@.len() == 27
        && "ExternalAccountLamportSpend"@[2] == 't'
        && "ExternalAccountLamportSpend"@[10] == 'c'
        && "ExternalAccountLamportSpend"@[15] == 'L'
    );
    reveal_strlit("ExternalAccountDataModified");
    assert(
        "ExternalAccountDataModified"@.len() == 27
        && "ExternalAccountDataModified"@[2] == 't'
        && "ExternalAccountDataModified"@[10] == 'c'
        && "ExternalAccountDataModified"@[15] == 'D'
    );
    reveal_strlit("ReadonlyLamportChange");
    assert(
        "ReadonlyLamportChange"@.len() == 21
        && "ReadonlyLamportChange"@[2] == 'a'
        && "ReadonlyLamportChange"@[10] == 'm'
        && "ReadonlyLamportChange"@[15] == 'C'
    );
    reveal_strlit("ReadonlyDataModified");
    assert(
        "ReadonlyDataModified"@.len() == 20
        && "ReadonlyDataModified"@[2] == 'a'
        && "ReadonlyDataModified"@[10] == 't'
        && "ReadonlyDataModified"@[15] == 'i'
    );
    reveal_strlit("DuplicateAccountIndex");
    assert(
        "DuplicateAccountIndex"@.len() == 21
        && "DuplicateAccountIndex"@[2] == 'p'
        && "DuplicateAccountIndex"@[10] == 'c'
        && "DuplicateAccountIndex"@[15] == 't'
    );
    reveal_strlit("ExecutableModified");
    assert(
        "ExecutableModified"@.len() == 18
        && "ExecutableModified"@[2] == 'e'
        && "ExecutableModified"@[10] == 'M'
        && "ExecutableModified"@[15] == 'i'
    );
    reveal_strlit("RentEpochModified");
    assert(
        "RentEpochModified"@.len() == 17
        && "RentEpochModified"@[2] == 'n'
        && "RentEpochModified"@[10] == 'o'
        && "RentEpochModified"@[15] == 'e'
    );
    reveal_strlit("NotEnoughAccountKeys");
    assert(
        "NotEnoughAccountKeys"@.len() == 20
        && "NotEnoughAccountKeys"@[2] == 't'
        && "NotEnoughAccountKeys"@[10] == 'c'
        && "NotEnoughAccountKeys"@[15] == 't'
    );
    reveal_strlit("AccountDataSizeChanged");
    assert(
        "AccountDataSizeChanged"@.len() == 22
        && "AccountDataSizeChanged"@[2] == 'c'
        && "AccountDataSizeChanged"@[10] == 'a'
        && "AccountDataSizeChanged"@[15] == 'C'
    );
    reveal_strlit("AccountNotExecutable");
    assert(
        "AccountNotExecutable"@.len() == 20
        && "AccountNotExecutable"@[2] == 'c'
        && "AccountNotExecutable"@[10] == 'E'
        && "AccountNotExecutable"@[15] == 't'
    );
    reveal_strlit("AccountBorrowFailed");
    assert(
        "AccountBorrowFailed"@.len() == 19
        && "AccountBorrowFailed"@[2] == 'c'
        && "AccountBorrowFailed"@[10] == 'r'
        && "AccountBorrowFailed"@[15] == 'i'
    );
    reveal_strlit("AccountBorrowOutstanding");
    assert(
        "AccountBorrowOutstanding"@.len() == 24
        && "AccountBorrowOutstanding"@[2] == 'c'
        && "AccountBorrowOutstanding"@[10] == 'r'
        && "AccountBorrowOutstanding"@[15] == 't'
    );
    reveal_strlit("DuplicateAccountOutOfSync");
    assert(
        "DuplicateAccountOutOfSync"@.len() == 25
        && "DuplicateAccountOutOfSync"@[2] == 'p'
        && "DuplicateAccountOutOfSync"@[10] == 'c'
        && "DuplicateAccountOutOfSync"@[15] == 't'
    );
    reveal_strlit("Custom");
    assert("Custom"@.len() == 6 && "Custom"@[2] == 's');
    reveal_strlit("InvalidError");
    assert("InvalidError"@.len() == 12 && "InvalidError"@[2] == 'v' && "InvalidError"@[10] == 'o');
    reveal_strlit("ExecutableDataModified");
    assert(
        "ExecutableDataModified"@.len() == 22
        && "ExecutableDataModified"@[2] == 'e'
        && "ExecutableDataModified"@[10] == 'D'
        && "ExecutableDataModified"@[15] == 'o'
    );
    reveal_strlit("ExecutableLamportChange");
    assert(
        "ExecutableLamportChange"@.len() == 23
        && "ExecutableLamportChange"@[2] == 'e'
        && "ExecutableLamportChange"@[10] == 'L'
        && "ExecutableLamportChange"@[15] == 'r'
    );
    reveal_strlit("ExecutableAccountNotRentExempt");
    assert(
        "ExecutableAccountNotRentExempt"@.len() == 30
        && "ExecutableAccountNotRentExempt"@[2] == 'e'
        && "ExecutableAccountNotRentExempt"@[10] == 'A'
        && "ExecutableAccountNotRentExempt"@[15] == 'n'
    );
    reveal_strlit("UnsupportedProgramId");
    assert(
        "UnsupportedProgramId"@.len() == 20
        && "UnsupportedProgramId"@[2] == 's'
        && "UnsupportedProgramId"@[10] == 'd'
        && "UnsupportedProgramId"@[15] == 'r'
    );
    reveal_strlit("CallDepth");
    assert("CallDepth"@.len() == 9 && "CallDepth"@[2] == 'l');
    reveal_strlit("MissingAccount");
    assert(
        "MissingAccount"@.len() == 14
        && "MissingAccount"@[2] == 's'
        && "MissingAccount"@[10] == 'o'
    );
    reveal_strlit("ReentrancyNotAllowed");
    assert(
        "ReentrancyNotAllowed"@.len() == 20
        && "ReentrancyNotAllowed"@[2] == 'e'
        && "ReentrancyNotAllowed"@[10] == 'N'
        && "ReentrancyNotAllowed"@[15] == 'l'
    );
    reveal_strlit("MaxSeedLengthExceeded");
    assert(
        "MaxSeedLengthExceeded"@.len() == 21
        && "MaxSeedLengthExceeded"@[2] == 'x'
        && "MaxSeedLengthExceeded"@[10] == 'g'
        && "MaxSeedLengthExceeded"@[15] == 'c'
    );
    reveal_strlit("InvalidSeeds");
    assert("InvalidSeeds"@.len() == 12 && "InvalidSeeds"@[2] == 'v' && "InvalidSeeds"@[10] == 'd');
    reveal_strlit("InvalidRealloc");
    assert(
        "InvalidRealloc"@.len() == 14
        && "InvalidRealloc"@[2] == 'v'
        && "InvalidRealloc"@[10] == 'l'
    );
    reveal_strlit("ComputationalBudgetExceeded");
    assert(
        "ComputationalBudgetExceeded"@.len() == 27
        && "ComputationalBudgetExceeded"@[2] == 'm'
        && "ComputationalBudgetExceeded"@[10] == 'n'
        && "ComputationalBudgetExceeded"@[15] == 'd'
    );
    reveal_strlit("PrivilegeEscalation");
    assert(
        "PrivilegeEscalation"@.len() == 19
        && "PrivilegeEscalation"@[2] == 'i'
        && "PrivilegeEscalation"@[10] == 's'
        && "PrivilegeEscalation"@[15] == 't'
    );
    reveal_strlit("ProgramEnvironmentSetupFailure");
    assert(
        "ProgramEnvironmentSetupFailure"@.len() == 30
        && "ProgramEnvironmentSetupFailure"@[2] == 'o'
        && "ProgramEnvironmentSetupFailure"@[10] == 'i'
        && "ProgramEnvironmentSetupFailure"@[15] == 'e'
    );
    reveal_strlit("ProgramFailedToComplete");
    assert(
        "ProgramFailedToComplete"@.len() == 23
        && "ProgramFailedToComplete"@[2] == 'o'
        && "ProgramFailedToComplete"@[10] == 'l'
        && "ProgramFailedToComplete"@[15] == 'C'
    );
    reveal_strlit("ProgramFailedToCompile");
    assert(
        "ProgramFailedToCompile"@.len() == 22
        && "ProgramFailedToCompile"@[2] == 'o'
        && "ProgramFailedToCompile"@[10] == 'l'
        && "ProgramFailedToCompile"@[15] == 'C'
    );
    reveal_strlit("Immutable");
    assert("Immutable"@.len() == 9 && "Immutable"@[2] == 'm');
    reveal_strlit("IncorrectAuthority");
    assert(
        "IncorrectAuthority"@.len() == 18
        && "IncorrectAuthority"@[2] == 'c'
        && "IncorrectAuthority"@[10] == 'u'
        && "IncorrectAuthority"@[15] == 'i'
    );
    reveal_strlit("BorshIoError");
    assert("BorshIoError"@.len() == 12 && "BorshIoError"@[2] == 'r' && "BorshIoError"@[10] == 'o');
    reveal_strlit("AccountNotRentExempt");
    assert(
        "AccountNotRentExempt"@.len() == 20
        && "AccountNotRentExempt"@[2] == 'c'
        && "AccountNotRentExempt"@[10] == 'R'
        && "AccountNotRentExempt"@[15] == 'x'
    );
    reveal_strlit("InvalidAccountOwner");
    assert(
        "InvalidAccountOwner"@.len() == 19
        && "InvalidAccountOwner"@[2] == 'v'
        && "InvalidAccountOwner"@[10] == 'o'
        && "InvalidAccountOwner"@[15] == 'w'
    );
    reveal_strlit("ArithmeticOverflow");
    assert(
        "ArithmeticOverflow"@.len() == 18
        && "ArithmeticOverflow"@[2] == 'i'
        && "ArithmeticOverflow"@[10] == 'O'
        && "ArithmeticOverflow"@[15] == 'l'
    );
    reveal_strlit("UnsupportedSysvar");
    assert(
        "UnsupportedSysvar"@.len() == 17
        && "UnsupportedSysvar"@[2] == 's'
        && "UnsupportedSysvar"@[10] == 'd'
        && "UnsupportedSysvar"@[15] == 'a'
    );
    reveal_strlit("IllegalOwner");
    assert("IllegalOwner"@.len() == 12 && "IllegalOwner"@[2] == 'l' && "IllegalOwner"@[10] == 'e');
}

/// The names of the transaction errors differ from one another.
pub proof fn lemma_transaction_error_tags(a: TransactionErrorView, b: TransactionErrorView)
    requires
        a.tag() == b.tag(),
    ensures
        a is InstructionError <==> b is InstructionError,
        !(a is InstructionError) ==> a == b,
{
    // names of one length differ in their first letter
    reveal_strlit("AccountInUse");
    assert("AccountInUse"@.len() == 12 && "AccountInUse"@[0] == 'A');
    reveal_strlit("AccountLoadedTwice");
    assert("AccountLoadedTwice"@.len() == 18 && "AccountLoadedTwice"@[0] == 'A');
    reveal_strlit("AccountNotFound");
    assert("AccountNotFound"@.len() == 15 && "AccountNotFound"@[0] == 'A');
    reveal_strlit("ProgramAccountNotFound");
    assert("ProgramAccountNotFound"@.len() == 22 && "ProgramAccountNotFound"@[0] == 'P');
    reveal_strlit("InsufficientFundsForFee");
    assert("InsufficientFundsForFee"@.len() == 23 && "InsufficientFundsForFee"@[0] == 'I');
    reveal_strlit("InvalidAccountForFee");
    assert("InvalidAccountForFee"@.len() == 20 && "InvalidAccountForFee"@[0] == 'I');
    reveal_strlit("AlreadyProcessed");
    assert("AlreadyProcessed"@.len() == 16 && "AlreadyProcessed"@[0] == 'A');
    reveal_strlit("BlockhashNotFound");
    assert("BlockhashNotFound"@.len() == 17 && "BlockhashNotFound"@[0] == 'B');
    reveal_strlit("InstructionError");
    assert("InstructionError"@.len() == 16 && "InstructionError"@[0] == 'I');
    reveal_strlit("CallChainTooDeep");
    assert("CallChainTooDeep"@.len() == 16 && "CallChainTooDeep"@[0] == 'C');
    reveal_strlit("MissingSignatureForFee");
    assert("MissingSignatureForFee"@.len() == 22 && "MissingSignatureForFee"@[0] == 'M');
    reveal_strlit("InvalidAccountIndex");
    assert("InvalidAccountIndex"@.len() == 19 && "InvalidAccountIndex"@[0] == 'I');
    reveal_strlit("SignatureFailure");
    assert("SignatureFailure"@.len() == 16 && "SignatureFailure"@[0] == 'S');
    reveal_strlit("InvalidProgramForExecution");
    assert("InvalidProgramForExecution"@.len() == 26 && "InvalidProgramForExecution"@[0] == 'I');
    reveal_strlit("SanitizeFailure");
    assert("SanitizeFailure"@.len() == 15 && "SanitizeFailure"@[0] == 'S');
    reveal_strlit("ClusterMaintenance");
    assert("ClusterMaintenance"@.len() == 18 && "ClusterMaintenance"@[0] == 'C');
    reveal_strlit("AccountBorrowOutstanding");
    assert("AccountBorrowOutstanding"@.len() == 24 && "AccountBorrowOutstanding"@[0] == 'A');
    reveal_strlit("WouldExceedMaxBlockCostLimit");
    assert(
        "WouldExceedMaxBlockCostLimit"@.len() == 28
        && "WouldExceedMaxBlockCostLimit"@[0] == 'W'
    );
    reveal_strlit("UnsupportedVersion");
    assert("UnsupportedVersion"@.len() == 18 && "UnsupportedVersion"@[0] == 'U');
    reveal_strlit("InvalidWritableAccount");
    assert("InvalidWritableAccount"@.len() == 22 && "InvalidWritableAccount"@[0] == 'I');
}

/// Reading the name of a case without a payload gives that case.
pub proof fn lemma_instruction_error_unit_tag(v: InstructionErrorView)
    requires
        !(v is Custom),
        !(v is BorshIoError),
    ensures
        InstructionErrorView::from_unit_tag(v.tag()) == Some(v),
{
    let found = InstructionErrorView::from_unit_tag(v.tag());
    assert(found is Some);
    assert(found->Some_0.tag() == v.tag());
    assert(!(found->Some_0 is Custom) && !(found->Some_0 is BorshIoError));
    lemma_instruction_error_tags(found->Some_0, v);
}

/// Reading the name of a case without a payload gives that case.
pub proof fn lemma_transaction_error_unit_tag(v: TransactionErrorView)
    requires
        !(v is InstructionError),
    ensures
        TransactionErrorView::from_unit_tag(v.tag()) == Some(v),
{
    let found = TransactionErrorView::from_unit_tag(v.tag());
    assert(found is Some);
    assert(found->Some_0.tag() == v.tag());
    assert(!(found->Some_0 is InstructionError));
    lemma_transaction_error_tags(found->Some_0, v);
}

impl InstructionError {
    /// The name under which the case is written to the wire.
    pub fn tag(&self) -> (name: &'static str)
        ensures
            name@ == self.deep_view().tag(),
    {
        match self {
            InstructionError::GenericError => "GenericError",
            InstructionError::InvalidArgument => "InvalidArgument",
            InstructionError::InvalidInstructionData => "InvalidInstructionData",
            InstructionError::InvalidAccountData => "InvalidAccountData",
            InstructionError::AccountDataTooSmall => "AccountDataTooSmall",
            InstructionError::InsufficientFunds => "InsufficientFunds",
            InstructionError::IncorrectProgramId => "IncorrectProgramId",
            InstructionError::MissingRequiredSignature => "MissingRequiredSignature",
            InstructionError::AccountAlreadyInitialized => "AccountAlreadyInitialized",
            InstructionError::UninitializedAccount => "UninitializedAccount",
            InstructionError::UnbalancedInstruction => "UnbalancedInstruction",
            InstructionError::ModifiedProgramId => "ModifiedProgramId",
            InstructionError::ExternalAccountLamportSpend => "ExternalAccountLamportSpend",
            InstructionError::ExternalAccountDataModified => "ExternalAccountDataModified",
            InstructionError::ReadonlyLamportChange => "ReadonlyLamportChange",
            InstructionError::ReadonlyDataModified => "ReadonlyDataModified",
            InstructionError::DuplicateAccountIndex => "DuplicateAccountIndex",
            InstructionError::ExecutableModified => "ExecutableModified",
            InstructionError::RentEpochModified => "RentEpochModified",
            InstructionError::NotEnoughAccountKeys => "NotEnoughAccountKeys",
            InstructionError::AccountDataSizeChanged => "AccountDataSizeChanged",
            InstructionError::AccountNotExecutable => "AccountNotExecutable",
            InstructionError::AccountBorrowFailed => "AccountBorrowFailed",
            InstructionError::AccountBorrowOutstanding => "AccountBorrowOutstanding",
            InstructionError::DuplicateAccountOutOfSync => "DuplicateAccountOutOfSync",
            InstructionError::Custom(_) => "Custom",
            InstructionError::InvalidError => "InvalidError",
            InstructionError::ExecutableDataModified => "ExecutableDataModified",
            InstructionError::ExecutableLamportChange => "ExecutableLamportChange",
            InstructionError::ExecutableAccountNotRentExempt => "ExecutableAccountNotRentExempt",
            InstructionError::UnsupportedProgramId => "UnsupportedProgramId",
            InstructionError::CallDepth => "CallDepth",
            InstructionError::MissingAccount => "MissingAccount",
            InstructionError::ReentrancyNotAllowed => "ReentrancyNotAllowed",
            InstructionError::MaxSeedLengthExceeded => "MaxSeedLengthExceeded",
            InstructionError::InvalidSeeds => "InvalidSeeds",
            InstructionError::InvalidRealloc => "InvalidRealloc",
            InstructionError::ComputationalBudgetExceeded => "ComputationalBudgetExceeded",
            InstructionError::PrivilegeEscalation => "PrivilegeEscalation",
            InstructionError::ProgramEnvironmentSetupFailure => "ProgramEnvironmentSetupFailure",
            InstructionError::ProgramFailedToComplete => "ProgramFailedToComplete",
            InstructionError::ProgramFailedToCompile => "ProgramFailedToCompile",
            InstructionError::Immutable => "Immutable",
            InstructionError::IncorrectAuthority => "IncorrectAuthority",
            InstructionError::BorshIoError(_) => "BorshIoError",
            InstructionError::AccountNotRentExempt => "AccountNotRentExempt",
            InstructionError::InvalidAccountOwner => "InvalidAccountOwner",
            InstructionError::ArithmeticOverflow => "ArithmeticOverflow",
            InstructionError::UnsupportedSysvar => "UnsupportedSysvar",
            InstructionError::IllegalOwner => "IllegalOwner",
        }
    }

    /// The case without a payload that is written as `tag`.
    pub fn from_unit_tag(tag: &str) -> (found: Option<InstructionError>)
        ensures
            found.deep_view() == InstructionErrorView::from_unit_tag(tag@),
    {
        if str_eq(tag, "GenericError") {
            Some(InstructionError::GenericError)
        } else if str_eq(tag, "InvalidArgument") {
            Some(InstructionError::InvalidArgument)
        } else if str_eq(tag, "InvalidInstructionData") {
            Some(InstructionError::InvalidInstructionData)
        } else if str_eq(tag, "InvalidAccountData") {
            Some(InstructionError::InvalidAccountData)
        } else if str_eq(tag, "AccountDataTooSmall") {
            Some(InstructionError::AccountDataTooSmall)
        } else if str_eq(tag, "InsufficientFunds") {
            Some(InstructionError::InsufficientFunds)
        } else if str_eq(tag, "IncorrectProgramId") {
            Some(InstructionError::IncorrectProgramId)
        } else if str_eq(tag, "MissingRequiredSignature") {
            Some(InstructionError::MissingRequiredSignature)
        } else if str_eq(tag, "AccountAlreadyInitialized") {
            Some(InstructionError::AccountAlreadyInitialized)
        } else if str_eq(tag, "UninitializedAccount") {
            Some(InstructionError::UninitializedAccount)
        } else if str_eq(tag, "UnbalancedInstruction") {
            Some(InstructionError::UnbalancedInstruction)
        } else if str_eq(tag, "ModifiedProgramId") {
            Some(InstructionError::ModifiedProgramId)
        } else if str_eq(tag, "ExternalAccountLamportSpend") {
            Some(InstructionError::ExternalAccountLamportSpend)
        } else if str_eq(tag, "ExternalAccountDataModified") {
            Some(InstructionError::ExternalAccountDataModified)
        } else if str_eq(tag, "ReadonlyLamportChange") {
            Some(InstructionError::ReadonlyLamportChange)
        } else if str_eq(tag, "ReadonlyDataModified") {
            Some(InstructionError::ReadonlyDataModified)
        } else if str_eq(tag, "DuplicateAccountIndex") {
            Some(InstructionError::DuplicateAccountIndex)
        } else if str_eq(tag, "ExecutableModified") {
            Some(InstructionError::ExecutableModified)
        } else if str_eq(tag, "RentEpochModified") {
            Some(InstructionError::RentEpochModified)
        } else if str_eq(tag, "NotEnoughAccountKeys") {
            Some(InstructionError::NotEnoughAccountKeys)
        } else if str_eq(tag, "AccountDataSizeChanged") {
            Some(InstructionError::AccountDataSizeChanged)
        } else if str_eq(tag, "AccountNotExecutable") {
            Some(InstructionError::AccountNotExecutable)
        } else if str_eq(tag, "AccountBorrowFailed") {
            Some(InstructionError::AccountBorrowFailed)
        } else if str_eq(tag, "AccountBorrowOutstanding") {
            Some(InstructionError::AccountBorrowOutstanding)
        } else if str_eq(tag, "DuplicateAccountOutOfSync") {
            Some(InstructionError::DuplicateAccountOutOfSync)
        } else if str_eq(tag, "InvalidError") {
            Some(InstructionError::InvalidError)
        } else if str_eq(tag, "ExecutableDataModified") {
            Some(InstructionError::ExecutableDataModified)
        } else if str_eq(tag, "ExecutableLamportChange") {
            Some(InstructionError::ExecutableLamportChange)
        } else if str_eq(tag, "ExecutableAccountNotRentExempt") {
            Some(InstructionError::ExecutableAccountNotRentExempt)
        } else if str_eq(tag, "UnsupportedProgramId") {
            Some(InstructionError::UnsupportedProgramId)
        } else if str_eq(tag, "CallDepth") {
            Some(InstructionError::CallDepth)
        } else if str_eq(tag, "MissingAccount") {
            Some(InstructionError::MissingAccount)
        } else if str_eq(tag, "ReentrancyNotAllowed") {
            Some(InstructionError::ReentrancyNotAllowed)
        } else if str_eq(tag, "MaxSeedLengthExceeded") {
            Some(InstructionError::MaxSeedLengthExceeded)
        } else if str_eq(tag, "InvalidSeeds") {
            Some(InstructionError::InvalidSeeds)
        } else if str_eq(tag, "InvalidRealloc") {
            Some(InstructionError::InvalidRealloc)
        } else if str_eq(tag, "ComputationalBudgetExceeded") {
            Some(InstructionError::ComputationalBudgetExceeded)
        } else if str_eq(tag, "PrivilegeEscalation") {
            Some(InstructionError::PrivilegeEscalation)
        } else if str_eq(tag, "ProgramEnvironmentSetupFailure") {
            Some(InstructionError::ProgramEnvironmentSetupFailure)
        } else if str_eq(tag, "ProgramFailedToComplete") {
            Some(InstructionError::ProgramFailedToComplete)
        } else if str_eq(tag, "ProgramFailedToCompile") {
            Some(InstructionError::ProgramFailedToCompile)
        } else if str_eq(tag, "Immutable") {
            Some(InstructionError::Immutable)
        } else if str_eq(tag, "IncorrectAuthority") {
            Some(InstructionError::IncorrectAuthority)
        } else if str_eq(tag, "AccountNotRentExempt") {
            Some(InstructionError::AccountNotRentExempt)
        } else if str_eq(tag, "InvalidAccountOwner") {
            Some(InstructionError::InvalidAccountOwner)
        } else if str_eq(tag, "ArithmeticOverflow") {
            Some(InstructionError::ArithmeticOverflow)
        } else if str_eq(tag, "UnsupportedSysvar") {
            Some(InstructionError::UnsupportedSysvar)
        } else if str_eq(tag, "IllegalOwner") {
            Some(InstructionError::IllegalOwner)
        } else {
            None
        }
    }
}

impl TransactionError {
    /// The name under which the case is written to the wire.
    pub fn tag(&self) -> (name: &'static str)
        ensures
            name@ == self.deep_view().tag(),
    {
        match self {
            TransactionError::AccountInUse => "AccountInUse",
            TransactionError::AccountLoadedTwice => "AccountLoadedTwice",
            TransactionError::AccountNotFound => "AccountNotFound",
            TransactionError::ProgramAccountNotFound => "ProgramAccountNotFound",
            TransactionError::InsufficientFundsForFee => "InsufficientFundsForFee",
            TransactionError::InvalidAccountForFee => "InvalidAccountForFee",
            TransactionError::AlreadyProcessed => "AlreadyProcessed",
            TransactionError::BlockhashNotFound => "BlockhashNotFound",
            TransactionError::InstructionError(_, _) => "InstructionError",
            TransactionError::CallChainTooDeep => "CallChainTooDeep",
            TransactionError::MissingSignatureForFee => "MissingSignatureForFee",
            TransactionError::InvalidAccountIndex => "InvalidAccountIndex",
            TransactionError::SignatureFailure => "SignatureFailure",
            TransactionError::InvalidProgramForExecution => "InvalidProgramForExecution",
            TransactionError::SanitizeFailure => "SanitizeFailure",
            TransactionError::ClusterMaintenance => "ClusterMaintenance",
            TransactionError::AccountBorrowOutstanding => "AccountBorrowOutstanding",
            TransactionError::WouldExceedMaxBlockCostLimit => "WouldExceedMaxBlockCostLimit",
            TransactionError::UnsupportedVersion => "UnsupportedVersion",
            TransactionError::InvalidWritableAccount => "InvalidWritableAccount",
        }
    }

    /// The case without a payload that is written as `tag`.
    pub fn from_unit_tag(tag: &str) -> (found: Option<TransactionError>)
        ensures
            found.deep_view() == TransactionErrorView::from_unit_tag(tag@),
    {
        if str_eq(tag, "AccountInUse") {
            Some(TransactionError::AccountInUse)
        } else if str_eq(tag, "AccountLoadedTwice") {
            Some(TransactionError::AccountLoadedTwice)
        } else if str_eq(tag, "AccountNotFound") {
            Some(TransactionError::AccountNotFound)
        } else if str_eq(tag, "ProgramAccountNotFound") {
            Some(TransactionError::ProgramAccountNotFound)
        } else if str_eq(tag, "InsufficientFundsForFee") {
            Some(TransactionError::InsufficientFundsForFee)
        } else if str_eq(tag, "InvalidAccountForFee") {
            Some(TransactionError::InvalidAccountForFee)
        } else if str_eq(tag, "AlreadyProcessed") {
            Some(TransactionError::AlreadyProcessed)
        } else if str_eq(tag, "BlockhashNotFound") {
            Some(TransactionError::BlockhashNotFound)
        } else if str_eq(tag, "CallChainTooDeep") {
            Some(TransactionError::CallChainTooDeep)
        } else if str_eq(tag, "MissingSignatureForFee") {
            Some(TransactionError::MissingSignatureForFee)
        } else if str_eq(tag, "InvalidAccountIndex") {
            Some(TransactionError::InvalidAccountIndex)
        } else if str_eq(tag, "SignatureFailure") {
            Some(TransactionError::SignatureFailure)
        } else if str_eq(tag, "InvalidProgramForExecution") {
            Some(TransactionError::InvalidProgramForExecution)
        } else if str_eq(tag, "SanitizeFailure") {
            Some(TransactionError::SanitizeFailure)
        } else if str_eq(tag, "ClusterMaintenance") {
            Some(TransactionError::ClusterMaintenance)
        } else if str_eq(tag, "AccountBorrowOutstanding") {
            Some(TransactionError::AccountBorrowOutstanding)
        } else if str_eq(tag, "WouldExceedMaxBlockCostLimit") {
            Some(TransactionError::WouldExceedMaxBlockCostLimit)
        } else if str_eq(tag, "UnsupportedVersion") {
            Some(TransactionError::UnsupportedVersion)
        } else if str_eq(tag, "InvalidWritableAccount") {
            Some(TransactionError::InvalidWritableAccount)
        } else {
            None
        }
    }
}

/// An object with the one member `tag`.
pub open spec fn tagged(tag: Seq<char>, payload: ValueView) -> ValueView {
    ValueView::Object(seq![(tag, payload)])
}

/// An object with the one member `tag`.
pub fn tagged_value(tag: &str, payload: Value) -> (w: Value)
    ensures
        w.deep_view() == tagged(tag@, payload.deep_view()),
{
    let mut members: Vec<(String, Value)> = Vec::new();
    members.push((tag.to_owned(), payload));
    let w = Value::Object(members);
    proof {
        lemma_members_view(members@);
        assert(w.deep_view()->Object_0 =~= seq![(tag@, payload.deep_view())]);
    }
    w
}

impl Wire for InstructionError {
    open spec fn encoded(v: InstructionErrorView) -> ValueView {
        match v {
            InstructionErrorView::Custom(code) => tagged(v.tag(), u32::encoded(code)),
            InstructionErrorView::BorshIoError(text) => tagged(v.tag(), String::encoded(text)),
            _ => ValueView::String(v.tag()),
        }
    }

    open spec fn decoded(w: ValueView) -> Option<InstructionErrorView> {
        match w {
            ValueView::String(tag) => InstructionErrorView::from_unit_tag(tag),
            ValueView::Object(members) if members.len() == 1 => InstructionErrorView::from_payload(
                members[0].0,
                members[0].1,
            ),
            _ => None,
        }
    }

    proof fn lemma_round_trip(v: InstructionErrorView) {
        match v {
            InstructionErrorView::Custom(code) => {
                u32::lemma_round_trip(code);
            },
            InstructionErrorView::BorshIoError(text) => {
                if v.tag() == InstructionErrorView::Custom(0).tag() {
                    lemma_instruction_error_tags(v, InstructionErrorView::Custom(0));
                }
                String::lemma_round_trip(text);
            },
            _ => {
                lemma_instruction_error_unit_tag(v);
            },
        }
    }

    fn to_value(&self) -> (w: Value) {
        match self {
            InstructionError::Custom(code) => tagged_value(self.tag(), code.to_value()),
            InstructionError::BorshIoError(text) => tagged_value(self.tag(), text.to_value()),
            _ => Value::String(self.tag().to_owned()),
        }
    }

    fn from_value(w: &Value) -> (r: Option<InstructionError>) {
        match w {
            Value::String(tag) => InstructionError::from_unit_tag(tag.as_str()),
            Value::Object(members) => {
                proof {
                    lemma_members_view(members@);
                }
                if members.len() != 1 {
                    return None;
                }
                let tag = members[0].0.as_str();
                if str_eq(tag, "Custom") {
                    match u32::from_value(&members[0].1) {
                        Some(code) => Some(InstructionError::Custom(code)),
                        None => None,
                    }
                } else if str_eq(tag, "BorshIoError") {
                    match String::from_value(&members[0].1) {
                        Some(text) => Some(InstructionError::BorshIoError(text)),
                        None => None,
                    }
                } else {
                    None
                }
            },
            _ => None,
        }
    }
}

impl Wire for TransactionError {
    open spec fn encoded(v: TransactionErrorView) -> ValueView {
        match v {
            TransactionErrorView::InstructionError(index, error) => tagged(
                v.tag(),
                ValueView::Array(seq![u8::encoded(index), InstructionError::encoded(error)]),
            ),
            _ => ValueView::String(v.tag()),
        }
    }

    open spec fn decoded(w: ValueView) -> Option<TransactionErrorView> {
        match w {
            ValueView::String(tag) => TransactionErrorView::from_unit_tag(tag),
            ValueView::Object(members) if members.len() == 1 => TransactionErrorView::from_payload(
                members[0].0,
                members[0].1,
            ),
            _ => None,
        }
    }

    proof fn lemma_round_trip(v: TransactionErrorView) {
        match v {
            TransactionErrorView::InstructionError(index, error) => {
                u8::lemma_round_trip(index);
                InstructionError::lemma_round_trip(error);
            },
            _ => {
                lemma_transaction_error_unit_tag(v);
            },
        }
    }

    fn to_value(&self) -> (w: Value) {
        match self {
            TransactionError::InstructionError(index, error) => {
                let mut pair: Vec<Value> = Vec::new();
                pair.push(index.to_value());
                pair.push(error.to_value());
                let payload = Value::Array(pair);
                proof {
                    lemma_values_view(pair@);
                    assert(payload.deep_view()->Array_0 =~= seq![
                        u8::encoded(*index),
                        InstructionError::encoded(error.deep_view()),
                    ]);
                }
                tagged_value(self.tag(), payload)
            },
            _ => Value::String(self.tag().to_owned()),
        }
    }

    fn from_value(w: &Value) -> (r: Option<TransactionError>) {
        match w {
            Value::String(tag) => TransactionError::from_unit_tag(tag.as_str()),
            Value::Object(members) => {
                proof {
                    lemma_members_view(members@);
                }
                if members.len() != 1 {
                    return None;
                }
                if !str_eq(members[0].0.as_str(), "InstructionError") {
                    return None;
                }
                match &members[0].1 {
                    Value::Array(pair) => {
                        proof {
                            lemma_values_view(pair@);
                        }
                        if pair.len() != 2 {
                            return None;
                        }
                        match (u8::from_value(&pair[0]), InstructionError::from_value(&pair[1])) {
                            (Some(index), Some(error)) => Some(
                                TransactionError::InstructionError(index, error),
                            ),
                            _ => None,
                        }
                    },
                    _ => None,
                }
            },
            _ => None,
        }
    }
}

} // verus!
