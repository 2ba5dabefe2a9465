//! Plans for creating and operating Token-2022 mints.
//!
//! Every operation of the program is a function from the accounts and arguments
//! that it is given to the calls of other programs that carry it out, or to the
//! reason why it is refused. What has to be asked of the runtime, such as what an
//! account costs or which epoch it is, is an argument too. Whoever runs the
//! program makes the calls.
//!
//! - [`t22`] and [`remittance`] hold the operations.
//! - [`constraint`] says which accounts they take.
//! - [`token`], [`system`] and [`metadata`] hold the instructions that they call.
//! - [`state`], [`fee`] and [`extension`] read and measure mints.
//! - [`requests`] reads what an instruction asks for.
//! - [`content_laws`] states what every operation asks for, [`refusal_laws`] when it
//!   is refused, and [`creation_laws`] and [`operation_laws`] what holds of them all.

pub mod constraint;
pub mod content_laws;
pub mod creation_laws;
pub mod error;
pub mod extension;
pub mod fee;
pub mod instruction;
pub mod key;
pub mod metadata;
pub mod operation_laws;
pub mod plan;
pub mod refusal_laws;
pub mod remittance;
pub mod requests;
pub mod state;
pub mod system;
pub mod t22;
pub mod token;

pub use crate::error::MintError;
pub use crate::remittance::{
    CreateRemittanceMint, RemittanceConfidentialArgs, RemittanceMintArgs, ThawRemittanceAccount,
    TransferWithFee,
};
pub use crate::t22::{
    ApplyPendingBalance, AssertSupportedMint, CreateConfidentialFeeMint, CreateConfidentialMint,
    CreateMintDeclarative, CreateMintWithFee, CreateSeizableMint, DelegateToProgram,
    DepositConfidential, PermanentDelegateSeize, AE_CIPHERTEXT_LEN,
};
