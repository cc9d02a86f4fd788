//! Typed errors for the builder, the relay client and hex decoding.
use crate::decimal::{dec_str, u64_to_dec_string};
use vstd::prelude::*;

verus! {

/// Errors raised while decoding a hexadecimal string.
#[derive(Debug, Clone)]
pub enum FromHexError {
    /// A character outside the hex alphabet, with its position in the input
    /// (after any `0x` prefix has been removed).
    InvalidHexCharacter(char, usize),
    /// The input does not hold exactly the number of digits asked for.
    InvalidHexLength,
}

/// Validation errors raised while assembling a user operation.
#[derive(Debug, Clone)]
pub enum UserOpBuilderError {
    /// The counterfactual wallet address has not been derived or supplied yet.
    SmartContractWalletAddressNotSet,
    /// A wallet contract already exists at the counterfactual address.
    SmartContractWalletHasBeenDeployed,
    /// No wallet contract exists at the given address yet.
    SmartContractWalletHasNotBeenDeployed,
    /// A field of the user operation was never set; carries the field name.
    MissingUserOperationField(String),
    /// No wallet implementation is registered under this label.
    UnsupportedWalletKind(String),
    /// No factory is registered under this label.
    UnsupportedFactoryKind(String),
    UnknownError,
}

impl UserOpBuilderError {
    /// The wording of a builder error.
    pub open spec fn message_spec(&self) -> Seq<char> {
        match self {
            UserOpBuilderError::SmartContractWalletAddressNotSet => {
                "Smart contract wallet address has not been set"@
            },
            UserOpBuilderError::SmartContractWalletHasBeenDeployed => {
                "Smart contract wallet has been deployed for the given counter-factual address"@
            },
            UserOpBuilderError::SmartContractWalletHasNotBeenDeployed => {
                "Smart contract wallet has not been deployed for the given address. Cannot perform the current function call"@
            },
            UserOpBuilderError::MissingUserOperationField(name) => {
                "The field in the UserOperation is not set. Call the set_uo_"@ + name@
                    + " function to set"@
            },
            UserOpBuilderError::UnsupportedWalletKind(name) => {
                name@ + " wallet currently not supported"@
            },
            UserOpBuilderError::UnsupportedFactoryKind(name) => {
                name@ + "'s factory not supported"@
            },
            UserOpBuilderError::UnknownError => "Unknown error"@,
        }
    }

    /// Renders the error as its message text.
    pub fn message(&self) -> (r: String)
        ensures
            r@ == self.message_spec(),
    {
        match self {
            UserOpBuilderError::SmartContractWalletAddressNotSet => {
                String::from_str("Smart contract wallet address has not been set")
            },
            UserOpBuilderError::SmartContractWalletHasBeenDeployed => {
                String::from_str(
                    "Smart contract wallet has been deployed for the given counter-factual address",
                )
            },
            UserOpBuilderError::SmartContractWalletHasNotBeenDeployed => {
                String::from_str(
                    "Smart contract wallet has not been deployed for the given address. Cannot perform the current function call",
                )
            },
            UserOpBuilderError::MissingUserOperationField(name) => {
                let mut s = String::from_str(
                    "The field in the UserOperation is not set. Call the set_uo_",
                );
                s.append(name.as_str());
                s.append(" function to set");
                s
            },
            UserOpBuilderError::UnsupportedWalletKind(name) => {
                let mut s = name.clone();
                s.append(" wallet currently not supported");
                s
            },
            UserOpBuilderError::UnsupportedFactoryKind(name) => {
                let mut s = name.clone();
                s.append("'s factory not supported");
                s
            },
            UserOpBuilderError::UnknownError => String::from_str("Unknown error"),
        }
    }
}

/// Errors reported by, or while talking to, the bundler relay.
#[derive(Debug, Clone)]
pub enum UserOpMiddlewareError {
    SmartContractWalletDeploymentError,
    UserOpBuilderError(UserOpBuilderError),
    /// The relay computed a higher pre-verification gas than was provided:
    /// `(provided, calculated)`.
    PreVerificationGasError(u64, u64),
    /// The supplied call gas limit is below the relay's estimation:
    /// `(limit, estimation)`.
    CallGasLimitError(u64, u64),
    /// The operation ran over the verification gas limit.
    VerificationGasLimitError,
    /// A fee average was requested over zero qualifying transactions.
    EmptyFeeSampleError,
    UnknownError,
}

impl UserOpMiddlewareError {
    /// The wording of a relay-client error; a wrapped builder error keeps
    /// its own wording.
    pub open spec fn message_spec(&self) -> Seq<char> {
        match self {
            UserOpMiddlewareError::SmartContractWalletDeploymentError => {
                "Error occurred during smart contract wallet deployment"@
            },
            UserOpMiddlewareError::UserOpBuilderError(inner) => inner.message_spec(),
            UserOpMiddlewareError::PreVerificationGasError(a, b) => {
                "Pre-verification gas not enough: calculated: "@ + dec_str(*a as nat)
                    + ", provided: "@ + dec_str(*b as nat)
            },
            UserOpMiddlewareError::CallGasLimitError(a, b) => {
                "Call gas limit not enough: calculated: "@ + dec_str(*a as nat) + ", provided: "@
                    + dec_str(*b as nat)
            },
            UserOpMiddlewareError::VerificationGasLimitError => {
                "Verification gas limit not enough"@
            },
            UserOpMiddlewareError::EmptyFeeSampleError => {
                "No transaction in the sampled block carries both fee fields"@
            },
            UserOpMiddlewareError::UnknownError => "Unknown error"@,
        }
    }

    /// Renders the error as its message text.
    pub fn message(&self) -> (r: String)
        ensures
            r@ == self.message_spec(),
    {
        match self {
            UserOpMiddlewareError::SmartContractWalletDeploymentError => {
                String::from_str("Error occurred during smart contract wallet deployment")
            },
            UserOpMiddlewareError::UserOpBuilderError(inner) => inner.message(),
            UserOpMiddlewareError::PreVerificationGasError(a, b) => {
                let mut s = String::from_str("Pre-verification gas not enough: calculated: ");
                s.append(u64_to_dec_string(*a).as_str());
                s.append(", provided: ");
                s.append(u64_to_dec_string(*b).as_str());
                s
            },
            UserOpMiddlewareError::CallGasLimitError(a, b) => {
                let mut s = String::from_str("Call gas limit not enough: calculated: ");
                s.append(u64_to_dec_string(*a).as_str());
                s.append(", provided: ");
                s.append(u64_to_dec_string(*b).as_str());
                s
            },
            UserOpMiddlewareError::VerificationGasLimitError => {
                String::from_str("Verification gas limit not enough")
            },
            UserOpMiddlewareError::EmptyFeeSampleError => {
                String::from_str("No transaction in the sampled block carries both fee fields")
            },
            UserOpMiddlewareError::UnknownError => String::from_str("Unknown error"),
        }
    }
}

} // verus!
