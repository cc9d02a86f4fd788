//! Wire envelopes, registry lookups and the factory bindings.
use crate::address::Address;
use crate::bytesnat::str_eq;
use crate::consts::{
    geth_simple_account_factory_address, geth_simple_account_factory_bytes,
    msa_factory_sepolia_address, msa_factory_sepolia_bytes, simple_account_factory_address,
    simple_account_factory_bytes,
};
use crate::errors::UserOpBuilderError;
use crate::u256::U256;
use vstd::prelude::*;

verus! {

/// A JSON-RPC request envelope; `params` is whatever the method takes.
pub struct Request<T> {
    pub jsonrpc: String,
    pub id: u64,
    pub method: String,
    pub params: T,
}

/// A JSON-RPC success envelope.
pub struct Response<R> {
    pub jsonrpc: String,
    pub id: u64,
    pub result: R,
}

/// A JSON-RPC error envelope.
pub struct ErrorResponse {
    pub jsonrpc: String,
    pub id: u64,
    pub error: JsonRpcError,
}

/// The error object inside a JSON-RPC error envelope.
pub struct JsonRpcError {
    pub code: i64,
    pub message: String,
}

/// The relay's gas estimate, as returned by the estimation method.
pub struct EstimateResult {
    pub pre_verification_gas: U256,
    pub verification_gas_limit: U256,
    pub call_gas_limit: U256,
    pub paymaster_verification_gas_limit: U256,
    pub paymaster_post_op_gas_limit: U256,
}

/// A contract value paired with the address it is deployed at.
pub struct DeployedContract<C> {
    pub contract: C,
    pub address: Address,
}

impl<C> DeployedContract<C> {
    pub fn new(contract: C, addr: Address) -> (r: Self)
        ensures
            r.contract == contract,
            r.address@ == addr@,
    {
        DeployedContract { contract, address: addr }
    }

    pub fn contract(&self) -> (r: &C)
        ensures
            *r == self.contract,
    {
        &self.contract
    }
}

/// The closed set of account implementations a builder can be asked for.
#[derive(Debug, Clone, Copy, PartialEq, Eq, Structural)]
pub enum WalletRegistry {
    SimpleAccount,
    MSABasicAccount,
}

impl WalletRegistry {
    /// Resolves a human-readable account-kind label; unknown labels fail by
    /// name.
    pub fn from_str(s: &str) -> (r: Result<WalletRegistry, UserOpBuilderError>)
        ensures
            (s@ == "simple-account"@ || s@ == "simple-account-test"@) ==> r
                == Ok::<WalletRegistry, UserOpBuilderError>(WalletRegistry::SimpleAccount),
            s@ == "msa-basic-account"@ ==> r == Ok::<WalletRegistry, UserOpBuilderError>(
                WalletRegistry::MSABasicAccount,
            ),
            !(s@ == "simple-account"@ || s@ == "simple-account-test"@ || s@
                == "msa-basic-account"@) ==> (r matches Err(
                UserOpBuilderError::UnsupportedWalletKind(name),
            ) && name@ == s@),
    {
        proof {
            reveal_strlit("simple-account");
            reveal_strlit("simple-account-test");
            reveal_strlit("msa-basic-account");
            assert("simple-account"@.len() == 14);
            assert("simple-account-test"@.len() == 19);
            assert("msa-basic-account"@.len() == 17);
        }
        if str_eq(s, "simple-account") {
            Ok(WalletRegistry::SimpleAccount)
        } else if str_eq(s, "simple-account-test") {
            Ok(WalletRegistry::SimpleAccount)
        } else if str_eq(s, "msa-basic-account") {
            Ok(WalletRegistry::MSABasicAccount)
        } else {
            Err(UserOpBuilderError::UnsupportedWalletKind(s.to_owned()))
        }
    }
}

/// The factory address registered for an account-kind label.
pub enum WalletFactoryAddresses {
    SimpleAccountFactoryAddress(Address),
    MSABasicFactoryAddress(Address),
}

impl WalletFactoryAddresses {
    /// Resolves a label to the deployed factory address for the active
    /// network; unknown labels fail by name.
    pub fn from_str(s: &str) -> (r: Result<WalletFactoryAddresses, UserOpBuilderError>)
        ensures
            s@ == "simple-account"@ ==> (r matches Ok(
                WalletFactoryAddresses::SimpleAccountFactoryAddress(a),
            ) && a@ == simple_account_factory_bytes()),
            s@ == "simple-account-test"@ ==> (r matches Ok(
                WalletFactoryAddresses::SimpleAccountFactoryAddress(a),
            ) && a@ == geth_simple_account_factory_bytes()),
            s@ == "msa-account-sepolia"@ ==> (r matches Ok(
                WalletFactoryAddresses::MSABasicFactoryAddress(a),
            ) && a@ == msa_factory_sepolia_bytes()),
            !(s@ == "simple-account"@ || s@ == "simple-account-test"@ || s@
                == "msa-account-sepolia"@) ==> (r matches Err(
                UserOpBuilderError::UnsupportedFactoryKind(name),
            ) && name@ == s@),
    {
        proof {
            reveal_strlit("simple-account");
            reveal_strlit("simple-account-test");
            reveal_strlit("msa-account-sepolia");
            assert("simple-account"@.len() == 14);
            assert("simple-account-test"@.len() == 19);
            assert("msa-account-sepolia"@.len() == 19);
            assert("simple-account-test"@ != "msa-account-sepolia"@) by {
                assert("simple-account-test"@[0] == 's');
                assert("msa-account-sepolia"@[0] == 'm');
            }
        }
        if str_eq(s, "simple-account") {
            Ok(
                WalletFactoryAddresses::SimpleAccountFactoryAddress(
                    simple_account_factory_address(),
                ),
            )
        } else if str_eq(s, "simple-account-test") {
            Ok(
                WalletFactoryAddresses::SimpleAccountFactoryAddress(
                    geth_simple_account_factory_address(),
                ),
            )
        } else if str_eq(s, "msa-account-sepolia") {
            Ok(WalletFactoryAddresses::MSABasicFactoryAddress(msa_factory_sepolia_address()))
        } else {
            Err(UserOpBuilderError::UnsupportedFactoryKind(s.to_owned()))
        }
    }
}

/// A resolved factory binding: the factory's kind together with its deployed
/// address. Dispatch on the kind picks the argument shape of the factory's
/// address-query and creation calls.
pub enum WalletFactoryRegistry {
    SimpleAccountFactory(Address),
    MSABasicFactory(Address),
}

impl WalletFactoryRegistry {
    /// The bound factory's address.
    pub open spec fn addr_view(self) -> Seq<u8> {
        match self {
            WalletFactoryRegistry::SimpleAccountFactory(a) => a@,
            WalletFactoryRegistry::MSABasicFactory(a) => a@,
        }
    }
}

impl Clone for WalletFactoryRegistry {
    fn clone(&self) -> (r: Self)
        ensures
            self matches WalletFactoryRegistry::SimpleAccountFactory(a) ==> (r matches
                WalletFactoryRegistry::SimpleAccountFactory(b) && b@ == a@),
            self matches WalletFactoryRegistry::MSABasicFactory(a) ==> (r matches
                WalletFactoryRegistry::MSABasicFactory(b) && b@ == a@),
    {
        match self {
            WalletFactoryRegistry::SimpleAccountFactory(a) => {
                WalletFactoryRegistry::SimpleAccountFactory(a.clone())
            },
            WalletFactoryRegistry::MSABasicFactory(a) => {
                WalletFactoryRegistry::MSABasicFactory(a.clone())
            },
        }
    }
}

/// The per-client map from account address to the account implementation
/// standing for it.
pub type WalletMap = Vec<(Address, WalletRegistry)>;

} // verus!
