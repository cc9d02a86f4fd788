//! The per-account-kind operation builder: accumulates partial fields,
//! derives the counterfactual wallet address, and validates completeness
//! before an operation is produced.
use crate::address::Address;
use crate::bytesnat::{be_bytes, u64_be_bytes};
use crate::errors::UserOpBuilderError;
use crate::h256::H256;
use crate::keccak::{keccak256, keccak_of};
use crate::types::{WalletFactoryAddresses, WalletFactoryRegistry, WalletRegistry};
use crate::u256::U256;
use crate::user_operation::{
    option_view_eq, UserOperation, UserOperationHash, UserOperationPartial,
};
use vstd::prelude::*;

verus! {

/// Labels that resolve to both an account implementation and a factory.
pub open spec fn simple_wallet_label(s: Seq<char>) -> bool {
    s == "simple-account"@ || s == "simple-account-test"@
}

/// The factory address a fully resolvable label binds to.
pub open spec fn label_factory_bytes(s: Seq<char>) -> Seq<u8> {
    if s == "simple-account"@ {
        crate::consts::simple_account_factory_bytes()
    } else {
        crate::consts::geth_simple_account_factory_bytes()
    }
}

/// The name of the first field, in declaration order, that a partial
/// operation is still missing.
pub open spec fn first_missing_field(uo: UserOperationPartial) -> Option<Seq<char>> {
    if uo.sender is None {
        Some("sender"@)
    } else if uo.nonce is None {
        Some("nonce"@)
    } else if uo.factory is None {
        Some("factory"@)
    } else if uo.factory_data is None {
        Some("factory_data"@)
    } else if uo.call_data is None {
        Some("call_data"@)
    } else if uo.call_gas_limit is None {
        Some("call_gas_limit"@)
    } else if uo.verification_gas_limit is None {
        Some("verification_gas_limit"@)
    } else if uo.pre_verification_gas is None {
        Some("pre_verification_gas"@)
    } else if uo.max_fee_per_gas is None {
        Some("max_fee_per_gas"@)
    } else if uo.max_priority_fee_per_gas is None {
        Some("max_priority_fee_per_gas"@)
    } else if uo.paymaster is None {
        Some("paymaster"@)
    } else if uo.paymaster_verification_gas_limit is None {
        Some("paymaster_verification_gas_limit"@)
    } else if uo.paymaster_post_op_gas_limit is None {
        Some("paymaster_post_op_gas_limit"@)
    } else if uo.paymaster_data is None {
        Some("paymaster_data"@)
    } else if uo.signature is None {
        Some("signature"@)
    } else {
        None
    }
}

/// All fields of a partial operation are set.
pub open spec fn partial_complete(uo: UserOperationPartial) -> bool {
    first_missing_field(uo) is None
}

/// No field of a partial operation is set.
pub open spec fn partial_empty(uo: UserOperationPartial) -> bool {
    &&& uo.sender is None
    &&& uo.nonce is None
    &&& uo.factory is None
    &&& uo.factory_data is None
    &&& uo.call_data is None
    &&& uo.call_gas_limit is None
    &&& uo.verification_gas_limit is None
    &&& uo.pre_verification_gas is None
    &&& uo.max_fee_per_gas is None
    &&& uo.max_priority_fee_per_gas is None
    &&& uo.paymaster is None
    &&& uo.paymaster_verification_gas_limit is None
    &&& uo.paymaster_post_op_gas_limit is None
    &&& uo.paymaster_data is None
    &&& uo.signature is None
}

/// The argument shape of the factory's counterfactual-address query, by
/// factory kind.
pub enum ScwAddressQuery {
    /// `getAddress(creator, salt)` on the simple-account factory.
    SimpleAccount { creator: Address, salt: U256 },
    /// `getAddress(hashed_salt, init_code)` on the modular-account factory.
    MSABasic { hashed_salt: H256, init_code: Vec<u8> },
}

/// Builds a user operation for one account kind, resolved through the
/// wallet and factory registries.
pub struct UserOperationBuilder {
    pub factory_contract: WalletFactoryRegistry,
    pub factory_address: Address,
    pub wallet_contract: WalletRegistry,
    pub scw_address: Option<Address>,
    pub signer_address: Address,
    pub salt: Option<u64>,
    pub uo: UserOperationPartial,
    pub uo_hash: Option<UserOperationHash>,
}

impl UserOperationBuilder {
    /// Resolves an account-kind label to the account implementation, the
    /// factory binding and the factory address. The factory registry is
    /// consulted first, so a label known only to the wallet registry fails
    /// as an unsupported factory kind, and one known only to the factory
    /// registry as an unsupported wallet kind.
    pub fn match_wallet(wallet_name: &str) -> (r: Result<
        (WalletRegistry, WalletFactoryRegistry, Address),
        UserOpBuilderError,
    >)
        ensures
            simple_wallet_label(wallet_name@) ==> (r matches Ok(t) && t.0
                == WalletRegistry::SimpleAccount && (t.1 matches
            WalletFactoryRegistry::SimpleAccountFactory(a) && a@ == label_factory_bytes(
                wallet_name@,
            )) && t.2@ == label_factory_bytes(wallet_name@)),
            r matches Ok(t) ==> t.1.addr_view() == t.2@,
            wallet_name@ == "msa-account-sepolia"@ ==> (r matches Err(
                UserOpBuilderError::UnsupportedWalletKind(name),
            ) && name@ == wallet_name@),
            !(simple_wallet_label(wallet_name@) || wallet_name@ == "msa-account-sepolia"@) ==> (
            r matches Err(UserOpBuilderError::UnsupportedFactoryKind(name)) && name@
                == wallet_name@),
    {
        proof {
            reveal_strlit("msa-account-sepolia");
            reveal_strlit("simple-account");
            reveal_strlit("simple-account-test");
            reveal_strlit("msa-basic-account");
            assert("msa-account-sepolia"@.len() == 19);
            assert("simple-account"@.len() == 14);
            assert("simple-account-test"@.len() == 19);
            assert("msa-basic-account"@.len() == 17);
            assert("msa-account-sepolia"@ != "simple-account-test"@) by {
                assert("msa-account-sepolia"@[0] == 'm');
                assert("simple-account-test"@[0] == 's');
            }
        }
        let (factory_contract, factory_address): (WalletFactoryRegistry, Address) =
            match WalletFactoryAddresses::from_str(wallet_name) {
            Ok(WalletFactoryAddresses::SimpleAccountFactoryAddress(addr)) => {
                let addr2 = addr.clone();
                (WalletFactoryRegistry::SimpleAccountFactory(addr), addr2)
            },
            Ok(WalletFactoryAddresses::MSABasicFactoryAddress(addr)) => {
                let addr2 = addr.clone();
                (WalletFactoryRegistry::MSABasicFactory(addr), addr2)
            },
            Err(e) => {
                return Err(e);
            },
        };
        let wallet_contract = match WalletRegistry::from_str(wallet_name) {
            Ok(w) => w,
            Err(e) => {
                return Err(e);
            },
        };
        Ok((wallet_contract, factory_contract, factory_address))
    }

    /// A fresh builder for the signer and account kind; fails for a label
    /// the registries do not both know.
    pub fn new(
        eoa_wallet_address: Address,
        wallet_name: &str,
        scw_address: Option<Address>,
        salt: Option<u64>,
    ) -> (r: Result<Self, UserOpBuilderError>)
        ensures
            simple_wallet_label(wallet_name@) ==> (r matches Ok(b) && {
                &&& b.wallet_contract == WalletRegistry::SimpleAccount
                &&& (b.factory_contract matches WalletFactoryRegistry::SimpleAccountFactory(a)
                    && a@ == label_factory_bytes(wallet_name@))
                &&& b.factory_address@ == label_factory_bytes(wallet_name@)
                &&& option_view_eq(b.scw_address, scw_address)
                &&& b.signer_address@ == eoa_wallet_address@
                &&& b.salt == salt
                &&& partial_empty(b.uo)
                &&& b.uo_hash is None
            }),
            wallet_name@ == "msa-account-sepolia"@ ==> (r matches Err(
                UserOpBuilderError::UnsupportedWalletKind(name),
            ) && name@ == wallet_name@),
            !(simple_wallet_label(wallet_name@) || wallet_name@ == "msa-account-sepolia"@) ==> (
            r matches Err(UserOpBuilderError::UnsupportedFactoryKind(name)) && name@
                == wallet_name@),
    {
        let resolved = match Self::match_wallet(wallet_name) {
            Ok(t) => t,
            Err(e) => {
                return Err(e);
            },
        };
        let (wallet_contract, factory_contract, factory_address) = resolved;
        let uo = UserOperationPartial::empty();
        Ok(
            UserOperationBuilder {
                factory_contract,
                factory_address,
                wallet_contract,
                scw_address,
                signer_address: eoa_wallet_address,
                salt,
                uo,
                uo_hash: None,
            },
        )
    }

    /// Rebuilds a builder around an externally supplied partial operation.
    pub fn from_uo(uo: UserOperationPartial, wallet_name: &str) -> (r: Result<
        Self,
        UserOpBuilderError,
    >)
        ensures
            simple_wallet_label(wallet_name@) ==> (r matches Ok(b) && {
                &&& b.wallet_contract == WalletRegistry::SimpleAccount
                &&& b.factory_address@ == label_factory_bytes(wallet_name@)
                &&& b.scw_address is None
                &&& b.signer_address@ == crate::bytesnat::zero_bytes(20)
                &&& b.salt is None
                &&& b.uo == uo
                &&& b.uo_hash is None
            }),
            !simple_wallet_label(wallet_name@) ==> r is Err,
            wallet_name@ == "msa-account-sepolia"@ ==> (r matches Err(
                UserOpBuilderError::UnsupportedWalletKind(name),
            ) && name@ == wallet_name@),
            !(simple_wallet_label(wallet_name@) || wallet_name@ == "msa-account-sepolia"@) ==> (
            r matches Err(UserOpBuilderError::UnsupportedFactoryKind(name)) && name@
                == wallet_name@),
    {
        let mut builder = match Self::new(Address::zero(), wallet_name, None, None) {
            Ok(b) => b,
            Err(e) => {
                return Err(e);
            },
        };
        builder.set_uo(uo);
        Ok(builder)
    }

    pub fn factory_contract_address(&self) -> (r: Address)
        ensures
            r@ == self.factory_address@,
    {
        self.factory_address.clone()
    }

    pub fn factory_contract(&self) -> (r: WalletFactoryRegistry)
        ensures
            self.factory_contract matches WalletFactoryRegistry::SimpleAccountFactory(a) ==> (
            r matches WalletFactoryRegistry::SimpleAccountFactory(b) && b@ == a@),
            self.factory_contract matches WalletFactoryRegistry::MSABasicFactory(a) ==> (
            r matches WalletFactoryRegistry::MSABasicFactory(b) && b@ == a@),
    {
        self.factory_contract.clone()
    }

    pub fn wallet_contract(&self) -> (r: WalletRegistry)
        ensures
            r == self.wallet_contract,
    {
        self.wallet_contract
    }

    pub fn signer_address(&self) -> (r: Address)
        ensures
            r@ == self.signer_address@,
    {
        self.signer_address.clone()
    }

    pub fn scw_address(&self) -> (r: Option<Address>)
        ensures
            option_view_eq(r, self.scw_address),
    {
        match &self.scw_address {
            Some(a) => Some(a.clone()),
            None => None,
        }
    }

    pub fn salt(&self) -> (r: Option<u64>)
        ensures
            r == self.salt,
    {
        self.salt
    }

    pub fn uo(&self) -> (r: &UserOperationPartial)
        ensures
            r == &self.uo,
    {
        &self.uo
    }

    pub fn uo_hash(&self) -> (r: &Option<UserOperationHash>)
        ensures
            r == &self.uo_hash,
    {
        &self.uo_hash
    }

    /// The argument shape this builder's factory needs for its
    /// counterfactual-address query; fails when no salt was supplied.
    pub fn scw_address_query(&self) -> (r: Result<ScwAddressQuery, UserOpBuilderError>)
        ensures
            self.salt is None ==> (r matches Err(UserOpBuilderError::MissingUserOperationField(
                name,
            )) && name@ == "salt"@),
            self.salt matches Some(sv) ==> match self.factory_contract {
                WalletFactoryRegistry::SimpleAccountFactory(_) => r matches Ok(
                    ScwAddressQuery::SimpleAccount { creator, salt },
                ) && creator@ == self.factory_address@ && salt@ == be_bytes(sv as nat, 32),
                WalletFactoryRegistry::MSABasicFactory(_) => r matches Ok(
                    ScwAddressQuery::MSABasic { hashed_salt, init_code },
                ) && hashed_salt@ == keccak_of(be_bytes(sv as nat, 8)) && init_code@ == Seq::<
                    u8,
                >::empty(),
            },
    {
        let salt_value = match self.salt {
            Some(v) => v,
            None => {
                return Err(
                    UserOpBuilderError::MissingUserOperationField(String::from_str("salt")),
                );
            },
        };
        match &self.factory_contract {
            WalletFactoryRegistry::SimpleAccountFactory(_) => {
                Ok(
                    ScwAddressQuery::SimpleAccount {
                        creator: self.factory_address.clone(),
                        salt: U256::from_u64(salt_value),
                    },
                )
            },
            WalletFactoryRegistry::MSABasicFactory(_) => {
                let salt_bytes = u64_be_bytes(salt_value);
                let digest = keccak256(salt_bytes.as_slice());
                Ok(
                    ScwAddressQuery::MSABasic {
                        hashed_salt: H256::from_slice(digest.as_slice()),
                        init_code: Vec::new(),
                    },
                )
            },
        }
    }

    /// Records the counterfactual wallet address once the factory has
    /// answered the query.
    pub fn set_scw_address(&mut self, scw_address: Address)
        ensures
            *final(self) == (UserOperationBuilder {
                scw_address: Some(scw_address),
                ..*old(self)
            }),
    {
        self.scw_address = Some(scw_address);
    }

    pub fn set_uo(&mut self, uo: UserOperationPartial)
        ensures
            *final(self) == (UserOperationBuilder { uo, ..*old(self) }),
    {
        self.uo = uo;
    }

    /// Re-resolves the account kind in place, leaving the accumulated
    /// fields untouched; on an unknown label nothing changes.
    pub fn set_wallet(&mut self, wallet_name: &str) -> (r: Result<(), UserOpBuilderError>)
        ensures
            simple_wallet_label(wallet_name@) ==> (r is Ok && {
                &&& final(self).wallet_contract == WalletRegistry::SimpleAccount
                &&& final(self).factory_address@ == label_factory_bytes(wallet_name@)
                &&& final(self).scw_address == old(self).scw_address
                &&& final(self).signer_address == old(self).signer_address
                &&& final(self).salt == old(self).salt
                &&& final(self).uo == old(self).uo
                &&& final(self).uo_hash == old(self).uo_hash
            }),
            !simple_wallet_label(wallet_name@) ==> (r is Err && *final(self) == *old(self)),
            wallet_name@ == "msa-account-sepolia"@ ==> (r matches Err(
                UserOpBuilderError::UnsupportedWalletKind(name),
            ) && name@ == wallet_name@),
            !(simple_wallet_label(wallet_name@) || wallet_name@ == "msa-account-sepolia"@) ==> (
            r matches Err(UserOpBuilderError::UnsupportedFactoryKind(name)) && name@
                == wallet_name@),
    {
        let resolved = match Self::match_wallet(wallet_name) {
            Ok(t) => t,
            Err(e) => {
                return Err(e);
            },
        };
        let (wallet_contract, factory_contract, factory_address) = resolved;
        self.wallet_contract = wallet_contract;
        self.factory_contract = factory_contract;
        self.factory_address = factory_address;
        Ok(())
    }

    pub fn set_uo_sender(&mut self, sender: Address)
        ensures
            *final(self) == (UserOperationBuilder {
                uo: UserOperationPartial { sender: Some(sender), ..old(self).uo },
                ..*old(self)
            }),
    {
        self.uo.sender = Some(sender);
    }

    pub fn set_uo_nonce(&mut self, nonce: U256)
        ensures
            *final(self) == (UserOperationBuilder {
                uo: UserOperationPartial { nonce: Some(nonce), ..old(self).uo },
                ..*old(self)
            }),
    {
        self.uo.nonce = Some(nonce);
    }

    pub fn set_uo_factory(&mut self, factory: Address)
        ensures
            *final(self) == (UserOperationBuilder {
                uo: UserOperationPartial { factory: Some(factory), ..old(self).uo },
                ..*old(self)
            }),
    {
        self.uo.factory = Some(factory);
    }

    pub fn set_uo_factory_data(&mut self, factory_data: Vec<u8>)
        ensures
            *final(self) == (UserOperationBuilder {
                uo: UserOperationPartial { factory_data: Some(factory_data), ..old(self).uo },
                ..*old(self)
            }),
    {
        self.uo.factory_data = Some(factory_data);
    }

    pub fn set_uo_call_data(&mut self, call_data: Vec<u8>)
        ensures
            *final(self) == (UserOperationBuilder {
                uo: UserOperationPartial { call_data: Some(call_data), ..old(self).uo },
                ..*old(self)
            }),
    {
        self.uo.call_data = Some(call_data);
    }

    pub fn set_uo_call_gas_limit(&mut self, call_gas_limit: U256)
        ensures
            *final(self) == (UserOperationBuilder {
                uo: UserOperationPartial {
                    call_gas_limit: Some(call_gas_limit),
                    ..old(self).uo
                },
                ..*old(self)
            }),
    {
        self.uo.call_gas_limit = Some(call_gas_limit);
    }

    pub fn set_uo_verification_gas_limit(&mut self, verification_gas_limit: U256)
        ensures
            *final(self) == (UserOperationBuilder {
                uo: UserOperationPartial {
                    verification_gas_limit: Some(verification_gas_limit),
                    ..old(self).uo
                },
                ..*old(self)
            }),
    {
        self.uo.verification_gas_limit = Some(verification_gas_limit);
    }

    pub fn set_uo_pre_verification_gas(&mut self, pre_verification_gas: U256)
        ensures
            *final(self) == (UserOperationBuilder {
                uo: UserOperationPartial {
                    pre_verification_gas: Some(pre_verification_gas),
                    ..old(self).uo
                },
                ..*old(self)
            }),
    {
        self.uo.pre_verification_gas = Some(pre_verification_gas);
    }

    pub fn set_uo_max_fee_per_gas(&mut self, max_fee_per_gas: U256)
        ensures
            *final(self) == (UserOperationBuilder {
                uo: UserOperationPartial {
                    max_fee_per_gas: Some(max_fee_per_gas),
                    ..old(self).uo
                },
                ..*old(self)
            }),
    {
        self.uo.max_fee_per_gas = Some(max_fee_per_gas);
    }

    pub fn set_uo_max_priority_fee_per_gas(&mut self, max_priority_fee_per_gas: U256)
        ensures
            *final(self) == (UserOperationBuilder {
                uo: UserOperationPartial {
                    max_priority_fee_per_gas: Some(max_priority_fee_per_gas),
                    ..old(self).uo
                },
                ..*old(self)
            }),
    {
        self.uo.max_priority_fee_per_gas = Some(max_priority_fee_per_gas);
    }

    pub fn set_uo_paymaster(&mut self, paymaster: String)
        ensures
            *final(self) == (UserOperationBuilder {
                uo: UserOperationPartial { paymaster: Some(paymaster), ..old(self).uo },
                ..*old(self)
            }),
    {
        self.uo.paymaster = Some(paymaster);
    }

    pub fn set_uo_paymaster_verification_gas_limit(
        &mut self,
        paymaster_verification_gas_limit: U256,
    )
        ensures
            *final(self) == (UserOperationBuilder {
                uo: UserOperationPartial {
                    paymaster_verification_gas_limit: Some(paymaster_verification_gas_limit),
                    ..old(self).uo
                },
                ..*old(self)
            }),
    {
        self.uo.paymaster_verification_gas_limit = Some(paymaster_verification_gas_limit);
    }

    pub fn set_uo_paymaster_post_op_gas_limit(&mut self, paymaster_post_op_gas_limit: U256)
        ensures
            *final(self) == (UserOperationBuilder {
                uo: UserOperationPartial {
                    paymaster_post_op_gas_limit: Some(paymaster_post_op_gas_limit),
                    ..old(self).uo
                },
                ..*old(self)
            }),
    {
        self.uo.paymaster_post_op_gas_limit = Some(paymaster_post_op_gas_limit);
    }

    pub fn set_uo_paymaster_data(&mut self, paymaster_data: Vec<u8>)
        ensures
            *final(self) == (UserOperationBuilder {
                uo: UserOperationPartial {
                    paymaster_data: Some(paymaster_data),
                    ..old(self).uo
                },
                ..*old(self)
            }),
    {
        self.uo.paymaster_data = Some(paymaster_data);
    }

    pub fn set_uo_signature(&mut self, signature: Vec<u8>)
        ensures
            *final(self) == (UserOperationBuilder {
                uo: UserOperationPartial { signature: Some(signature), ..old(self).uo },
                ..*old(self)
            }),
    {
        self.uo.signature = Some(signature);
    }

    pub(crate) fn set_uo_hash(&mut self, uo_hash: UserOperationHash)
        ensures
            *final(self) == (UserOperationBuilder { uo_hash: Some(uo_hash), ..*old(self) }),
    {
        self.uo_hash = Some(uo_hash);
    }

    /// Validates completeness and produces the finalized operation. The
    /// first missing field, in declaration order, is reported by name; on
    /// success every field of the result is exactly the accumulated value.
    pub fn build_uo(&self) -> (r: Result<UserOperation, UserOpBuilderError>)
        ensures
            r is Ok <==> partial_complete(self.uo),
            match first_missing_field(self.uo) {
                Some(missing) => r matches Err(UserOpBuilderError::MissingUserOperationField(
                    name,
                )) && name@ == missing,
                None => r matches Ok(op) && {
                    &&& op.sender@ == self.uo.sender->0@
                    &&& op.nonce@ == self.uo.nonce->0@
                    &&& op.factory@ == self.uo.factory->0@
                    &&& op.factory_data@ == self.uo.factory_data->0@
                    &&& op.call_data@ == self.uo.call_data->0@
                    &&& op.call_gas_limit@ == self.uo.call_gas_limit->0@
                    &&& op.verification_gas_limit@ == self.uo.verification_gas_limit->0@
                    &&& op.pre_verification_gas@ == self.uo.pre_verification_gas->0@
                    &&& op.max_fee_per_gas@ == self.uo.max_fee_per_gas->0@
                    &&& op.max_priority_fee_per_gas@ == self.uo.max_priority_fee_per_gas->0@
                    &&& op.paymaster@ == self.uo.paymaster->0@
                    &&& op.paymaster_verification_gas_limit@
                        == self.uo.paymaster_verification_gas_limit->0@
                    &&& op.paymaster_post_op_gas_limit@
                        == self.uo.paymaster_post_op_gas_limit->0@
                    &&& op.paymaster_data@ == self.uo.paymaster_data->0@
                    &&& op.signature@ == self.uo.signature->0@
                },
            },
    {
        if self.uo.sender.is_none() {
            return Err(
                UserOpBuilderError::MissingUserOperationField(String::from_str("sender")),
            );
        }
        if self.uo.nonce.is_none() {
            return Err(
                UserOpBuilderError::MissingUserOperationField(String::from_str("nonce")),
            );
        }
        if self.uo.factory.is_none() {
            return Err(
                UserOpBuilderError::MissingUserOperationField(String::from_str("factory")),
            );
        }
        if self.uo.factory_data.is_none() {
            return Err(
                UserOpBuilderError::MissingUserOperationField(String::from_str("factory_data")),
            );
        }
        if self.uo.call_data.is_none() {
            return Err(
                UserOpBuilderError::MissingUserOperationField(String::from_str("call_data")),
            );
        }
        if self.uo.call_gas_limit.is_none() {
            return Err(
                UserOpBuilderError::MissingUserOperationField(
                    String::from_str("call_gas_limit"),
                ),
            );
        }
        if self.uo.verification_gas_limit.is_none() {
            return Err(
                UserOpBuilderError::MissingUserOperationField(
                    String::from_str("verification_gas_limit"),
                ),
            );
        }
        if self.uo.pre_verification_gas.is_none() {
            return Err(
                UserOpBuilderError::MissingUserOperationField(
                    String::from_str("pre_verification_gas"),
                ),
            );
        }
        if self.uo.max_fee_per_gas.is_none() {
            return Err(
                UserOpBuilderError::MissingUserOperationField(
                    String::from_str("max_fee_per_gas"),
                ),
            );
        }
        if self.uo.max_priority_fee_per_gas.is_none() {
            return Err(
                UserOpBuilderError::MissingUserOperationField(
                    String::from_str("max_priority_fee_per_gas"),
                ),
            );
        }
        if self.uo.paymaster.is_none() {
            return Err(
                UserOpBuilderError::MissingUserOperationField(String::from_str("paymaster")),
            );
        }
        if self.uo.paymaster_verification_gas_limit.is_none() {
            return Err(
                UserOpBuilderError::MissingUserOperationField(
                    String::from_str("paymaster_verification_gas_limit"),
                ),
            );
        }
        if self.uo.paymaster_post_op_gas_limit.is_none() {
            return Err(
                UserOpBuilderError::MissingUserOperationField(
                    String::from_str("paymaster_post_op_gas_limit"),
                ),
            );
        }
        if self.uo.paymaster_data.is_none() {
            return Err(
                UserOpBuilderError::MissingUserOperationField(
                    String::from_str("paymaster_data"),
                ),
            );
        }
        if self.uo.signature.is_none() {
            return Err(
                UserOpBuilderError::MissingUserOperationField(String::from_str("signature")),
            );
        }
        Ok(UserOperation::from_partial(self.uo.clone()))
    }
}

} // verus!
