//! The utility coin's Move type tag, modelled as plain values.

use vstd::prelude::*;

verus! {

use crate::account_address::AccountAddress;
use crate::account_address::address_one;

/// A Move struct type: its hosting address, module, name and type
/// arguments.
#[derive(Debug)]
pub struct StructTag {
    /// The address hosting the module.
    pub address: AccountAddress,
    /// The module's name.
    pub module: String,
    /// The struct's name.
    pub name: String,
    /// The type arguments the struct is instantiated with.
    pub type_args: Vec<TypeTag>,
}

/// A Move type tag, as far as this crate needs one: a struct type.
#[derive(Debug)]
pub enum TypeTag {
    /// A struct type.
    Struct(Box<StructTag>),
}

/// A coin currency: its Move type and the address hosting its on-chain
/// info.
pub trait CoinType {
    /// Whether `t` is this coin's type tag.
    spec fn is_type_tag(t: &TypeTag) -> bool;

    /// The bytes of the address hosting this coin's on-chain info.
    spec fn info_address() -> Seq<u8>;

    /// The Move type tag of this coin.
    fn type_tag() -> (r: TypeTag)
        ensures
            Self::is_type_tag(&r),
    ;

    /// The account address hosting the coin info.
    fn coin_info_address() -> (r: AccountAddress)
        ensures
            r@ == Self::info_address(),
    ;
}

/// The network's utility coin.
#[derive(Debug)]
pub struct SupraCoinType;

impl CoinType for SupraCoinType {
    open spec fn is_type_tag(t: &TypeTag) -> bool {
        t matches TypeTag::Struct(s) && s.address@ == address_one() && s.module@ == "supra_coin"@
            && s.name@ == "SupraCoin"@ && s.type_args@.len() == 0
    }

    open spec fn info_address() -> Seq<u8> {
        address_one()
    }

    fn type_tag() -> (r: TypeTag) {
        TypeTag::Struct(
            Box::new(
                StructTag {
                    address: AccountAddress::one(),
                    module: "supra_coin".to_owned(),
                    name: "SupraCoin".to_owned(),
                    type_args: Vec::new(),
                },
            ),
        )
    }

    fn coin_info_address() -> (r: AccountAddress) {
        AccountAddress::one()
    }
}

} // verus!
