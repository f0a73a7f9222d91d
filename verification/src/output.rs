//! The ledger's output types: alias and foundry outputs, their builders, and
//! the rules that constrain their creation and state transitions.

pub mod alias;
pub mod foundry;
pub mod parts;
pub mod semantic;
pub mod text;

use vstd::prelude::*;
use crate::output::alias::AliasOutput;
use crate::output::foundry::FoundryOutput;
use crate::output::parts::BlockError;

verus! {

/// A ledger output.
pub enum Output {
    Alias(AliasOutput),
    Foundry(FoundryOutput),
}

/// Why a data-transfer form of an output was rejected: a field whose text
/// could not be read, or a rule of the output itself.
#[derive(Debug, PartialEq, Eq)]
pub enum DtoError {
    /// The named field's text could not be read.
    InvalidField(String),
    /// The assembled output broke one of its own rules.
    Block(BlockError),
}

/// A valid output amount: positive and within the token supply.
pub open spec fn valid_output_amount(amount: u64, token_supply: u64) -> bool {
    0 < amount && amount <= token_supply
}

/// Checks that an output amount is positive and within the token supply.
pub fn verify_output_amount(amount: u64, token_supply: u64) -> (r: Result<(), BlockError>)
    ensures
        r is Ok <==> valid_output_amount(amount, token_supply),
        r is Err ==> r == Err::<(), BlockError>(BlockError::InvalidOutputAmount(amount)),
{
    if amount == 0 || amount > token_supply {
        Err(BlockError::InvalidOutputAmount(amount))
    } else {
        Ok(())
    }
}

} // verus!
