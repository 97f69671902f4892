//! The provider's error taxonomy and its mapping onto the JSON-RPC wire.
//!
//! Every failure of the surrounding system funnels through the closed
//! `ProviderError` union.  Each cause carries only the fields its message
//! interpolates; errors raised by external collaborators (the blockchain,
//! the state layer, signature recovery, and so on) are opaque here and are
//! carried as their rendered message.  Amounts wider than 64 bits and
//! displayed identifiers (block tags, hardfork names, addresses) are
//! likewise carried in their rendered form, since this layer only displays
//! them.

use vstd::prelude::*;

verus! {

use crate::failure::TransactionFailure;
use crate::failure::renderable_reason;
use crate::failure::spec_failure_json;
use crate::failure::spec_failure_message;
use crate::text::dec_of;
use crate::text::u64_to_dec;
use vstd::string::StringExecFns;

/// The kind of an event-subscription filter.
#[derive(Clone, Copy, Debug, PartialEq, Eq)]
pub enum SubscriptionType {
    Logs,
    NewHeads,
    NewPendingTransactions,
}

/// The debug form of a subscription kind.
pub open spec fn spec_subscription_name(t: SubscriptionType) -> Seq<char> {
    match t {
        SubscriptionType::Logs => "Logs"@,
        SubscriptionType::NewHeads => "NewHeads"@,
        SubscriptionType::NewPendingTransactions => "NewPendingTransactions"@,
    }
}

fn subscription_name(t: &SubscriptionType) -> (r: &'static str)
    ensures
        r@ == spec_subscription_name(*t),
{
    match t {
        SubscriptionType::Logs => "Logs",
        SubscriptionType::NewHeads => "NewHeads",
        SubscriptionType::NewPendingTransactions => "NewPendingTransactions",
    }
}

/// The closed set of failure causes the provider can report.
#[derive(Clone, Debug, PartialEq, Eq)]
pub enum ProviderError {
    /// Account override conversion error.
    AccountOverrideConversionError(String),
    /// The transaction's gas price is lower than the next block's base fee,
    /// while automatically mining.
    AutoMineGasPriceTooLow { expected: String, actual: String },
    /// The transaction's max fee is lower than the next block's base fee,
    /// while automatically mining.
    AutoMineMaxFeeTooLow { expected: String, actual: String },
    /// The transaction's priority fee is lower than the minimum gas price,
    /// while automatically mining.
    AutoMinePriorityFeeTooLow { expected: String, actual: String },
    /// The transaction nonce is too high, while automatically mining.
    AutoMineNonceTooHigh { expected: u64, actual: u64 },
    /// The transaction nonce is too low, while automatically mining.
    AutoMineNonceTooLow { expected: u64, actual: u64 },
    /// Blockchain error.
    Blockchain(String),
    /// An error occurred while creating the provider's backing data.
    Creation(String),
    /// Block number or hash doesn't exist in the blockchain.
    InvalidBlockNumberOrHash { block_spec: String, latest_block_number: u64 },
    /// The block tag is not allowed in pre-merge hardforks.
    InvalidBlockTag { block_spec: String, hardfork: String },
    /// Invalid chain ID.
    InvalidChainId { expected: u64, actual: u64 },
    /// Invalid filter subscription type.
    InvalidFilterSubscriptionType {
        filter_id: String,
        expected: SubscriptionType,
        actual: SubscriptionType,
    },
    /// Invalid transaction index.
    InvalidTransactionIndex(String),
    /// Invalid transaction request.
    InvalidTransactionInput(String),
    /// An error occurred while updating the mem pool.
    MemPoolUpdate(String),
    /// An error occurred while mining a block.
    MineBlock(String),
    /// An error occurred while adding a pending transaction to the mem pool.
    MinerTransactionError(String),
    /// RLP decode error.
    RlpDecodeError(String),
    /// Unsupported RPC version.
    RpcVersion(String),
    /// Error while running a transaction.
    RunTransaction(String),
    /// Serialization error.
    Serialization(String),
    /// Setting a minimum gas price is not supported when EIP-1559 is active.
    SetMinGasPriceUnsupported,
    /// An error occurred while recovering a signature.
    Signature(String),
    /// State error.
    State(String),
    /// System time error.
    SystemTime(String),
    /// Timestamp lower than the previous timestamp.
    TimestampLowerThanPrevious { proposed: u64, previous: u64 },
    /// Timestamp equals the previous timestamp.
    TimestampEqualsPrevious { proposed: u64 },
    /// An error occurred while creating a pending transaction.
    TransactionCreationError(String),
    /// A transaction failed and failing calls were set to bail.
    TransactionFailed(TransactionFailure),
    /// Failed to convert an integer type.
    TryFromIntError(String),
    /// The request hasn't been implemented yet.
    Unimplemented(String),
    /// The address is not owned by this node.
    UnknownAddress { address: String },
    /// Minimum required hardfork not met.
    UnmetHardfork { actual: String, minimum: String },
}

/// A provider error can be rendered unless it wraps a revert whose panic
/// code overflows 64 bits.
pub open spec fn renderable_provider(e: ProviderError) -> bool {
    match e {
        ProviderError::TransactionFailed(f) => renderable_reason(f.reason),
        _ => true,
    }
}

/// The human-readable message of each cause, with its fields interpolated.
pub open spec fn spec_provider_message(e: ProviderError) -> Seq<char> {
    match e {
        ProviderError::AccountOverrideConversionError(inner) => inner@,
        ProviderError::AutoMineGasPriceTooLow { expected, actual } => "Transaction gasPrice ("@
            + actual@ + ") is too low for the next block, which has a baseFeePerGas of "@
            + expected@,
        ProviderError::AutoMineMaxFeeTooLow { expected, actual } => "Transaction maxFeePerGas ("@
            + actual@ + ") is too low for the next block, which has a baseFeePerGas of "@
            + expected@,
        ProviderError::AutoMinePriorityFeeTooLow { expected, actual } => "Transaction gas price is "@
            + actual@ + ", which is below the minimum of "@ + expected@,
        ProviderError::AutoMineNonceTooHigh { expected, actual } => "Nonce too high. Expected nonce to be "@
            + dec_of(expected as nat) + " but got "@ + dec_of(actual as nat)
            + ". Note that transactions can't be queued when automining."@,
        ProviderError::AutoMineNonceTooLow { expected, actual } => "Nonce too low. Expected nonce to be "@
            + dec_of(expected as nat) + " but got "@ + dec_of(actual as nat)
            + ". Note that transactions can't be queued when automining."@,
        ProviderError::Blockchain(inner) => inner@,
        ProviderError::Creation(inner) => inner@,
        ProviderError::InvalidBlockNumberOrHash { block_spec, latest_block_number } => "Received invalid block tag "@
            + block_spec@ + ". Latest block number is "@ + dec_of(latest_block_number as nat),
        ProviderError::InvalidBlockTag { block_spec, hardfork } => "The '"@ + block_spec@
            + "' block tag is not allowed in pre-merge hardforks. You are using the '"@
            + hardfork@ + "' hardfork."@,
        ProviderError::InvalidChainId { expected, actual } => "Invalid chainId $"@ + dec_of(
            actual as nat,
        ) + " provided, expected $"@ + dec_of(expected as nat) + " instead."@,
        ProviderError::InvalidFilterSubscriptionType { filter_id, expected, actual } => "Subscription "@
            + filter_id@ + " is not a "@ + spec_subscription_name(expected)
            + " subscription, but a "@ + spec_subscription_name(actual) + " subscription"@,
        ProviderError::InvalidTransactionIndex(index) => "Transaction index '"@ + index@
            + "' is too large"@,
        ProviderError::InvalidTransactionInput(inner) => inner@,
        ProviderError::MemPoolUpdate(inner) => inner@,
        ProviderError::MineBlock(inner) => inner@,
        ProviderError::MinerTransactionError(inner) => inner@,
        ProviderError::RlpDecodeError(inner) => inner@,
        ProviderError::RpcVersion(version) => "unsupported JSON-RPC version: "@ + version@,
        ProviderError::RunTransaction(inner) => inner@,
        ProviderError::Serialization(inner) => "Failed to serialize response: "@ + inner@,
        ProviderError::SetMinGasPriceUnsupported => "hardhat_setMinGasPrice is not supported when EIP-1559 is active"@,
        ProviderError::Signature(inner) => inner@,
        ProviderError::State(inner) => inner@,
        ProviderError::SystemTime(inner) => inner@,
        ProviderError::TimestampLowerThanPrevious { proposed, previous } => "Timestamp "@
            + dec_of(proposed as nat) + " is lower than the previous block's timestamp "@
            + dec_of(previous as nat),
        ProviderError::TimestampEqualsPrevious { proposed } => "Timestamp "@ + dec_of(
            proposed as nat,
        )
            + " is equal to the previous block's timestamp. Enable the 'allowBlocksWithSameTimestamp' option to allow this"@,
        ProviderError::TransactionCreationError(inner) => inner@,
        ProviderError::TransactionFailed(f) => spec_failure_message(f),
        ProviderError::TryFromIntError(inner) => "Could not convert the integer argument, due to: "@
            + inner@,
        ProviderError::Unimplemented(inner) => "Unimplemented: "@ + inner@,
        ProviderError::UnknownAddress { address } => "Unknown account "@ + address@,
        ProviderError::UnmetHardfork { actual, minimum } => "Feature is only available in post-"@
            + minimum@ + " hardforks, the current hardfork is "@ + actual@,
    }
}

impl ProviderError {
    /// Renders the cause's message.
    pub fn message(&self) -> (s: String)
        requires
            renderable_provider(*self),
        ensures
            s@ == spec_provider_message(*self),
    {
        match self {
            ProviderError::AccountOverrideConversionError(inner) => inner.clone(),
            ProviderError::AutoMineGasPriceTooLow { expected, actual } => {
                let mut s = String::from_str("Transaction gasPrice (");
                s.append(actual.as_str());
                s.append(") is too low for the next block, which has a baseFeePerGas of ");
                s.append(expected.as_str());
                s
            },
            ProviderError::AutoMineMaxFeeTooLow { expected, actual } => {
                let mut s = String::from_str("Transaction maxFeePerGas (");
                s.append(actual.as_str());
                s.append(") is too low for the next block, which has a baseFeePerGas of ");
                s.append(expected.as_str());
                s
            },
            ProviderError::AutoMinePriorityFeeTooLow { expected, actual } => {
                let mut s = String::from_str("Transaction gas price is ");
                s.append(actual.as_str());
                s.append(", which is below the minimum of ");
                s.append(expected.as_str());
                s
            },
            ProviderError::AutoMineNonceTooHigh { expected, actual } => {
                let mut s = String::from_str("Nonce too high. Expected nonce to be ");
                s.append(u64_to_dec(*expected).as_str());
                s.append(" but got ");
                s.append(u64_to_dec(*actual).as_str());
                s.append(". Note that transactions can't be queued when automining.");
                s
            },
            ProviderError::AutoMineNonceTooLow { expected, actual } => {
                let mut s = String::from_str("Nonce too low. Expected nonce to be ");
                s.append(u64_to_dec(*expected).as_str());
                s.append(" but got ");
                s.append(u64_to_dec(*actual).as_str());
                s.append(". Note that transactions can't be queued when automining.");
                s
            },
            ProviderError::Blockchain(inner) => inner.clone(),
            ProviderError::Creation(inner) => inner.clone(),
            ProviderError::InvalidBlockNumberOrHash { block_spec, latest_block_number } => {
                let mut s = String::from_str("Received invalid block tag ");
                s.append(block_spec.as_str());
                s.append(". Latest block number is ");
                s.append(u64_to_dec(*latest_block_number).as_str());
                s
            },
            ProviderError::InvalidBlockTag { block_spec, hardfork } => {
                let mut s = String::from_str("The '");
                s.append(block_spec.as_str());
                s.append("' block tag is not allowed in pre-merge hardforks. You are using the '");
                s.append(hardfork.as_str());
                s.append("' hardfork.");
                s
            },
            ProviderError::InvalidChainId { expected, actual } => {
                let mut s = String::from_str("Invalid chainId $");
                s.append(u64_to_dec(*actual).as_str());
                s.append(" provided, expected $");
                s.append(u64_to_dec(*expected).as_str());
                s.append(" instead.");
                s
            },
            ProviderError::InvalidFilterSubscriptionType { filter_id, expected, actual } => {
                let mut s = String::from_str("Subscription ");
                s.append(filter_id.as_str());
                s.append(" is not a ");
                s.append(subscription_name(expected));
                s.append(" subscription, but a ");
                s.append(subscription_name(actual));
                s.append(" subscription");
                s
            },
            ProviderError::InvalidTransactionIndex(index) => {
                let mut s = String::from_str("Transaction index '");
                s.append(index.as_str());
                s.append("' is too large");
                s
            },
            ProviderError::InvalidTransactionInput(inner) => inner.clone(),
            ProviderError::MemPoolUpdate(inner) => inner.clone(),
            ProviderError::MineBlock(inner) => inner.clone(),
            ProviderError::MinerTransactionError(inner) => inner.clone(),
            ProviderError::RlpDecodeError(inner) => inner.clone(),
            ProviderError::RpcVersion(version) => {
                let mut s = String::from_str("unsupported JSON-RPC version: ");
                s.append(version.as_str());
                s
            },
            ProviderError::RunTransaction(inner) => inner.clone(),
            ProviderError::Serialization(inner) => {
                let mut s = String::from_str("Failed to serialize response: ");
                s.append(inner.as_str());
                s
            },
            ProviderError::SetMinGasPriceUnsupported => String::from_str(
                "hardhat_setMinGasPrice is not supported when EIP-1559 is active",
            ),
            ProviderError::Signature(inner) => inner.clone(),
            ProviderError::State(inner) => inner.clone(),
            ProviderError::SystemTime(inner) => inner.clone(),
            ProviderError::TimestampLowerThanPrevious { proposed, previous } => {
                let mut s = String::from_str("Timestamp ");
                s.append(u64_to_dec(*proposed).as_str());
                s.append(" is lower than the previous block's timestamp ");
                s.append(u64_to_dec(*previous).as_str());
                s
            },
            ProviderError::TimestampEqualsPrevious { proposed } => {
                let mut s = String::from_str("Timestamp ");
                s.append(u64_to_dec(*proposed).as_str());
                s.append(
                    " is equal to the previous block's timestamp. Enable the 'allowBlocksWithSameTimestamp' option to allow this",
                );
                s
            },
            ProviderError::TransactionCreationError(inner) => inner.clone(),
            ProviderError::TransactionFailed(f) => f.message(),
            ProviderError::TryFromIntError(inner) => {
                let mut s = String::from_str("Could not convert the integer argument, due to: ");
                s.append(inner.as_str());
                s
            },
            ProviderError::Unimplemented(inner) => {
                let mut s = String::from_str("Unimplemented: ");
                s.append(inner.as_str());
                s
            },
            ProviderError::UnknownAddress { address } => {
                let mut s = String::from_str("Unknown account ");
                s.append(address.as_str());
                s
            },
            ProviderError::UnmetHardfork { actual, minimum } => {
                let mut s = String::from_str("Feature is only available in post-");
                s.append(minimum.as_str());
                s.append(" hardforks, the current hardfork is ");
                s.append(actual.as_str());
                s
            },
        }
    }
}

/// The canonical wire-level JSON-RPC error object.
#[derive(Clone, Debug, PartialEq, Eq)]
pub struct JsonRpcError {
    pub code: i64,
    pub message: String,
    pub data: Option<String>,
}

impl JsonRpcError {
    /// Maps a provider failure onto the wire: every cause carries code
    /// -32000 except the unmet-hardfork cause, which carries -32602; the
    /// cause wrapping a transaction failure alone fills the data field,
    /// with the failure's structured JSON form.
    pub fn from_provider_error(value: ProviderError) -> (r: JsonRpcError)
        requires
            renderable_provider(value),
        ensures
            value matches ProviderError::UnmetHardfork { .. } ==> r.code == -32602,
            !(value matches ProviderError::UnmetHardfork { .. }) ==> r.code == -32000,
            r.message@ == spec_provider_message(value),
            r.data is Some <==> value matches ProviderError::TransactionFailed(_),
            value matches ProviderError::TransactionFailed(f) ==> r.data matches Some(d)
                && d@ == spec_failure_json(f),
    {
        let code: i64 = match &value {
            ProviderError::UnmetHardfork { .. } => -32602,
            _ => -32000,
        };
        let data: Option<String> = match &value {
            ProviderError::TransactionFailed(f) => Some(f.to_json()),
            _ => None,
        };
        let message = value.message();
        JsonRpcError { code, message, data }
    }
}

} // verus!
