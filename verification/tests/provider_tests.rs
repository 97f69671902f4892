use provider_errors::failure::B256;
use provider_errors::failure::Halt;
use provider_errors::failure::OutOfGasError;
use provider_errors::failure::TransactionFailure;
use provider_errors::provider::JsonRpcError;
use provider_errors::provider::ProviderError;
use provider_errors::provider::SubscriptionType;

fn all_causes() -> Vec<ProviderError> {
    vec![
        ProviderError::AccountOverrideConversionError("override".to_string()),
        ProviderError::AutoMineGasPriceTooLow {
            expected: "20".to_string(),
            actual: "10".to_string(),
        },
        ProviderError::AutoMineMaxFeeTooLow {
            expected: "20".to_string(),
            actual: "10".to_string(),
        },
        ProviderError::AutoMinePriorityFeeTooLow {
            expected: "2".to_string(),
            actual: "1".to_string(),
        },
        ProviderError::AutoMineNonceTooHigh { expected: 1, actual: 5 },
        ProviderError::AutoMineNonceTooLow { expected: 5, actual: 1 },
        ProviderError::Blockchain("blockchain failed".to_string()),
        ProviderError::Creation("creation failed".to_string()),
        ProviderError::InvalidBlockNumberOrHash {
            block_spec: "0x10".to_string(),
            latest_block_number: 9,
        },
        ProviderError::InvalidBlockTag {
            block_spec: "safe".to_string(),
            hardfork: "LONDON".to_string(),
        },
        ProviderError::InvalidChainId { expected: 1, actual: 2 },
        ProviderError::InvalidFilterSubscriptionType {
            filter_id: "7".to_string(),
            expected: SubscriptionType::Logs,
            actual: SubscriptionType::NewHeads,
        },
        ProviderError::InvalidTransactionIndex("100000".to_string()),
        ProviderError::InvalidTransactionInput("bad input".to_string()),
        ProviderError::MemPoolUpdate("mem pool".to_string()),
        ProviderError::MineBlock("mine".to_string()),
        ProviderError::MinerTransactionError("miner".to_string()),
        ProviderError::RlpDecodeError("rlp".to_string()),
        ProviderError::RpcVersion("V2_0".to_string()),
        ProviderError::RunTransaction("run".to_string()),
        ProviderError::Serialization("oops".to_string()),
        ProviderError::SetMinGasPriceUnsupported,
        ProviderError::Signature("sig".to_string()),
        ProviderError::State("state".to_string()),
        ProviderError::SystemTime("time".to_string()),
        ProviderError::TimestampLowerThanPrevious { proposed: 5, previous: 9 },
        ProviderError::TimestampEqualsPrevious { proposed: 9 },
        ProviderError::TransactionCreationError("tx creation".to_string()),
        ProviderError::TransactionFailed(TransactionFailure::halt(
            Halt::OutOfGas(OutOfGasError { detail: "Basic".to_string() }),
            B256([0u8; 32]),
        )),
        ProviderError::TryFromIntError("out of range".to_string()),
        ProviderError::Unimplemented("eth_feeHistory".to_string()),
        ProviderError::UnknownAddress { address: "0xabc".to_string() },
        ProviderError::UnmetHardfork {
            actual: "LONDON".to_string(),
            minimum: "MERGE".to_string(),
        },
    ]
}

#[test]
fn every_cause_maps_to_minus_32000_except_unmet_hardfork() {
    for cause in all_causes() {
        let unmet = matches!(cause, ProviderError::UnmetHardfork { .. });
        let err = JsonRpcError::from_provider_error(cause);
        if unmet {
            assert_eq!(err.code, -32602);
        } else {
            assert_eq!(err.code, -32000);
        }
    }
}

#[test]
fn only_the_transaction_failure_cause_fills_data() {
    for cause in all_causes() {
        let failed = matches!(cause, ProviderError::TransactionFailed(_));
        let expected_data = if let ProviderError::TransactionFailed(f) = &cause {
            Some(f.to_json())
        } else {
            None
        };
        let err = JsonRpcError::from_provider_error(cause);
        if failed {
            assert_eq!(err.data, expected_data);
            assert!(err.data.is_some());
        } else {
            assert_eq!(err.data, None);
        }
    }
}

#[test]
fn transaction_failure_data_is_its_json_form() {
    let f = TransactionFailure::revert(vec![0xab], B256([0u8; 32]));
    let json = f.to_json();
    let err = JsonRpcError::from_provider_error(ProviderError::TransactionFailed(f));
    assert_eq!(err.data, Some(json));
    assert_eq!(
        err.message,
        "VM Exception while processing transaction: reverted with an unrecognized \
         custom error (return data: 0xab)"
    );
}

#[test]
fn chain_id_message() {
    let err = JsonRpcError::from_provider_error(ProviderError::InvalidChainId {
        expected: 31337,
        actual: 1,
    });
    assert_eq!(
        err.message,
        "Invalid chainId $1 provided, expected $31337 instead."
    );
}

#[test]
fn unmet_hardfork_message_and_code() {
    let err = JsonRpcError::from_provider_error(ProviderError::UnmetHardfork {
        actual: "LONDON".to_string(),
        minimum: "MERGE".to_string(),
    });
    assert_eq!(err.code, -32602);
    assert_eq!(
        err.message,
        "Feature is only available in post-MERGE hardforks, the current hardfork is LONDON"
    );
    assert_eq!(err.data, None);
}

#[test]
fn nonce_too_high_message() {
    let err = JsonRpcError::from_provider_error(ProviderError::AutoMineNonceTooHigh {
        expected: 3,
        actual: 10,
    });
    assert_eq!(
        err.message,
        "Nonce too high. Expected nonce to be 3 but got 10. Note that transactions \
         can't be queued when automining."
    );
}

#[test]
fn gas_price_too_low_message() {
    let err = JsonRpcError::from_provider_error(ProviderError::AutoMineGasPriceTooLow {
        expected: "1000000000".to_string(),
        actual: "7".to_string(),
    });
    assert_eq!(
        err.message,
        "Transaction gasPrice (7) is too low for the next block, which has a \
         baseFeePerGas of 1000000000"
    );
}

#[test]
fn subscription_type_message() {
    let err = JsonRpcError::from_provider_error(ProviderError::InvalidFilterSubscriptionType {
        filter_id: "12".to_string(),
        expected: SubscriptionType::NewPendingTransactions,
        actual: SubscriptionType::Logs,
    });
    assert_eq!(
        err.message,
        "Subscription 12 is not a NewPendingTransactions subscription, but a Logs subscription"
    );
}

#[test]
fn transparent_causes_keep_the_inner_message() {
    let err = JsonRpcError::from_provider_error(ProviderError::Blockchain(
        "missing block 7".to_string(),
    ));
    assert_eq!(err.message, "missing block 7");
}

#[test]
fn serialization_message_is_prefixed() {
    let err = JsonRpcError::from_provider_error(ProviderError::Serialization(
        "key must be a string".to_string(),
    ));
    assert_eq!(
        err.message,
        "Failed to serialize response: key must be a string"
    );
}

#[test]
fn timestamp_messages() {
    let lower = JsonRpcError::from_provider_error(ProviderError::TimestampLowerThanPrevious {
        proposed: 100,
        previous: 200,
    });
    assert_eq!(
        lower.message,
        "Timestamp 100 is lower than the previous block's timestamp 200"
    );
    let equal = JsonRpcError::from_provider_error(ProviderError::TimestampEqualsPrevious {
        proposed: 200,
    });
    assert_eq!(
        equal.message,
        "Timestamp 200 is equal to the previous block's timestamp. Enable the \
         'allowBlocksWithSameTimestamp' option to allow this"
    );
}

#[test]
fn block_tag_messages() {
    let err = JsonRpcError::from_provider_error(ProviderError::InvalidBlockNumberOrHash {
        block_spec: "0x123".to_string(),
        latest_block_number: 42,
    });
    assert_eq!(
        err.message,
        "Received invalid block tag 0x123. Latest block number is 42"
    );
    let tag = JsonRpcError::from_provider_error(ProviderError::InvalidBlockTag {
        block_spec: "safe".to_string(),
        hardfork: "LONDON".to_string(),
    });
    assert_eq!(
        tag.message,
        "The 'safe' block tag is not allowed in pre-merge hardforks. You are using \
         the 'LONDON' hardfork."
    );
}

#[test]
fn fixed_and_prefixed_messages() {
    let set = JsonRpcError::from_provider_error(ProviderError::SetMinGasPriceUnsupported);
    assert_eq!(
        set.message,
        "hardhat_setMinGasPrice is not supported when EIP-1559 is active"
    );
    let unimpl =
        JsonRpcError::from_provider_error(ProviderError::Unimplemented("eth_mining".to_string()));
    assert_eq!(unimpl.message, "Unimplemented: eth_mining");
    let addr = JsonRpcError::from_provider_error(ProviderError::UnknownAddress {
        address: "0x1234".to_string(),
    });
    assert_eq!(addr.message, "Unknown account 0x1234");
    let conv = JsonRpcError::from_provider_error(ProviderError::TryFromIntError(
        "out of range integral type conversion attempted".to_string(),
    ));
    assert_eq!(
        conv.message,
        "Could not convert the integer argument, due to: out of range integral type \
         conversion attempted"
    );
    let ver =
        JsonRpcError::from_provider_error(ProviderError::RpcVersion("V2_0".to_string()));
    assert_eq!(ver.message, "unsupported JSON-RPC version: V2_0");
    let idx = JsonRpcError::from_provider_error(ProviderError::InvalidTransactionIndex(
        "100000".to_string(),
    ));
    assert_eq!(idx.message, "Transaction index '100000' is too large");
}
