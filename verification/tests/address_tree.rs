use light_protocol::address_tree::{
    check_batched_address_tree_params, match_circuit_size, validate_batched_address_tree_params,
    AddressTreeParamsError, InitAddressTreeAccountsInstructionData, DEFAULT_BATCH_SIZE,
    DEFAULT_ZKP_BATCH_SIZE, TEST_DEFAULT_BATCH_SIZE, TEST_DEFAULT_ZKP_BATCH_SIZE,
};

/// Accepts the parameters or panics with the message of the first failed check.
fn validate(params: InitAddressTreeAccountsInstructionData) {
    match check_batched_address_tree_params(&params) {
        Ok(()) => validate_batched_address_tree_params(params),
        Err(e) => panic!("{}", e.message()),
    }
}

#[test]
fn test_validate_batched_address_tree_params() {
    let params = InitAddressTreeAccountsInstructionData::default();
    validate(params);
}

#[test]
#[should_panic = "Input queue batch size must divisible by input_queue_zkp_batch_size."]
fn test_input_queue_batch_size_not_divisible_by_zkp_batch_size() {
    let params = InitAddressTreeAccountsInstructionData {
        input_queue_batch_size: 11,
        input_queue_zkp_batch_size: 10,
        ..InitAddressTreeAccountsInstructionData::default()
    };
    validate(params);
}

#[test]
#[should_panic = "Input queue batch size must divisible by input_queue_zkp_batch_size."]
fn test_invalid_zkp_batch_size() {
    let params = InitAddressTreeAccountsInstructionData {
        input_queue_zkp_batch_size: 7,
        ..InitAddressTreeAccountsInstructionData::default()
    };
    validate(params);
}

#[test]
#[should_panic]
fn test_bloom_filter_num_iters_zero() {
    let params = InitAddressTreeAccountsInstructionData {
        bloom_filter_num_iters: 0,
        ..InitAddressTreeAccountsInstructionData::default()
    };
    validate(params);
}

#[test]
#[should_panic]
fn test_bloom_filter_capacity_too_small() {
    let params = InitAddressTreeAccountsInstructionData {
        input_queue_batch_size: InitAddressTreeAccountsInstructionData::default()
            .input_queue_batch_size
            * 8
            - 1,
        ..InitAddressTreeAccountsInstructionData::default()
    };
    validate(params);
}

#[test]
#[should_panic]
fn test_bloom_filter_capacity_not_divisible_by_8() {
    let params = InitAddressTreeAccountsInstructionData {
        bloom_filter_capacity: 7,
        ..InitAddressTreeAccountsInstructionData::default()
    };
    validate(params);
}

#[test]
#[should_panic]
fn test_bloom_filter_capacity_zero() {
    let params = InitAddressTreeAccountsInstructionData {
        bloom_filter_capacity: 0,
        ..InitAddressTreeAccountsInstructionData::default()
    };
    validate(params);
}

#[test]
#[should_panic]
fn test_root_history_capacity_zero() {
    let params = InitAddressTreeAccountsInstructionData {
        root_history_capacity: 0,
        ..InitAddressTreeAccountsInstructionData::default()
    };
    validate(params);
}

#[test]
#[should_panic]
fn test_close_threshold_not_none() {
    let params = InitAddressTreeAccountsInstructionData {
        close_threshold: Some(10),
        ..InitAddressTreeAccountsInstructionData::default()
    };
    validate(params);
}

#[test]
#[should_panic]
fn test_height_not_40() {
    let params = InitAddressTreeAccountsInstructionData {
        height: 30,
        ..InitAddressTreeAccountsInstructionData::default()
    };
    validate(params);
}

#[test]
fn default_params_have_production_sizes() {
    let params = InitAddressTreeAccountsInstructionData::default();
    assert_eq!(params.input_queue_batch_size, DEFAULT_BATCH_SIZE);
    assert_eq!(params.input_queue_zkp_batch_size, DEFAULT_ZKP_BATCH_SIZE);
    assert_eq!(params.root_history_capacity, 200);
    assert_eq!(params.bloom_filter_capacity, 400_000);
    assert_eq!(params.height, 40);
    assert_eq!(params.network_fee, Some(5000));
    assert_eq!(params.rollover_threshold, Some(95));
    assert_eq!(params.close_threshold, None);
}

#[test]
fn test_and_e2e_defaults_pass_the_checks() {
    let params = InitAddressTreeAccountsInstructionData::test_default();
    assert_eq!(params.input_queue_batch_size, TEST_DEFAULT_BATCH_SIZE);
    assert_eq!(params.input_queue_zkp_batch_size, TEST_DEFAULT_ZKP_BATCH_SIZE);
    assert_eq!(check_batched_address_tree_params(&params), Ok(()));
    let params = InitAddressTreeAccountsInstructionData::e2e_test_default();
    assert_eq!(params.input_queue_batch_size, 500);
    assert_eq!(check_batched_address_tree_params(&params), Ok(()));
}

#[test]
fn each_check_reports_its_own_error() {
    let base = InitAddressTreeAccountsInstructionData::default();
    let cases = [
        (InitAddressTreeAccountsInstructionData { input_queue_batch_size: 0, ..base },
            AddressTreeParamsError::ZeroInputQueueBatchSize),
        (InitAddressTreeAccountsInstructionData { input_queue_zkp_batch_size: 0, ..base },
            AddressTreeParamsError::ZeroZkpBatchSize),
        (InitAddressTreeAccountsInstructionData { input_queue_zkp_batch_size: 7, ..base },
            AddressTreeParamsError::BatchSizeNotDivisibleByZkpBatchSize),
        (InitAddressTreeAccountsInstructionData { input_queue_zkp_batch_size: 250, ..base },
            AddressTreeParamsError::UnsupportedZkpBatchSize),
        (InitAddressTreeAccountsInstructionData { bloom_filter_num_iters: 0, ..base },
            AddressTreeParamsError::ZeroBloomFilterNumIters),
        (InitAddressTreeAccountsInstructionData {
            input_queue_batch_size: 1000 * (u64::MAX / 8000 + 1),
            input_queue_zkp_batch_size: 1000,
            ..base
        }, AddressTreeParamsError::BloomFilterBitsOverflow),
        (InitAddressTreeAccountsInstructionData { bloom_filter_capacity: 399_992, ..base },
            AddressTreeParamsError::BloomFilterCapacityTooSmall),
        (InitAddressTreeAccountsInstructionData { bloom_filter_capacity: 400_004, ..base },
            AddressTreeParamsError::BloomFilterCapacityNotDivisibleBy8),
        (InitAddressTreeAccountsInstructionData { root_history_capacity: 0, ..base },
            AddressTreeParamsError::ZeroRootHistoryCapacity),
        (InitAddressTreeAccountsInstructionData { close_threshold: Some(10), ..base },
            AddressTreeParamsError::CloseThresholdSet),
        (InitAddressTreeAccountsInstructionData { height: 30, ..base },
            AddressTreeParamsError::InvalidHeight),
    ];
    for (params, expected) in cases {
        assert_eq!(check_batched_address_tree_params(&params), Err(expected));
    }
}

#[test]
fn zero_bloom_filter_capacity_fails_the_size_check_first() {
    let params = InitAddressTreeAccountsInstructionData {
        bloom_filter_capacity: 0,
        ..InitAddressTreeAccountsInstructionData::default()
    };
    assert_eq!(
        check_batched_address_tree_params(&params),
        Err(AddressTreeParamsError::BloomFilterCapacityTooSmall)
    );
}

#[test]
fn circuit_sizes() {
    for size in [1u64, 10, 100, 500, 1000] {
        assert!(match_circuit_size(size));
    }
    for size in [0u64, 2, 7, 250, 501, 10_000] {
        assert!(!match_circuit_size(size));
    }
}

#[test]
fn error_messages() {
    assert_eq!(
        AddressTreeParamsError::BatchSizeNotDivisibleByZkpBatchSize.message(),
        "Input queue batch size must divisible by input_queue_zkp_batch_size."
    );
    assert_eq!(
        AddressTreeParamsError::BloomFilterCapacityNotDivisibleBy8.message(),
        "Bloom filter capacity must be divisible by 8."
    );
}
