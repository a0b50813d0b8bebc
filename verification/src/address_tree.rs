use vstd::prelude::*;

use crate::pubkey::Pubkey;

verus! {

/// Input queue batch size of a production tree.
pub const DEFAULT_BATCH_SIZE: u64 = 50000;

/// Zero-knowledge proof batch size of a production tree.
pub const DEFAULT_ZKP_BATCH_SIZE: u64 = 500;

/// Input queue batch size used in tests.
pub const TEST_DEFAULT_BATCH_SIZE: u64 = 50;

/// Zero-knowledge proof batch size used in tests.
pub const TEST_DEFAULT_ZKP_BATCH_SIZE: u64 = 10;

/// Parameters for creating a batched address Merkle tree.
#[derive(Debug, Clone, Copy, PartialEq)]
pub struct InitAddressTreeAccountsInstructionData {
    pub index: u64,
    pub program_owner: Option<Pubkey>,
    pub forester: Option<Pubkey>,
    pub input_queue_batch_size: u64,
    pub input_queue_zkp_batch_size: u64,
    pub bloom_filter_num_iters: u64,
    pub bloom_filter_capacity: u64,
    pub root_history_capacity: u32,
    pub network_fee: Option<u64>,
    pub rollover_threshold: Option<u64>,
    pub close_threshold: Option<u64>,
    pub height: u32,
}

/// The zero-knowledge proof batch sizes that have a circuit: 1, 10, 100, 500 and 1000.
pub open spec fn supported_circuit_size(size: u64) -> bool {
    size == 1 || size == 10 || size == 100 || size == 500 || size == 1000
}

/// Whether a proof circuit exists for batches of `size` elements.
pub fn match_circuit_size(size: u64) -> (r: bool)
    ensures
        r == supported_circuit_size(size),
{
    size == 1 || size == 10 || size == 100 || size == 500 || size == 1000
}

/// The ways in which address tree parameters can be unfit, in the order in
/// which they are checked.
#[derive(Debug, Clone, Copy, PartialEq, Eq, Structural)]
pub enum AddressTreeParamsError {
    /// The input queue batch size is zero.
    ZeroInputQueueBatchSize,
    /// The zero-knowledge proof batch size is zero.
    ZeroZkpBatchSize,
    /// The input queue batch size is not a multiple of the proof batch size.
    BatchSizeNotDivisibleByZkpBatchSize,
    /// No circuit exists for the proof batch size.
    UnsupportedZkpBatchSize,
    /// The bloom filter uses no hash iterations.
    ZeroBloomFilterNumIters,
    /// Eight bits per batch element do not fit in a `u64`.
    BloomFilterBitsOverflow,
    /// The bloom filter has fewer than eight bits per batch element.
    BloomFilterCapacityTooSmall,
    /// The bloom filter capacity is not a multiple of 8.
    BloomFilterCapacityNotDivisibleBy8,
    /// The bloom filter capacity is zero.
    ZeroBloomFilterCapacity,
    /// The root history holds no roots.
    ZeroRootHistoryCapacity,
    /// A close threshold is set; address trees cannot be closed.
    CloseThresholdSet,
    /// The tree height is not 40.
    InvalidHeight,
}

/// The panic message of the check that failed.
pub open spec fn address_tree_params_error_message(e: AddressTreeParamsError) -> Seq<char> {
    match e {
        AddressTreeParamsError::ZeroInputQueueBatchSize => "assertion failed: params.input_queue_batch_size > 0"@,
        AddressTreeParamsError::ZeroZkpBatchSize => "attempt to calculate the remainder with a divisor of zero"@,
        AddressTreeParamsError::BatchSizeNotDivisibleByZkpBatchSize => "Input queue batch size must divisible by input_queue_zkp_batch_size."@,
        AddressTreeParamsError::UnsupportedZkpBatchSize => "Zkp batch size not supported. Supported 1, 10, 100, 500, 1000"@,
        AddressTreeParamsError::ZeroBloomFilterNumIters => "assertion failed: params.bloom_filter_num_iters > 0"@,
        AddressTreeParamsError::BloomFilterBitsOverflow => "attempt to multiply with overflow"@,
        AddressTreeParamsError::BloomFilterCapacityTooSmall => "assertion failed: params.bloom_filter_capacity >= params.input_queue_batch_size * 8"@,
        AddressTreeParamsError::BloomFilterCapacityNotDivisibleBy8 => "Bloom filter capacity must be divisible by 8."@,
        AddressTreeParamsError::ZeroBloomFilterCapacity => "assertion failed: params.bloom_filter_capacity > 0"@,
        AddressTreeParamsError::ZeroRootHistoryCapacity => "assertion failed: params.root_history_capacity > 0"@,
        AddressTreeParamsError::CloseThresholdSet => "assertion `left == right` failed: params.close_threshold == None"@,
        AddressTreeParamsError::InvalidHeight => "assertion `left == right` failed: params.height == 40"@,
    }
}

impl AddressTreeParamsError {
    /// The panic message of the check that failed.
    pub fn message(&self) -> (r: &'static str)
        ensures
            r@ == address_tree_params_error_message(*self),
    {
        match self {
            AddressTreeParamsError::ZeroInputQueueBatchSize => "assertion failed: params.input_queue_batch_size > 0",
            AddressTreeParamsError::ZeroZkpBatchSize => "attempt to calculate the remainder with a divisor of zero",
            AddressTreeParamsError::BatchSizeNotDivisibleByZkpBatchSize => "Input queue batch size must divisible by input_queue_zkp_batch_size.",
            AddressTreeParamsError::UnsupportedZkpBatchSize => "Zkp batch size not supported. Supported 1, 10, 100, 500, 1000",
            AddressTreeParamsError::ZeroBloomFilterNumIters => "assertion failed: params.bloom_filter_num_iters > 0",
            AddressTreeParamsError::BloomFilterBitsOverflow => "attempt to multiply with overflow",
            AddressTreeParamsError::BloomFilterCapacityTooSmall => "assertion failed: params.bloom_filter_capacity >= params.input_queue_batch_size * 8",
            AddressTreeParamsError::BloomFilterCapacityNotDivisibleBy8 => "Bloom filter capacity must be divisible by 8.",
            AddressTreeParamsError::ZeroBloomFilterCapacity => "assertion failed: params.bloom_filter_capacity > 0",
            AddressTreeParamsError::ZeroRootHistoryCapacity => "assertion failed: params.root_history_capacity > 0",
            AddressTreeParamsError::CloseThresholdSet => "assertion `left == right` failed: params.close_threshold == None",
            AddressTreeParamsError::InvalidHeight => "assertion `left == right` failed: params.height == 40",
        }
    }
}

/// The first check that `p` fails, or `None` when it passes them all.
pub open spec fn address_tree_params_error(
    p: InitAddressTreeAccountsInstructionData,
) -> Option<AddressTreeParamsError> {
    if p.input_queue_batch_size == 0 {
        Some(AddressTreeParamsError::ZeroInputQueueBatchSize)
    } else if p.input_queue_zkp_batch_size == 0 {
        Some(AddressTreeParamsError::ZeroZkpBatchSize)
    } else if p.input_queue_batch_size % p.input_queue_zkp_batch_size != 0 {
        Some(AddressTreeParamsError::BatchSizeNotDivisibleByZkpBatchSize)
    } else if !supported_circuit_size(p.input_queue_zkp_batch_size) {
        Some(AddressTreeParamsError::UnsupportedZkpBatchSize)
    } else if p.bloom_filter_num_iters == 0 {
        Some(AddressTreeParamsError::ZeroBloomFilterNumIters)
    } else if p.input_queue_batch_size * 8 > u64::MAX {
        Some(AddressTreeParamsError::BloomFilterBitsOverflow)
    } else if p.bloom_filter_capacity < p.input_queue_batch_size * 8 {
        Some(AddressTreeParamsError::BloomFilterCapacityTooSmall)
    } else if p.bloom_filter_capacity % 8 != 0 {
        Some(AddressTreeParamsError::BloomFilterCapacityNotDivisibleBy8)
    } else if p.bloom_filter_capacity == 0 {
        Some(AddressTreeParamsError::ZeroBloomFilterCapacity)
    } else if p.root_history_capacity == 0 {
        Some(AddressTreeParamsError::ZeroRootHistoryCapacity)
    } else if p.close_threshold is Some {
        Some(AddressTreeParamsError::CloseThresholdSet)
    } else if p.height != 40 {
        Some(AddressTreeParamsError::InvalidHeight)
    } else {
        None
    }
}

/// Parameters fit for a batched address tree: every check passes.
pub open spec fn batched_address_tree_params_valid(p: InitAddressTreeAccountsInstructionData) -> bool {
    address_tree_params_error(p) is None
}

/// Runs the parameter checks in order and reports the first that fails.
pub fn check_batched_address_tree_params(params: &InitAddressTreeAccountsInstructionData) -> (r:
    Result<(), AddressTreeParamsError>)
    ensures
        match address_tree_params_error(*params) {
            None => r is Ok,
            Some(e) => r == Err::<(), AddressTreeParamsError>(e),
        },
{
    if params.input_queue_batch_size == 0 {
        return Err(AddressTreeParamsError::ZeroInputQueueBatchSize);
    }
    if params.input_queue_zkp_batch_size == 0 {
        return Err(AddressTreeParamsError::ZeroZkpBatchSize);
    }
    if params.input_queue_batch_size % params.input_queue_zkp_batch_size != 0 {
        return Err(AddressTreeParamsError::BatchSizeNotDivisibleByZkpBatchSize);
    }
    if !match_circuit_size(params.input_queue_zkp_batch_size) {
        return Err(AddressTreeParamsError::UnsupportedZkpBatchSize);
    }
    if params.bloom_filter_num_iters == 0 {
        return Err(AddressTreeParamsError::ZeroBloomFilterNumIters);
    }
    if params.input_queue_batch_size > u64::MAX / 8 {
        return Err(AddressTreeParamsError::BloomFilterBitsOverflow);
    }
    if params.bloom_filter_capacity < params.input_queue_batch_size * 8 {
        return Err(AddressTreeParamsError::BloomFilterCapacityTooSmall);
    }
    if params.bloom_filter_capacity % 8 != 0 {
        return Err(AddressTreeParamsError::BloomFilterCapacityNotDivisibleBy8);
    }
    if params.bloom_filter_capacity == 0 {
        return Err(AddressTreeParamsError::ZeroBloomFilterCapacity);
    }
    if params.root_history_capacity == 0 {
        return Err(AddressTreeParamsError::ZeroRootHistoryCapacity);
    }
    if params.close_threshold.is_some() {
        return Err(AddressTreeParamsError::CloseThresholdSet);
    }
    if params.height != 40 {
        return Err(AddressTreeParamsError::InvalidHeight);
    }
    Ok(())
}

/// Accepts the parameters of a batched address tree; only parameters that
/// pass every check may be handed to it.
pub fn validate_batched_address_tree_params(params: InitAddressTreeAccountsInstructionData)
    requires
        batched_address_tree_params_valid(params),
{
    let checked = check_batched_address_tree_params(&params);
    assert(checked is Ok);
}

impl InitAddressTreeAccountsInstructionData {
    /// Small parameters for tests: batches of 50 elements proved 10 at a time.
    pub fn test_default() -> (r: Self)
        ensures
            r.index == 0,
            r.program_owner is None,
            r.forester is None,
            r.bloom_filter_num_iters == 3,
            r.input_queue_batch_size == TEST_DEFAULT_BATCH_SIZE,
            r.input_queue_zkp_batch_size == TEST_DEFAULT_ZKP_BATCH_SIZE,
            r.height == 40,
            r.root_history_capacity == 20,
            r.bloom_filter_capacity == 20_000 * 8,
            r.network_fee == Some(5000u64),
            r.rollover_threshold == Some(95u64),
            r.close_threshold is None,
            batched_address_tree_params_valid(r),
    {
        Self {
            index: 0,
            program_owner: None,
            forester: None,
            bloom_filter_num_iters: 3,
            input_queue_batch_size: TEST_DEFAULT_BATCH_SIZE,
            input_queue_zkp_batch_size: TEST_DEFAULT_ZKP_BATCH_SIZE,
            height: 40,
            root_history_capacity: 20,
            bloom_filter_capacity: 20_000 * 8,
            network_fee: Some(5000),
            rollover_threshold: Some(95),
            close_threshold: None,
        }
    }

    /// Parameters for end-to-end tests: batches of 500 elements proved 10 at a time.
    pub fn e2e_test_default() -> (r: Self)
        ensures
            r.index == 0,
            r.program_owner is None,
            r.forester is None,
            r.bloom_filter_num_iters == 3,
            r.input_queue_batch_size == 500,
            r.input_queue_zkp_batch_size == TEST_DEFAULT_ZKP_BATCH_SIZE,
            r.height == 40,
            r.root_history_capacity == 20,
            r.bloom_filter_capacity == 20_000 * 8,
            r.network_fee == Some(5000u64),
            r.rollover_threshold == Some(95u64),
            r.close_threshold is None,
            batched_address_tree_params_valid(r),
    {
        Self {
            index: 0,
            program_owner: None,
            forester: None,
            bloom_filter_num_iters: 3,
            input_queue_batch_size: 500,
            input_queue_zkp_batch_size: TEST_DEFAULT_ZKP_BATCH_SIZE,
            height: 40,
            root_history_capacity: 20,
            bloom_filter_capacity: 20_000 * 8,
            network_fee: Some(5000),
            rollover_threshold: Some(95),
            close_threshold: None,
        }
    }
}

impl Default for InitAddressTreeAccountsInstructionData {
    /// Production parameters: batches of 50 000 elements proved 500 at a time,
    /// with room for two batches' worth of roots.
    fn default() -> (r: Self)
        ensures
            r.index == 0,
            r.program_owner is None,
            r.forester is None,
            r.bloom_filter_num_iters == 3,
            r.input_queue_batch_size == DEFAULT_BATCH_SIZE,
            r.input_queue_zkp_batch_size == DEFAULT_ZKP_BATCH_SIZE,
            r.height == 40,
            r.root_history_capacity == DEFAULT_BATCH_SIZE / DEFAULT_ZKP_BATCH_SIZE * 2,
            r.bloom_filter_capacity == DEFAULT_BATCH_SIZE * 8,
            r.network_fee == Some(5000u64),
            r.rollover_threshold == Some(95u64),
            r.close_threshold is None,
            batched_address_tree_params_valid(r),
    {
        Self {
            index: 0,
            program_owner: None,
            forester: None,
            bloom_filter_num_iters: 3,
            input_queue_batch_size: DEFAULT_BATCH_SIZE,
            input_queue_zkp_batch_size: DEFAULT_ZKP_BATCH_SIZE,
            height: 40,
            root_history_capacity: (DEFAULT_BATCH_SIZE / DEFAULT_ZKP_BATCH_SIZE * 2) as u32,
            bloom_filter_capacity: DEFAULT_BATCH_SIZE * 8,
            network_fee: Some(5000),
            rollover_threshold: Some(95),
            close_threshold: None,
        }
    }
}

/// Exactly five proof batch sizes have a circuit: 1, 10, 100, 500 and 1000.
/// Any other size, such as 50 or 0, has none.
pub proof fn lemma_supported_circuit_sizes()
    ensures
        Set::new(|s: u64| supported_circuit_size(s)) == set![1u64, 10u64, 100u64, 500u64, 1000u64],
        !supported_circuit_size(50),
        !supported_circuit_size(0),
{
    assert(Set::new(|s: u64| supported_circuit_size(s)) =~= set![1u64, 10u64, 100u64, 500u64, 1000u64]);
}

/// Parameters whose proof batch size has no circuit are refused: when the
/// batch sizes are not zero and the input batch size is a multiple of the
/// proof batch size, a proof batch size outside 1, 10, 100, 500 and 1000 is
/// reported as unsupported.
pub proof fn lemma_unsupported_zkp_batch_size_refused(p: InitAddressTreeAccountsInstructionData)
    requires
        p.input_queue_batch_size != 0,
        p.input_queue_zkp_batch_size != 0,
        p.input_queue_batch_size % p.input_queue_zkp_batch_size == 0,
        !set![1u64, 10u64, 100u64, 500u64, 1000u64].contains(p.input_queue_zkp_batch_size),
    ensures
        address_tree_params_error(p) == Some(AddressTreeParamsError::UnsupportedZkpBatchSize),
        !batched_address_tree_params_valid(p),
{
}

/// Parameters are fit for a batched address tree exactly when every
/// condition holds: non-zero batch sizes, the input batch size a multiple of
/// a proof batch size that has a circuit, at least one bloom filter hash, a
/// bloom filter capacity that is a non-zero multiple of 8 and at least eight
/// bits per element of the batch (the bit count fitting in a `u64`), a
/// non-zero root history, no close threshold and height 40.
pub proof fn lemma_params_valid_iff_all_conditions(p: InitAddressTreeAccountsInstructionData)
    ensures
        batched_address_tree_params_valid(p) <==> {
            &&& p.input_queue_batch_size > 0
            &&& p.input_queue_zkp_batch_size > 0
            &&& p.input_queue_batch_size % p.input_queue_zkp_batch_size == 0
            &&& set![1u64, 10u64, 100u64, 500u64, 1000u64].contains(p.input_queue_zkp_batch_size)
            &&& p.bloom_filter_num_iters > 0
            &&& p.input_queue_batch_size * 8 <= u64::MAX
            &&& p.bloom_filter_capacity >= p.input_queue_batch_size * 8
            &&& p.bloom_filter_capacity % 8 == 0
            &&& p.bloom_filter_capacity > 0
            &&& p.root_history_capacity > 0
            &&& p.close_threshold is None
            &&& p.height == 40
        },
{
}

} // verus!
