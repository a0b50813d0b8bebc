use light_protocol::event::{
    event_from_light_transaction, match_account_compression_program_instruction,
    match_system_program_instruction, system_instruction_kind_of, try_event_from_light_transaction,
    AppendLeaf, CompressedAccount, CompressedAccountData, CompressedCpiContext, InsertAddress,
    InsertIntoQueuesInstructionData, InsertNullifier, MerkleTreeSequenceNumber, NewAddress,
    OutputCompressedAccountWithPackedContext, PublicTransactionEvent, SystemInstructionData,
    SystemInstructionKind, ZeroCopyError, DISCRIMINATOR_INSERT_INTO_QUEUES, DISCRIMINATOR_INVOKE,
    DISCRIMINATOR_INVOKE_CPI, DISCRIMINATOR_INVOKE_CPI_WITH_READ_ONLY,
};
use light_protocol::pubkey::Pubkey;

fn instruction(discriminator: [u8; 8]) -> Vec<u8> {
    let mut ix = discriminator.to_vec();
    ix.extend_from_slice(&[0, 0, 0, 0, 1, 2, 3]);
    ix
}

fn output(lamports: u64, tree: u8) -> OutputCompressedAccountWithPackedContext {
    OutputCompressedAccountWithPackedContext {
        compressed_account: CompressedAccount {
            owner: Pubkey([1u8; 32]),
            lamports,
            address: Some([2u8; 32]),
            data: Some(CompressedAccountData {
                discriminator: [3u8; 8],
                data: vec![4, 5, 6],
                data_hash: [7u8; 32],
            }),
        },
        merkle_tree_index: tree,
    }
}

fn system_data(
    outputs: Vec<OutputCompressedAccountWithPackedContext>,
    cpi_context: Option<CompressedCpiContext>,
) -> SystemInstructionData {
    SystemInstructionData {
        output_compressed_accounts: outputs,
        relay_fee: Some(11),
        compress_or_decompress_lamports: Some(22),
        is_compress: true,
        cpi_context,
    }
}

fn seq(byte: u8, seq: u64) -> MerkleTreeSequenceNumber {
    MerkleTreeSequenceNumber { pubkey: Pubkey([byte; 32]), seq }
}

fn queue_data() -> InsertIntoQueuesInstructionData {
    InsertIntoQueuesInstructionData {
        nullifiers: vec![InsertNullifier { account_hash: [8u8; 32] }],
        leaves: vec![
            AppendLeaf { account_index: 5, leaf: [9u8; 32] },
            AppendLeaf { account_index: 6, leaf: [10u8; 32] },
        ],
        addresses: vec![
            InsertAddress { address: [12u8; 32], tree_index: 1, queue_index: 1 },
            InsertAddress { address: [13u8; 32], tree_index: 0, queue_index: 2 },
        ],
        output_sequence_numbers: vec![seq(20, 1)],
        input_sequence_numbers: vec![seq(0, 2), seq(21, 3)],
        address_sequence_numbers: vec![seq(22, 4), seq(0, 5)],
        output_leaf_indices: vec![100, 101],
    }
}

#[test]
fn instruction_kinds() {
    assert_eq!(
        system_instruction_kind_of(&instruction(DISCRIMINATOR_INVOKE)),
        Some(SystemInstructionKind::Invoke)
    );
    assert_eq!(
        system_instruction_kind_of(&instruction(DISCRIMINATOR_INVOKE_CPI)),
        Some(SystemInstructionKind::InvokeCpi)
    );
    assert_eq!(
        system_instruction_kind_of(&instruction(DISCRIMINATOR_INVOKE_CPI_WITH_READ_ONLY)),
        Some(SystemInstructionKind::InvokeCpiWithReadOnly)
    );
    assert_eq!(system_instruction_kind_of(&instruction(DISCRIMINATOR_INSERT_INTO_QUEUES)), None);
    assert_eq!(system_instruction_kind_of(&DISCRIMINATOR_INVOKE[..]), None);
    assert_eq!(system_instruction_kind_of(&instruction(DISCRIMINATOR_INVOKE_CPI)[..11]), None);
}

#[test]
fn invoke_overwrites_the_event() {
    let mut event = PublicTransactionEvent::default();
    event.output_compressed_accounts.push(output(1, 1));
    let mut flag = false;
    let data = Ok(system_data(vec![output(2, 2), output(3, 3)], None));
    let r = match_system_program_instruction(
        &instruction(DISCRIMINATOR_INVOKE),
        &data,
        false,
        &mut event,
        &mut flag,
    );
    assert_eq!(r, Ok(true));
    assert_eq!(event.output_compressed_accounts, vec![output(2, 2), output(3, 3)]);
    assert_eq!(event.relay_fee, Some(11));
    assert_eq!(event.compress_or_decompress_lamports, Some(22));
    assert!(event.is_compress);
    assert!(!flag);
}

#[test]
fn other_and_short_instructions_leave_the_event() {
    let mut event = PublicTransactionEvent::default();
    let mut flag = false;
    let data = Ok(system_data(vec![output(2, 2)], None));
    for ix in [instruction([0u8; 8]), DISCRIMINATOR_INVOKE[..].to_vec()] {
        let r = match_system_program_instruction(&ix, &data, false, &mut event, &mut flag);
        assert_eq!(r, Ok(false));
        assert_eq!(event, PublicTransactionEvent::default());
        assert!(!flag);
    }
}

#[test]
fn decoding_errors_are_passed_on() {
    let mut event = PublicTransactionEvent::default();
    let mut flag = false;
    let data = Err(ZeroCopyError(3));
    let r = match_system_program_instruction(
        &instruction(DISCRIMINATOR_INVOKE_CPI),
        &data,
        false,
        &mut event,
        &mut flag,
    );
    assert_eq!(r, Err(ZeroCopyError(3)));
    assert_eq!(event, PublicTransactionEvent::default());
}

#[test]
fn cpi_context_setting_instruction_is_skipped_then_appended() {
    let ctx = CompressedCpiContext { set_context: true, first_set_context: false, cpi_context_account_index: 0 };
    let data = Ok(system_data(vec![output(4, 4)], Some(ctx)));
    let mut event = PublicTransactionEvent::default();
    event.output_compressed_accounts.push(output(1, 1));
    let mut flag = false;
    let ix = instruction(DISCRIMINATOR_INVOKE_CPI_WITH_READ_ONLY);
    let r = match_system_program_instruction(&ix, &data, false, &mut event, &mut flag);
    assert_eq!(r, Ok(false));
    assert!(flag);
    assert_eq!(event.output_compressed_accounts, vec![output(1, 1)]);
    let r = match_system_program_instruction(&ix, &data, true, &mut event, &mut flag);
    assert_eq!(r, Ok(true));
    assert_eq!(event.output_compressed_accounts, vec![output(1, 1), output(4, 4)]);
    assert_eq!(event.relay_fee, None);
}

#[test]
fn queue_instruction_fills_the_event() {
    let mut event = PublicTransactionEvent::default();
    event.output_compressed_accounts = vec![output(1, 0), output(2, 0), output(3, 0)];
    let mut new_addresses = vec![];
    let mut input_seqs = vec![seq(30, 0)];
    let mut address_seqs = vec![];
    let accounts = [Pubkey([40u8; 32]), Pubkey([41u8; 32]), Pubkey([42u8; 32])];
    let r = match_account_compression_program_instruction(
        &instruction(DISCRIMINATOR_INSERT_INTO_QUEUES),
        &Ok(queue_data()),
        &mut event,
        &mut new_addresses,
        &mut input_seqs,
        &mut address_seqs,
        &accounts,
    );
    assert_eq!(r, Ok(true));
    assert_eq!(event.input_compressed_account_hashes, vec![[8u8; 32]]);
    assert_eq!(event.output_compressed_account_hashes, vec![[9u8; 32], [10u8; 32]]);
    assert_eq!(event.sequence_numbers, vec![seq(20, 1)]);
    assert_eq!(event.output_leaf_indices, vec![100, 101]);
    assert_eq!(event.output_compressed_accounts, vec![output(1, 5), output(2, 6), output(3, 0)]);
    assert_eq!(new_addresses, vec![NewAddress { address: [12u8; 32], mt_pubkey: Pubkey([41u8; 32]) }]);
    assert_eq!(input_seqs, vec![seq(30, 0), seq(21, 3)]);
    assert_eq!(address_seqs, vec![seq(22, 4)]);
}

#[test]
fn non_queue_instruction_is_not_matched() {
    let mut event = PublicTransactionEvent::default();
    let mut new_addresses = vec![];
    let mut input_seqs = vec![];
    let mut address_seqs = vec![];
    let r = match_account_compression_program_instruction(
        &instruction(DISCRIMINATOR_INVOKE),
        &Ok(queue_data()),
        &mut event,
        &mut new_addresses,
        &mut input_seqs,
        &mut address_seqs,
        &[],
    );
    assert_eq!(r, Ok(false));
    assert_eq!(event, PublicTransactionEvent::default());
    assert!(new_addresses.is_empty());
    let r = match_account_compression_program_instruction(
        &[1, 2, 3],
        &Err(ZeroCopyError(1)),
        &mut event,
        &mut new_addresses,
        &mut input_seqs,
        &mut address_seqs,
        &[],
    );
    assert_eq!(r, Ok(false));
}

fn accounts(n: u8) -> Vec<Pubkey> {
    (0..n).map(|i| Pubkey([50 + i; 32])).collect()
}

#[test]
fn event_from_invoke_and_queue_instructions() {
    let instructions = vec![
        instruction([0u8; 8]),
        instruction(DISCRIMINATOR_INVOKE),
        instruction(DISCRIMINATOR_INSERT_INTO_QUEUES),
    ];
    let system = vec![
        Err(ZeroCopyError(9)),
        Ok(system_data(vec![output(2, 0), output(3, 0)], None)),
        Err(ZeroCopyError(9)),
    ];
    let queue = vec![Err(ZeroCopyError(8)), Err(ZeroCopyError(8)), Ok(queue_data())];
    let remaining = vec![accounts(1), accounts(2), accounts(5)];
    let batch = event_from_light_transaction(&instructions, &system, &queue, remaining)
        .unwrap()
        .unwrap();
    assert_eq!(batch.event.pubkey_array, vec![Pubkey([52u8; 32]), Pubkey([53u8; 32]), Pubkey([54u8; 32])]);
    assert_eq!(batch.event.output_compressed_accounts, vec![output(2, 5), output(3, 6)]);
    assert_eq!(batch.event.relay_fee, Some(11));
    assert_eq!(batch.new_addresses, vec![NewAddress { address: [12u8; 32], mt_pubkey: Pubkey([53u8; 32]) }]);
    assert_eq!(batch.input_sequence_numbers, vec![seq(21, 3)]);
    assert_eq!(batch.address_sequence_numbers, vec![seq(22, 4)]);
}

#[test]
fn no_system_instruction_no_event() {
    let instructions = vec![instruction(DISCRIMINATOR_INSERT_INTO_QUEUES)];
    let system = vec![Ok(system_data(vec![], None))];
    let queue = vec![Ok(queue_data())];
    let r = event_from_light_transaction(&instructions, &system, &queue, vec![accounts(5)]);
    assert!(matches!(r, Ok(None)));
}

#[test]
fn no_queue_instruction_no_event() {
    let instructions = vec![instruction(DISCRIMINATOR_INVOKE)];
    let system = vec![Ok(system_data(vec![output(1, 1)], None))];
    let queue = vec![Ok(queue_data())];
    let r = event_from_light_transaction(&instructions, &system, &queue, vec![accounts(5)]);
    assert!(matches!(r, Ok(None)));
}

#[test]
fn queue_instruction_with_two_accounts_is_passed_over() {
    let instructions = vec![
        instruction(DISCRIMINATOR_INVOKE),
        instruction(DISCRIMINATOR_INSERT_INTO_QUEUES),
    ];
    let system = vec![Ok(system_data(vec![], None)), Err(ZeroCopyError(1))];
    let queue = vec![Err(ZeroCopyError(1)), Ok(queue_data())];
    let r = event_from_light_transaction(&instructions, &system, &queue, vec![accounts(1), accounts(2)]);
    assert!(matches!(r, Ok(None)));
}

#[test]
fn cpi_context_instructions_are_gathered() {
    let ctx_set = CompressedCpiContext { set_context: false, first_set_context: true, cpi_context_account_index: 0 };
    let ctx_exec = CompressedCpiContext { set_context: false, first_set_context: false, cpi_context_account_index: 0 };
    let instructions = vec![
        instruction(DISCRIMINATOR_INVOKE_CPI),
        instruction(DISCRIMINATOR_INVOKE_CPI),
        instruction(DISCRIMINATOR_INSERT_INTO_QUEUES),
    ];
    let system = vec![
        Ok(system_data(vec![output(1, 0)], Some(ctx_set))),
        Ok(system_data(vec![output(2, 0)], Some(ctx_exec))),
        Err(ZeroCopyError(1)),
    ];
    let queue = vec![Err(ZeroCopyError(1)), Err(ZeroCopyError(1)), Ok(queue_data())];
    let batch = event_from_light_transaction(
        &instructions,
        &system,
        &queue,
        vec![accounts(3), accounts(3), accounts(4)],
    )
    .unwrap()
    .unwrap();
    // The executing instruction is found first, then every instruction's
    // outputs are added again in order.
    assert_eq!(
        batch.event.output_compressed_accounts,
        vec![output(2, 5), output(1, 6), output(2, 0)]
    );
    assert_eq!(batch.event.pubkey_array, vec![Pubkey([52u8; 32]), Pubkey([53u8; 32])]);
}

#[test]
fn failing_inputs_are_reported() {
    let instructions = vec![instruction(DISCRIMINATOR_INVOKE)];
    let system = vec![Err(ZeroCopyError(4))];
    let queue = vec![Err(ZeroCopyError(4))];
    assert!(try_event_from_light_transaction(&instructions, &system, &queue, vec![accounts(3)]).is_none());

    let instructions = vec![instruction(DISCRIMINATOR_INVOKE), instruction(DISCRIMINATOR_INSERT_INTO_QUEUES)];
    let system = vec![Ok(system_data(vec![], None)), Err(ZeroCopyError(4))];
    let queue = vec![Err(ZeroCopyError(4)), Ok(queue_data())];
    // Only one account list for two instructions.
    assert!(try_event_from_light_transaction(&instructions, &system, &queue, vec![accounts(1)]).is_none());
    // The new address's queue index 1 is past the one account after the first two.
    assert!(try_event_from_light_transaction(&instructions, &system, &queue, vec![accounts(1), accounts(3)]).is_none());
    let ok = try_event_from_light_transaction(&instructions, &system, &queue, vec![accounts(1), accounts(4)]);
    assert!(matches!(ok, Some(Some(_))));
}
