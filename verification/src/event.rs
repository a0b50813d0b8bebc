use vstd::prelude::*;

use crate::pubkey::Pubkey;

verus! {

/// Discriminator of the light system program's `invoke` instruction.
pub const DISCRIMINATOR_INVOKE: [u8; 8] = [26, 16, 169, 7, 21, 202, 242, 25];

/// Discriminator of the light system program's `invoke_cpi` instruction.
pub const DISCRIMINATOR_INVOKE_CPI: [u8; 8] = [49, 212, 191, 129, 39, 194, 43, 196];

/// Discriminator of the light system program's `invoke_cpi_with_read_only` instruction.
pub const DISCRIMINATOR_INVOKE_CPI_WITH_READ_ONLY: [u8; 8] = [86, 47, 163, 166, 21, 223, 92, 8];

/// Discriminator of the account compression program's `insert_into_queues` instruction.
pub const DISCRIMINATOR_INSERT_INTO_QUEUES: [u8; 8] = [180, 143, 159, 153, 35, 46, 248, 163];

/// The error that the decoder of instruction data reported, passed on unchanged.
#[derive(Debug, Clone, Copy, PartialEq, Eq, Structural)]
pub struct ZeroCopyError(pub u32);

/// The sequence number that a Merkle tree reached in a transaction.
#[derive(Debug, Clone, Copy, PartialEq)]
pub struct MerkleTreeSequenceNumber {
    pub pubkey: Pubkey,
    pub seq: u64,
}

/// The data of a compressed account.
#[derive(Debug, PartialEq)]
pub struct CompressedAccountData {
    pub discriminator: [u8; 8],
    pub data: Vec<u8>,
    pub data_hash: [u8; 32],
}

pub struct CompressedAccountDataView {
    pub discriminator: [u8; 8],
    pub data: Seq<u8>,
    pub data_hash: [u8; 32],
}

impl View for CompressedAccountData {
    type V = CompressedAccountDataView;

    open spec fn view(&self) -> CompressedAccountDataView {
        CompressedAccountDataView {
            discriminator: self.discriminator,
            data: self.data@,
            data_hash: self.data_hash,
        }
    }
}

impl Clone for CompressedAccountData {
    fn clone(&self) -> (r: Self)
        ensures
            r@ == self@,
    {
        let data = self.data.clone();
        assert(data@ =~= self.data@);
        CompressedAccountData { discriminator: self.discriminator, data, data_hash: self.data_hash }
    }
}

/// A compressed account.
#[derive(Debug, PartialEq)]
pub struct CompressedAccount {
    pub owner: Pubkey,
    pub lamports: u64,
    pub address: Option<[u8; 32]>,
    pub data: Option<CompressedAccountData>,
}

pub struct CompressedAccountView {
    pub owner: Pubkey,
    pub lamports: u64,
    pub address: Option<[u8; 32]>,
    pub data: Option<CompressedAccountDataView>,
}

impl View for CompressedAccount {
    type V = CompressedAccountView;

    open spec fn view(&self) -> CompressedAccountView {
        CompressedAccountView {
            owner: self.owner,
            lamports: self.lamports,
            address: self.address,
            data: match self.data {
                Some(d) => Some(d@),
                None => None,
            },
        }
    }
}

impl Clone for CompressedAccount {
    fn clone(&self) -> (r: Self)
        ensures
            r@ == self@,
    {
        let data = match &self.data {
            Some(d) => Some(d.clone()),
            None => None,
        };
        CompressedAccount { owner: self.owner, lamports: self.lamports, address: self.address, data }
    }
}

/// A compressed account created by a transaction, with the index of its
/// Merkle tree in the transaction's accounts.
#[derive(Debug, PartialEq)]
pub struct OutputCompressedAccountWithPackedContext {
    pub compressed_account: CompressedAccount,
    pub merkle_tree_index: u8,
}

pub struct OutputCompressedAccountView {
    pub compressed_account: CompressedAccountView,
    pub merkle_tree_index: u8,
}

impl View for OutputCompressedAccountWithPackedContext {
    type V = OutputCompressedAccountView;

    open spec fn view(&self) -> OutputCompressedAccountView {
        OutputCompressedAccountView {
            compressed_account: self.compressed_account@,
            merkle_tree_index: self.merkle_tree_index,
        }
    }
}

impl Clone for OutputCompressedAccountWithPackedContext {
    fn clone(&self) -> (r: Self)
        ensures
            r@ == self@,
    {
        OutputCompressedAccountWithPackedContext {
            compressed_account: self.compressed_account.clone(),
            merkle_tree_index: self.merkle_tree_index,
        }
    }
}

/// The views of a sequence of output accounts.
pub open spec fn outputs_view(v: Seq<OutputCompressedAccountWithPackedContext>) -> Seq<
    OutputCompressedAccountView,
> {
    v.map_values(|o: OutputCompressedAccountWithPackedContext| o@)
}

/// Appends copies of `src` to `dst`.
fn append_outputs(
    dst: &mut Vec<OutputCompressedAccountWithPackedContext>,
    src: &Vec<OutputCompressedAccountWithPackedContext>,
)
    ensures
        outputs_view(final(dst)@) == outputs_view(old(dst)@) + outputs_view(src@),
{
    let ghost start = dst@;
    let mut i: usize = 0;
    while i < src.len()
        invariant
            0 <= i <= src.len(),
            outputs_view(dst@) == outputs_view(start) + outputs_view(src@).take(i as int),
        decreases src.len() - i,
    {
        let o = src[i].clone();
        let ghost before = dst@;
        dst.push(o);
        assert(outputs_view(dst@) =~= outputs_view(before).push(o@));
        assert(outputs_view(src@).take(i + 1) =~= outputs_view(src@).take(i as int).push(o@));
        assert(outputs_view(dst@) =~= outputs_view(start) + outputs_view(src@).take(i + 1));
        i = i + 1;
    }
    assert(outputs_view(src@).take(src.len() as int) =~= outputs_view(src@));
}

/// Copies of the output accounts in `src`.
fn clone_outputs(src: &Vec<OutputCompressedAccountWithPackedContext>) -> (r: Vec<
    OutputCompressedAccountWithPackedContext,
>)
    ensures
        outputs_view(r@) == outputs_view(src@),
{
    let mut r = Vec::new();
    append_outputs(&mut r, src);
    assert(outputs_view(Seq::<OutputCompressedAccountWithPackedContext>::empty()) + outputs_view(
        src@,
    ) =~= outputs_view(src@));
    r
}

/// The public record of a compressed transaction: the accounts it consumed
/// and created and the tree sequence numbers it reached.
#[derive(Debug, PartialEq)]
pub struct PublicTransactionEvent {
    pub input_compressed_account_hashes: Vec<[u8; 32]>,
    pub output_compressed_account_hashes: Vec<[u8; 32]>,
    pub output_compressed_accounts: Vec<OutputCompressedAccountWithPackedContext>,
    pub output_leaf_indices: Vec<u32>,
    pub sequence_numbers: Vec<MerkleTreeSequenceNumber>,
    pub relay_fee: Option<u64>,
    pub is_compress: bool,
    pub compress_or_decompress_lamports: Option<u64>,
    pub pubkey_array: Vec<Pubkey>,
    pub message: Option<Vec<u8>>,
}

pub struct PublicTransactionEventView {
    pub input_compressed_account_hashes: Seq<[u8; 32]>,
    pub output_compressed_account_hashes: Seq<[u8; 32]>,
    pub output_compressed_accounts: Seq<OutputCompressedAccountView>,
    pub output_leaf_indices: Seq<u32>,
    pub sequence_numbers: Seq<MerkleTreeSequenceNumber>,
    pub relay_fee: Option<u64>,
    pub is_compress: bool,
    pub compress_or_decompress_lamports: Option<u64>,
    pub pubkey_array: Seq<Pubkey>,
    pub message: Option<Seq<u8>>,
}

impl View for PublicTransactionEvent {
    type V = PublicTransactionEventView;

    open spec fn view(&self) -> PublicTransactionEventView {
        PublicTransactionEventView {
            input_compressed_account_hashes: self.input_compressed_account_hashes@,
            output_compressed_account_hashes: self.output_compressed_account_hashes@,
            output_compressed_accounts: outputs_view(self.output_compressed_accounts@),
            output_leaf_indices: self.output_leaf_indices@,
            sequence_numbers: self.sequence_numbers@,
            relay_fee: self.relay_fee,
            is_compress: self.is_compress,
            compress_or_decompress_lamports: self.compress_or_decompress_lamports,
            pubkey_array: self.pubkey_array@,
            message: match self.message {
                Some(m) => Some(m@),
                None => None,
            },
        }
    }
}

/// The event of a transaction that did nothing.
pub open spec fn empty_event() -> PublicTransactionEventView {
    PublicTransactionEventView {
        input_compressed_account_hashes: Seq::empty(),
        output_compressed_account_hashes: Seq::empty(),
        output_compressed_accounts: Seq::empty(),
        output_leaf_indices: Seq::empty(),
        sequence_numbers: Seq::empty(),
        relay_fee: None,
        is_compress: false,
        compress_or_decompress_lamports: None,
        pubkey_array: Seq::empty(),
        message: None,
    }
}

impl Default for PublicTransactionEvent {
    fn default() -> (r: PublicTransactionEvent)
        ensures
            r@ == empty_event(),
    {
        let r = PublicTransactionEvent {
            input_compressed_account_hashes: Vec::new(),
            output_compressed_account_hashes: Vec::new(),
            output_compressed_accounts: Vec::new(),
            output_leaf_indices: Vec::new(),
            sequence_numbers: Vec::new(),
            relay_fee: None,
            is_compress: false,
            compress_or_decompress_lamports: None,
            pubkey_array: Vec::new(),
            message: None,
        };
        assert(r@.output_compressed_accounts =~= Seq::empty());
        r
    }
}

/// An address created in a batched address tree, with the tree's queue.
#[derive(Debug, Clone, Copy, PartialEq)]
pub struct NewAddress {
    pub address: [u8; 32],
    pub mt_pubkey: Pubkey,
}

/// A transaction event together with what batched trees need besides it.
#[derive(Debug)]
pub struct BatchPublicTransactionEvent {
    pub event: PublicTransactionEvent,
    pub new_addresses: Vec<NewAddress>,
    pub input_sequence_numbers: Vec<MerkleTreeSequenceNumber>,
    pub address_sequence_numbers: Vec<MerkleTreeSequenceNumber>,
}

/// The compressed CPI context settings of an instruction.
#[derive(Debug, Clone, Copy, PartialEq, Eq, Structural)]
pub struct CompressedCpiContext {
    pub set_context: bool,
    pub first_set_context: bool,
    pub cpi_context_account_index: u8,
}

/// The parts of a decoded light system program instruction that the event
/// is made of. For `invoke_cpi_with_read_only` these are the parts of its
/// inner `invoke_cpi` data; an `invoke` instruction has no CPI context.
#[derive(Debug)]
pub struct SystemInstructionData {
    pub output_compressed_accounts: Vec<OutputCompressedAccountWithPackedContext>,
    pub relay_fee: Option<u64>,
    pub compress_or_decompress_lamports: Option<u64>,
    pub is_compress: bool,
    pub cpi_context: Option<CompressedCpiContext>,
}

pub struct SystemInstructionDataView {
    pub output_compressed_accounts: Seq<OutputCompressedAccountView>,
    pub relay_fee: Option<u64>,
    pub compress_or_decompress_lamports: Option<u64>,
    pub is_compress: bool,
    pub cpi_context: Option<CompressedCpiContext>,
}

impl View for SystemInstructionData {
    type V = SystemInstructionDataView;

    open spec fn view(&self) -> SystemInstructionDataView {
        SystemInstructionDataView {
            output_compressed_accounts: outputs_view(self.output_compressed_accounts@),
            relay_fee: self.relay_fee,
            compress_or_decompress_lamports: self.compress_or_decompress_lamports,
            is_compress: self.is_compress,
            cpi_context: self.cpi_context,
        }
    }
}

/// The view of a decoding outcome.
pub open spec fn system_decoding_view(d: Result<SystemInstructionData, ZeroCopyError>) -> Result<
    SystemInstructionDataView,
    ZeroCopyError,
> {
    match d {
        Ok(data) => Ok(data@),
        Err(e) => Err(e),
    }
}

/// The light system program instructions that make up an event.
#[derive(Debug, Clone, Copy, PartialEq, Eq, Structural)]
pub enum SystemInstructionKind {
    Invoke,
    InvokeCpi,
    InvokeCpiWithReadOnly,
}

/// The light system program instruction that `ix` is, judged by its first
/// eight bytes; instructions shorter than twelve bytes are none.
pub open spec fn system_instruction_kind(ix: Seq<u8>) -> Option<SystemInstructionKind> {
    if ix.len() < 12 {
        None
    } else if ix.take(8) == DISCRIMINATOR_INVOKE@ {
        Some(SystemInstructionKind::Invoke)
    } else if ix.take(8) == DISCRIMINATOR_INVOKE_CPI@ {
        Some(SystemInstructionKind::InvokeCpi)
    } else if ix.take(8) == DISCRIMINATOR_INVOKE_CPI_WITH_READ_ONLY@ {
        Some(SystemInstructionKind::InvokeCpiWithReadOnly)
    } else {
        None
    }
}

/// Whether the first eight bytes of `ix` are `discriminator`.
fn starts_with_discriminator(ix: &[u8], discriminator: &[u8; 8]) -> (r: bool)
    requires
        ix@.len() >= 8,
    ensures
        r == (ix@.take(8) == discriminator@),
{
    let mut i: usize = 0;
    while i < 8
        invariant
            0 <= i <= 8,
            ix@.len() >= 8,
            forall|j: int| 0 <= j < i ==> ix@[j] == discriminator@[j],
        decreases 8 - i,
    {
        if ix[i] != discriminator[i] {
            assert(ix@.take(8)[i as int] != discriminator@[i as int]);
            return false;
        }
        i = i + 1;
    }
    assert(ix@.take(8) =~= discriminator@);
    true
}

/// The light system program instruction that `ix` is, if any.
pub fn system_instruction_kind_of(ix: &[u8]) -> (r: Option<SystemInstructionKind>)
    ensures
        r == system_instruction_kind(ix@),
{
    if ix.len() < 12 {
        None
    } else if starts_with_discriminator(ix, &DISCRIMINATOR_INVOKE) {
        Some(SystemInstructionKind::Invoke)
    } else if starts_with_discriminator(ix, &DISCRIMINATOR_INVOKE_CPI) {
        Some(SystemInstructionKind::InvokeCpi)
    } else if starts_with_discriminator(ix, &DISCRIMINATOR_INVOKE_CPI_WITH_READ_ONLY) {
        Some(SystemInstructionKind::InvokeCpiWithReadOnly)
    } else {
        None
    }
}

/// What a light system program instruction does to the event: its result,
/// the event after it, and the "an instruction set the CPI context" flag after it.
///
/// An instruction that is none of the three leaves everything unchanged and
/// yields `false`; one whose data did not decode yields the decoding error.
/// An `invoke`, or a CPI instruction without CPI context, overwrites the
/// event's output accounts, relay fee, lamports and compression direction.
/// A CPI instruction with CPI context raises the flag; if it only sets the
/// context (first or later) and `set_cpi_context` is off, it yields `false`
/// and changes nothing else, otherwise it appends its output accounts.
pub open spec fn system_instruction_effect(
    ix: Seq<u8>,
    decoded: Result<SystemInstructionDataView, ZeroCopyError>,
    set_cpi_context: bool,
    ev: PublicTransactionEventView,
    flag: bool,
) -> (Result<bool, ZeroCopyError>, PublicTransactionEventView, bool) {
    match system_instruction_kind(ix) {
        None => (Ok(false), ev, flag),
        Some(kind) => match decoded {
            Err(e) => (Err(e), ev, flag),
            Ok(d) => {
                if !(kind is Invoke) && d.cpi_context is Some {
                    let c = d.cpi_context->0;
                    if (c.first_set_context || c.set_context) && !set_cpi_context {
                        (Ok(false), ev, true)
                    } else {
                        (
                            Ok(true),
                            PublicTransactionEventView {
                                output_compressed_accounts: ev.output_compressed_accounts
                                    + d.output_compressed_accounts,
                                ..ev
                            },
                            true,
                        )
                    }
                } else {
                    (
                        Ok(true),
                        PublicTransactionEventView {
                            output_compressed_accounts: d.output_compressed_accounts,
                            is_compress: d.is_compress,
                            relay_fee: d.relay_fee,
                            compress_or_decompress_lamports: d.compress_or_decompress_lamports,
                            ..ev
                        },
                        flag,
                    )
                }
            },
        },
    }
}

/// Adds what a light system program instruction contributes to `event`.
///
/// `decoded` is what decoding the instruction's data (the bytes after its
/// twelve-byte header) gave, by the layout that its discriminator selects.
pub fn match_system_program_instruction(
    instruction: &[u8],
    decoded: &Result<SystemInstructionData, ZeroCopyError>,
    set_cpi_context: bool,
    event: &mut PublicTransactionEvent,
    ix_set_cpi_context: &mut bool,
) -> (r: Result<bool, ZeroCopyError>)
    ensures
        (r, final(event)@, *final(ix_set_cpi_context)) == system_instruction_effect(
            instruction@,
            system_decoding_view(*decoded),
            set_cpi_context,
            old(event)@,
            *old(ix_set_cpi_context),
        ),
{
    let kind = match system_instruction_kind_of(instruction) {
        None => {
            return Ok(false);
        },
        Some(kind) => kind,
    };
    let data = match decoded {
        Err(e) => {
            return Err(*e);
        },
        Ok(data) => data,
    };
    let is_invoke = match kind {
        SystemInstructionKind::Invoke => true,
        _ => false,
    };
    if !is_invoke {
        if let Some(cpi_context) = data.cpi_context {
            *ix_set_cpi_context = true;
            if (cpi_context.first_set_context || cpi_context.set_context) && !set_cpi_context {
                return Ok(false);
            } else {
                append_outputs(&mut event.output_compressed_accounts, &data.output_compressed_accounts);
                return Ok(true);
            }
        }
    }
    event.output_compressed_accounts = clone_outputs(&data.output_compressed_accounts);
    event.is_compress = data.is_compress;
    event.relay_fee = data.relay_fee;
    event.compress_or_decompress_lamports = data.compress_or_decompress_lamports;
    Ok(true)
}

/// A nullifier inserted into an input queue; the event records its account hash.
#[derive(Debug, Clone, Copy, PartialEq)]
pub struct InsertNullifier {
    pub account_hash: [u8; 32],
}

/// A leaf appended to an output queue, with the account index of its tree.
#[derive(Debug, Clone, Copy, PartialEq)]
pub struct AppendLeaf {
    pub account_index: u8,
    pub leaf: [u8; 32],
}

/// An address inserted into an address queue, with the account indices of
/// its tree and of its queue; batched trees are their own queue.
#[derive(Debug, Clone, Copy, PartialEq)]
pub struct InsertAddress {
    pub address: [u8; 32],
    pub tree_index: u8,
    pub queue_index: u8,
}

/// The parts of a decoded `insert_into_queues` instruction that the event is made of.
#[derive(Debug)]
pub struct InsertIntoQueuesInstructionData {
    pub nullifiers: Vec<InsertNullifier>,
    pub leaves: Vec<AppendLeaf>,
    pub addresses: Vec<InsertAddress>,
    pub output_sequence_numbers: Vec<MerkleTreeSequenceNumber>,
    pub input_sequence_numbers: Vec<MerkleTreeSequenceNumber>,
    pub address_sequence_numbers: Vec<MerkleTreeSequenceNumber>,
    pub output_leaf_indices: Vec<u32>,
}

pub struct InsertIntoQueuesInstructionDataView {
    pub nullifiers: Seq<InsertNullifier>,
    pub leaves: Seq<AppendLeaf>,
    pub addresses: Seq<InsertAddress>,
    pub output_sequence_numbers: Seq<MerkleTreeSequenceNumber>,
    pub input_sequence_numbers: Seq<MerkleTreeSequenceNumber>,
    pub address_sequence_numbers: Seq<MerkleTreeSequenceNumber>,
    pub output_leaf_indices: Seq<u32>,
}

impl View for InsertIntoQueuesInstructionData {
    type V = InsertIntoQueuesInstructionDataView;

    open spec fn view(&self) -> InsertIntoQueuesInstructionDataView {
        InsertIntoQueuesInstructionDataView {
            nullifiers: self.nullifiers@,
            leaves: self.leaves@,
            addresses: self.addresses@,
            output_sequence_numbers: self.output_sequence_numbers@,
            input_sequence_numbers: self.input_sequence_numbers@,
            address_sequence_numbers: self.address_sequence_numbers@,
            output_leaf_indices: self.output_leaf_indices@,
        }
    }
}

/// The view of a decoding outcome.
pub open spec fn queue_decoding_view(d: Result<InsertIntoQueuesInstructionData, ZeroCopyError>) -> Result<
    InsertIntoQueuesInstructionDataView,
    ZeroCopyError,
> {
    match d {
        Ok(data) => Ok(data@),
        Err(e) => Err(e),
    }
}

/// Whether `ix` is an `insert_into_queues` instruction, judged by its first eight bytes.
pub open spec fn is_insert_into_queues(ix: Seq<u8>) -> bool {
    ix.len() >= 8 && ix.take(8) == DISCRIMINATOR_INSERT_INTO_QUEUES@
}

/// The addresses that are new in batched address trees (those whose tree is
/// their own queue), each with the queue's address from `accounts`.
pub open spec fn new_addresses_of(addresses: Seq<InsertAddress>, accounts: Seq<Pubkey>) -> Seq<
    NewAddress,
> {
    addresses.filter(|a: InsertAddress| a.tree_index == a.queue_index).map_values(
        |a: InsertAddress| NewAddress { address: a.address, mt_pubkey: accounts[a.queue_index as int] },
    )
}

/// The sequence numbers that belong to a tree: those whose address is not all zeros.
pub open spec fn assigned_sequence_numbers(s: Seq<MerkleTreeSequenceNumber>) -> Seq<
    MerkleTreeSequenceNumber,
> {
    s.filter(|x: MerkleTreeSequenceNumber| x.pubkey.0@ != crate::pubkey::zero_bytes())
}

/// The output accounts with their tree indices replaced, position by
/// position, by the account indices of the appended leaves; accounts past
/// the last leaf keep theirs.
pub open spec fn with_leaf_tree_indices(
    outputs: Seq<OutputCompressedAccountView>,
    leaves: Seq<AppendLeaf>,
) -> Seq<OutputCompressedAccountView> {
    Seq::new(
        outputs.len(),
        |i: int|
            if i < leaves.len() {
                OutputCompressedAccountView { merkle_tree_index: leaves[i].account_index, ..outputs[i] }
            } else {
                outputs[i]
            },
    )
}

/// Whether handling `ix` would index past its data or past `accounts`:
/// an `insert_into_queues` instruction shorter than its twelve-byte header,
/// or a new address whose queue index is not an index of `accounts`.
pub open spec fn queue_instruction_out_of_bounds(
    ix: Seq<u8>,
    decoded: Result<InsertIntoQueuesInstructionDataView, ZeroCopyError>,
    accounts: Seq<Pubkey>,
) -> bool {
    is_insert_into_queues(ix) && (ix.len() < 12 || (decoded is Ok && exists|i: int|
        0 <= i < decoded->Ok_0.addresses.len() && #[trigger] decoded->Ok_0.addresses[i].tree_index
            == decoded->Ok_0.addresses[i].queue_index && decoded->Ok_0.addresses[i].queue_index
            >= accounts.len()))
}

/// The account hashes of the nullifiers.
pub open spec fn nullifier_account_hashes(nullifiers: Seq<InsertNullifier>) -> Seq<[u8; 32]> {
    nullifiers.map_values(|n: InsertNullifier| n.account_hash)
}

/// The hashes of the leaves.
pub open spec fn leaf_hashes(leaves: Seq<AppendLeaf>) -> Seq<[u8; 32]> {
    leaves.map_values(|l: AppendLeaf| l.leaf)
}

/// What an `insert_into_queues` instruction writes into the event: the
/// account hashes of its nullifiers, the hashes of its leaves, its output
/// sequence numbers and leaf indices, and the tree indices of the leaves'
/// accounts; the rest of the event stays.
pub open spec fn event_after_queue_insertion(
    ev: PublicTransactionEventView,
    d: InsertIntoQueuesInstructionDataView,
) -> PublicTransactionEventView {
    PublicTransactionEventView {
        input_compressed_account_hashes: nullifier_account_hashes(d.nullifiers),
        output_compressed_account_hashes: leaf_hashes(d.leaves),
        sequence_numbers: d.output_sequence_numbers,
        output_leaf_indices: d.output_leaf_indices,
        output_compressed_accounts: with_leaf_tree_indices(ev.output_compressed_accounts, d.leaves),
        ..ev
    }
}

/// Appends to `dst` the sequence numbers of `src` that belong to a tree.
fn append_assigned_sequence_numbers(
    dst: &mut Vec<MerkleTreeSequenceNumber>,
    src: &Vec<MerkleTreeSequenceNumber>,
)
    ensures
        final(dst)@ == old(dst)@ + assigned_sequence_numbers(src@),
{
    let ghost start = dst@;
    let mut i: usize = 0;
    assert(src@.take(0) =~= Seq::<MerkleTreeSequenceNumber>::empty());
    assert(start + assigned_sequence_numbers(src@.take(0)) =~= start) by {
        reveal_with_fuel(Seq::filter, 1);
    }
    while i < src.len()
        invariant
            0 <= i <= src.len(),
            dst@ == start + assigned_sequence_numbers(src@.take(i as int)),
        decreases src.len() - i,
    {
        let x = src[i];
        assert(src@.take(i + 1).drop_last() =~= src@.take(i as int));
        reveal_with_fuel(Seq::filter, 1);
        if !x.pubkey.is_default() {
            dst.push(x);
        }
        assert(dst@ =~= start + assigned_sequence_numbers(src@.take(i + 1)));
        i = i + 1;
    }
    assert(src@.take(src.len() as int) =~= src@);
}

/// Adds what an account compression program instruction contributes to
/// `event` and to the lists that batched trees need.
///
/// `decoded` is what decoding the instruction's data (the bytes after its
/// twelve-byte header) as `insert_into_queues` data gave; `accounts` are the
/// instruction's accounts after the first two.
pub fn match_account_compression_program_instruction(
    instruction: &[u8],
    decoded: &Result<InsertIntoQueuesInstructionData, ZeroCopyError>,
    event: &mut PublicTransactionEvent,
    new_addresses: &mut Vec<NewAddress>,
    input_sequence_numbers: &mut Vec<MerkleTreeSequenceNumber>,
    address_sequence_numbers: &mut Vec<MerkleTreeSequenceNumber>,
    accounts: &[Pubkey],
) -> (r: Result<bool, ZeroCopyError>)
    requires
        !queue_instruction_out_of_bounds(instruction@, queue_decoding_view(*decoded), accounts@),
    ensures
        !is_insert_into_queues(instruction@) ==> {
            &&& r == Ok::<bool, ZeroCopyError>(false)
            &&& final(event)@ == old(event)@
            &&& final(new_addresses)@ == old(new_addresses)@
            &&& final(input_sequence_numbers)@ == old(input_sequence_numbers)@
            &&& final(address_sequence_numbers)@ == old(address_sequence_numbers)@
        },
        is_insert_into_queues(instruction@) ==> match *decoded {
            Err(e) => {
                &&& r == Err::<bool, ZeroCopyError>(e)
                &&& final(event)@ == old(event)@
                &&& final(new_addresses)@ == old(new_addresses)@
                &&& final(input_sequence_numbers)@ == old(input_sequence_numbers)@
                &&& final(address_sequence_numbers)@ == old(address_sequence_numbers)@
            },
            Ok(d) => {
                &&& r == Ok::<bool, ZeroCopyError>(true)
                &&& final(event)@ == event_after_queue_insertion(old(event)@, d@)
                &&& final(new_addresses)@ == old(new_addresses)@ + new_addresses_of(
                    d.addresses@,
                    accounts@,
                )
                &&& final(input_sequence_numbers)@ == old(input_sequence_numbers)@
                    + assigned_sequence_numbers(d.input_sequence_numbers@)
                &&& final(address_sequence_numbers)@ == old(address_sequence_numbers)@
                    + assigned_sequence_numbers(d.address_sequence_numbers@)
            },
        },
{
    if instruction.len() < 8 {
        return Ok(false);
    }
    if !starts_with_discriminator(instruction, &DISCRIMINATOR_INSERT_INTO_QUEUES) {
        return Ok(false);
    }
    let data = match decoded {
        Err(e) => {
            return Err(*e);
        },
        Ok(data) => data,
    };
    let ghost old_event = event@;

    let ghost outputs_before = outputs_view(event.output_compressed_accounts@);
    let mut i: usize = 0;
    while i < event.output_compressed_accounts.len() && i < data.leaves.len()
        invariant
            0 <= i <= event.output_compressed_accounts.len(),
            i <= data.leaves.len(),
            event@.pubkey_array == old_event.pubkey_array,
            event@.message == old_event.message,
            event@.relay_fee == old_event.relay_fee,
            event@.is_compress == old_event.is_compress,
            event@.compress_or_decompress_lamports == old_event.compress_or_decompress_lamports,
            outputs_before.len() == event.output_compressed_accounts.len(),
            outputs_view(event.output_compressed_accounts@) == with_leaf_tree_indices(
                outputs_before,
                data.leaves@.take(i as int),
            ),
        decreases data.leaves.len() - i,
    {
        let ghost before = event.output_compressed_accounts@;
        event.output_compressed_accounts[i].merkle_tree_index = data.leaves[i].account_index;
        assert forall|j: int| 0 <= j < outputs_before.len() implies #[trigger] outputs_view(
            event.output_compressed_accounts@,
        )[j] == with_leaf_tree_indices(outputs_before, data.leaves@.take(i + 1))[j] by {
            assert(outputs_view(before)[j] == before[j]@);
            if j != i {
                assert(event.output_compressed_accounts@[j] == before[j]);
            }
        }
        assert(outputs_view(event.output_compressed_accounts@) =~= with_leaf_tree_indices(
            outputs_before,
            data.leaves@.take(i + 1),
        ));
        i = i + 1;
    }
    assert(with_leaf_tree_indices(outputs_before, data.leaves@.take(i as int))
        =~= with_leaf_tree_indices(outputs_before, data.leaves@));
    assert(outputs_view(event.output_compressed_accounts@) =~= with_leaf_tree_indices(
        old_event.output_compressed_accounts,
        data.leaves@,
    ));

    let mut input_hashes: Vec<[u8; 32]> = Vec::new();
    let mut i: usize = 0;
    while i < data.nullifiers.len()
        invariant
            0 <= i <= data.nullifiers.len(),
            input_hashes@ == nullifier_account_hashes(data.nullifiers@.take(i as int)),
        decreases data.nullifiers.len() - i,
    {
        input_hashes.push(data.nullifiers[i].account_hash);
        assert(data.nullifiers@.take(i + 1) =~= data.nullifiers@.take(i as int).push(
            data.nullifiers@[i as int],
        ));
        assert(input_hashes@ =~= nullifier_account_hashes(data.nullifiers@.take(i + 1)));
        i = i + 1;
    }
    assert(data.nullifiers@.take(data.nullifiers.len() as int) =~= data.nullifiers@);
    event.input_compressed_account_hashes = input_hashes;

    let mut output_hashes: Vec<[u8; 32]> = Vec::new();
    let mut i: usize = 0;
    while i < data.leaves.len()
        invariant
            0 <= i <= data.leaves.len(),
            output_hashes@ == leaf_hashes(data.leaves@.take(i as int)),
        decreases data.leaves.len() - i,
    {
        output_hashes.push(data.leaves[i].leaf);
        assert(data.leaves@.take(i + 1) =~= data.leaves@.take(i as int).push(data.leaves@[i as int]));
        assert(output_hashes@ =~= leaf_hashes(data.leaves@.take(i + 1)));
        i = i + 1;
    }
    assert(data.leaves@.take(data.leaves.len() as int) =~= data.leaves@);
    event.output_compressed_account_hashes = output_hashes;

    event.sequence_numbers = data.output_sequence_numbers.clone();
    assert(event.sequence_numbers@ =~= data.output_sequence_numbers@);
    event.output_leaf_indices = data.output_leaf_indices.clone();
    assert(event.output_leaf_indices@ =~= data.output_leaf_indices@);

    let ghost start = new_addresses@;
    let mut i: usize = 0;
    assert(start + new_addresses_of(data.addresses@.take(0), accounts@) =~= start) by {
        assert(data.addresses@.take(0) =~= Seq::<InsertAddress>::empty());
        reveal_with_fuel(Seq::filter, 1);
    }
    while i < data.addresses.len()
        invariant
            0 <= i <= data.addresses.len(),
            !queue_instruction_out_of_bounds(instruction@, queue_decoding_view(*decoded), accounts@),
            is_insert_into_queues(instruction@),
            *decoded == Ok::<InsertIntoQueuesInstructionData, ZeroCopyError>(*data),
            new_addresses@ == start + new_addresses_of(data.addresses@.take(i as int), accounts@),
        decreases data.addresses.len() - i,
    {
        let a = data.addresses[i];
        assert(data.addresses@.take(i + 1).drop_last() =~= data.addresses@.take(i as int));
        reveal_with_fuel(Seq::filter, 1);
        if a.tree_index == a.queue_index {
            assert(queue_decoding_view(*decoded)->Ok_0.addresses[i as int].tree_index
                == queue_decoding_view(*decoded)->Ok_0.addresses[i as int].queue_index);
            let account = accounts[a.queue_index as usize];
            new_addresses.push(NewAddress { address: a.address, mt_pubkey: account });
        }
        assert(new_addresses@ =~= start + new_addresses_of(data.addresses@.take(i + 1), accounts@));
        i = i + 1;
    }
    assert(data.addresses@.take(data.addresses.len() as int) =~= data.addresses@);

    append_assigned_sequence_numbers(input_sequence_numbers, &data.input_sequence_numbers);
    append_assigned_sequence_numbers(address_sequence_numbers, &data.address_sequence_numbers);
    let ghost expected = event_after_queue_insertion(old_event, data@);
    assert(event@.input_compressed_account_hashes == expected.input_compressed_account_hashes);
    assert(event@.output_compressed_account_hashes == expected.output_compressed_account_hashes);
    assert(event@.output_compressed_accounts == expected.output_compressed_accounts);
    assert(event@.output_leaf_indices == expected.output_leaf_indices);
    assert(event@.sequence_numbers == expected.sequence_numbers);
    assert(event@.pubkey_array == expected.pubkey_array);
    assert(event@.message == expected.message);
    assert(event@ == expected);
    Ok(true)
}

pub struct BatchPublicTransactionEventView {
    pub event: PublicTransactionEventView,
    pub new_addresses: Seq<NewAddress>,
    pub input_sequence_numbers: Seq<MerkleTreeSequenceNumber>,
    pub address_sequence_numbers: Seq<MerkleTreeSequenceNumber>,
}

impl View for BatchPublicTransactionEvent {
    type V = BatchPublicTransactionEventView;

    open spec fn view(&self) -> BatchPublicTransactionEventView {
        BatchPublicTransactionEventView {
            event: self.event@,
            new_addresses: self.new_addresses@,
            input_sequence_numbers: self.input_sequence_numbers@,
            address_sequence_numbers: self.address_sequence_numbers@,
        }
    }
}

/// The bytes of each instruction.
pub open spec fn instruction_bytes(instructions: Seq<Vec<u8>>) -> Seq<Seq<u8>> {
    instructions.map_values(|v: Vec<u8>| v@)
}

/// The accounts of each instruction.
pub open spec fn account_lists(accounts: Seq<Vec<Pubkey>>) -> Seq<Seq<Pubkey>> {
    accounts.map_values(|v: Vec<Pubkey>| v@)
}

/// The views of the decoded light system program data of each instruction.
pub open spec fn system_decodings(d: Seq<Result<SystemInstructionData, ZeroCopyError>>) -> Seq<
    Result<SystemInstructionDataView, ZeroCopyError>,
> {
    d.map_values(|x: Result<SystemInstructionData, ZeroCopyError>| system_decoding_view(x))
}

/// The views of the decoded `insert_into_queues` data of each instruction.
pub open spec fn queue_decodings(d: Seq<Result<InsertIntoQueuesInstructionData, ZeroCopyError>>) -> Seq<
    Result<InsertIntoQueuesInstructionDataView, ZeroCopyError>,
> {
    d.map_values(|x: Result<InsertIntoQueuesInstructionData, ZeroCopyError>| queue_decoding_view(x))
}

/// Running the light system program steps (with `set_cpi_context` off) from
/// instruction `i` on, up to the first that yields `true`: whether one did,
/// and the event and flag after it.
pub open spec fn first_system_match(
    ixs: Seq<Seq<u8>>,
    sys: Seq<Result<SystemInstructionDataView, ZeroCopyError>>,
    i: int,
    ev: PublicTransactionEventView,
    flag: bool,
) -> (bool, PublicTransactionEventView, bool)
    decreases ixs.len() - i,
{
    if i < 0 || i >= ixs.len() {
        (false, ev, flag)
    } else {
        let (r, ev2, flag2) = system_instruction_effect(ixs[i], sys[i], false, ev, flag);
        if r == Ok::<bool, ZeroCopyError>(true) {
            (true, ev2, flag2)
        } else {
            first_system_match(ixs, sys, i + 1, ev2, flag2)
        }
    }
}

/// Whether a decoding error is met in those steps before one yields `true`.
pub open spec fn first_system_match_fails(
    ixs: Seq<Seq<u8>>,
    sys: Seq<Result<SystemInstructionDataView, ZeroCopyError>>,
    i: int,
    ev: PublicTransactionEventView,
    flag: bool,
) -> bool
    decreases ixs.len() - i,
{
    if i < 0 || i >= ixs.len() {
        false
    } else {
        let (r, ev2, flag2) = system_instruction_effect(ixs[i], sys[i], false, ev, flag);
        match r {
            Err(_) => true,
            Ok(true) => false,
            Ok(false) => first_system_match_fails(ixs, sys, i + 1, ev2, flag2),
        }
    }
}

/// The event after running the light system program step, with
/// `set_cpi_context` on, on every instruction from `i` on.
pub open spec fn gather_cpi_context(
    ixs: Seq<Seq<u8>>,
    sys: Seq<Result<SystemInstructionDataView, ZeroCopyError>>,
    i: int,
    ev: PublicTransactionEventView,
) -> PublicTransactionEventView
    decreases ixs.len() - i,
{
    if i < 0 || i >= ixs.len() {
        ev
    } else {
        gather_cpi_context(ixs, sys, i + 1, system_instruction_effect(ixs[i], sys[i], true, ev, true).1)
    }
}

/// Whether one of those steps meets a decoding error.
pub open spec fn gather_cpi_context_fails(
    ixs: Seq<Seq<u8>>,
    sys: Seq<Result<SystemInstructionDataView, ZeroCopyError>>,
    i: int,
    ev: PublicTransactionEventView,
) -> bool
    decreases ixs.len() - i,
{
    if i < 0 || i >= ixs.len() {
        false
    } else {
        let (r, ev2, _) = system_instruction_effect(ixs[i], sys[i], true, ev, true);
        r is Err || gather_cpi_context_fails(ixs, sys, i + 1, ev2)
    }
}

/// The first instruction from `i` on that is an `insert_into_queues`
/// instruction with at least three accounts.
pub open spec fn queue_instruction_position(ixs: Seq<Seq<u8>>, accts: Seq<Seq<Pubkey>>, i: int) -> Option<
    int,
>
    decreases ixs.len() - i,
{
    if i < 0 || i >= ixs.len() {
        None
    } else if accts[i].len() >= 3 && is_insert_into_queues(ixs[i]) {
        Some(i)
    } else {
        queue_instruction_position(ixs, accts, i + 1)
    }
}

/// Whether the search for that instruction reaches an instruction without an
/// account list, or finds one whose data did not decode or whose handling
/// would index out of bounds.
pub open spec fn queue_search_fails(
    ixs: Seq<Seq<u8>>,
    queue: Seq<Result<InsertIntoQueuesInstructionDataView, ZeroCopyError>>,
    accts: Seq<Seq<Pubkey>>,
    i: int,
) -> bool
    decreases ixs.len() - i,
{
    if i < 0 || i >= ixs.len() {
        false
    } else if i >= accts.len() {
        true
    } else if accts[i].len() >= 3 && is_insert_into_queues(ixs[i]) {
        queue[i] is Err || queue_instruction_out_of_bounds(ixs[i], queue[i], accts[i].skip(2))
    } else {
        queue_search_fails(ixs, queue, accts, i + 1)
    }
}

/// The event of a transaction, if it has one.
///
/// The first light system program instruction that yields `true` starts the
/// event; if one of the instructions met on the way set the CPI context, every
/// instruction's CPI context contribution is added. The first
/// `insert_into_queues` instruction with at least three accounts completes the
/// event; its accounts after the first two become the event's account list.
/// Without either instruction there is no event.
pub open spec fn light_transaction_event(
    ixs: Seq<Seq<u8>>,
    sys: Seq<Result<SystemInstructionDataView, ZeroCopyError>>,
    queue: Seq<Result<InsertIntoQueuesInstructionDataView, ZeroCopyError>>,
    accts: Seq<Seq<Pubkey>>,
) -> Option<BatchPublicTransactionEventView> {
    let (found, ev1, flag) = first_system_match(ixs, sys, 0, empty_event(), false);
    if !found {
        None
    } else {
        let ev2 = if flag {
            gather_cpi_context(ixs, sys, 0, ev1)
        } else {
            ev1
        };
        match queue_instruction_position(ixs, accts, 0) {
            None => None,
            Some(pos) => {
                let d = queue[pos]->Ok_0;
                let accounts = accts[pos].skip(2);
                Some(
                    BatchPublicTransactionEventView {
                        event: PublicTransactionEventView {
                            pubkey_array: accounts,
                            ..event_after_queue_insertion(ev2, d)
                        },
                        new_addresses: new_addresses_of(d.addresses, accounts),
                        input_sequence_numbers: assigned_sequence_numbers(d.input_sequence_numbers),
                        address_sequence_numbers: assigned_sequence_numbers(
                            d.address_sequence_numbers,
                        ),
                    },
                )
            },
        }
    }
}

/// Whether assembling the event meets a decoding error, an instruction
/// without an account list, or an index out of bounds.
pub open spec fn light_transaction_event_fails(
    ixs: Seq<Seq<u8>>,
    sys: Seq<Result<SystemInstructionDataView, ZeroCopyError>>,
    queue: Seq<Result<InsertIntoQueuesInstructionDataView, ZeroCopyError>>,
    accts: Seq<Seq<Pubkey>>,
) -> bool {
    let (found, ev1, flag) = first_system_match(ixs, sys, 0, empty_event(), false);
    ||| first_system_match_fails(ixs, sys, 0, empty_event(), false)
    ||| found && flag && gather_cpi_context_fails(ixs, sys, 0, ev1)
    ||| found && queue_search_fails(ixs, queue, accts, 0)
}

/// Whether handling `ix` stays within its data and within `accounts`.
fn queue_instruction_in_bounds(
    ix: &[u8],
    decoded: &Result<InsertIntoQueuesInstructionData, ZeroCopyError>,
    accounts: &[Pubkey],
) -> (r: bool)
    ensures
        r == !queue_instruction_out_of_bounds(ix@, queue_decoding_view(*decoded), accounts@),
{
    if ix.len() < 8 {
        return true;
    }
    if !starts_with_discriminator(ix, &DISCRIMINATOR_INSERT_INTO_QUEUES) {
        return true;
    }
    if ix.len() < 12 {
        return false;
    }
    let data = match decoded {
        Err(_) => {
            return true;
        },
        Ok(data) => data,
    };
    let ghost d = queue_decoding_view(*decoded)->Ok_0;
    assert(d == data@);
    let mut i: usize = 0;
    while i < data.addresses.len()
        invariant
            0 <= i <= data.addresses@.len(),
            d == data@,
            queue_decoding_view(*decoded) == Ok::<InsertIntoQueuesInstructionDataView, ZeroCopyError>(
                d,
            ),
            is_insert_into_queues(ix@),
            ix@.len() >= 12,
            forall|j: int|
                0 <= j < i ==> !(#[trigger] d.addresses[j].tree_index == d.addresses[j].queue_index
                    && d.addresses[j].queue_index >= accounts@.len()),
        decreases data.addresses@.len() - i,
    {
        let a = data.addresses[i];
        if a.tree_index == a.queue_index && a.queue_index as usize >= accounts.len() {
            assert(d.addresses[i as int].tree_index == d.addresses[i as int].queue_index);
            assert(queue_decoding_view(*decoded)->Ok_0.addresses[i as int].tree_index
                == queue_decoding_view(*decoded)->Ok_0.addresses[i as int].queue_index);
            assert(queue_decoding_view(*decoded)->Ok_0.addresses[i as int].queue_index
                >= accounts@.len());
            return false;
        }
        i = i + 1;
    }
    true
}

/// Pieces together the event of a transaction from its instructions, as
/// `event_from_light_transaction` does, or gives `None` for the inputs on
/// which that meets a decoding error, an instruction without an account list
/// or an index out of bounds.
pub fn try_event_from_light_transaction(
    instructions: &[Vec<u8>],
    system_instruction_data: &[Result<SystemInstructionData, ZeroCopyError>],
    queue_instruction_data: &[Result<InsertIntoQueuesInstructionData, ZeroCopyError>],
    remaining_accounts: Vec<Vec<Pubkey>>,
) -> (r: Option<Option<BatchPublicTransactionEvent>>)
    requires
        system_instruction_data@.len() == instructions@.len(),
        queue_instruction_data@.len() == instructions@.len(),
    ensures
        r is None <==> light_transaction_event_fails(
            instruction_bytes(instructions@),
            system_decodings(system_instruction_data@),
            queue_decodings(queue_instruction_data@),
            account_lists(remaining_accounts@),
        ),
        r matches Some(e) ==> match e {
            None => light_transaction_event(
                instruction_bytes(instructions@),
                system_decodings(system_instruction_data@),
                queue_decodings(queue_instruction_data@),
                account_lists(remaining_accounts@),
            ) is None,
            Some(b) => light_transaction_event(
                instruction_bytes(instructions@),
                system_decodings(system_instruction_data@),
                queue_decodings(queue_instruction_data@),
                account_lists(remaining_accounts@),
            ) == Some(b@),
        },
{
    let ghost ixs = instruction_bytes(instructions@);
    let ghost sys = system_decodings(system_instruction_data@);
    let ghost queue = queue_decodings(queue_instruction_data@);
    let ghost accts = account_lists(remaining_accounts@);

    let mut event = PublicTransactionEvent::default();
    let mut ix_set_cpi_context = false;
    let mut found_event = false;
    let mut i: usize = 0;
    while i < instructions.len() && !found_event
        invariant
            0 <= i <= instructions@.len(),
            ixs == instruction_bytes(instructions@),
            sys == system_decodings(system_instruction_data@),
            system_instruction_data@.len() == instructions@.len(),
            first_system_match_fails(ixs, sys, 0, empty_event(), false) == (!found_event
                && first_system_match_fails(ixs, sys, i as int, event@, ix_set_cpi_context)),
            first_system_match(ixs, sys, 0, empty_event(), false) == if found_event {
                (true, event@, ix_set_cpi_context)
            } else {
                first_system_match(ixs, sys, i as int, event@, ix_set_cpi_context)
            },
        decreases instructions@.len() - i,
    {
        let r = match_system_program_instruction(
            instructions[i].as_slice(),
            &system_instruction_data[i],
            false,
            &mut event,
            &mut ix_set_cpi_context,
        );
        assert(ixs[i as int] == instructions@[i as int]@);
        assert(sys[i as int] == system_decoding_view(system_instruction_data@[i as int]));
        match r {
            Ok(true) => {
                found_event = true;
            },
            Ok(false) => {},
            Err(_) => {
                return None;
            },
        }
        i = i + 1;
    }
    if !found_event {
        return Some(None);
    }
    let ghost ev1 = event@;

    if ix_set_cpi_context {
        let mut i: usize = 0;
        while i < instructions.len()
            invariant
                0 <= i <= instructions@.len(),
                ixs == instruction_bytes(instructions@),
                sys == system_decodings(system_instruction_data@),
                system_instruction_data@.len() == instructions@.len(),
                first_system_match(ixs, sys, 0, empty_event(), false) == (true, ev1, true),
                !first_system_match_fails(ixs, sys, 0, empty_event(), false),
                gather_cpi_context_fails(ixs, sys, 0, ev1) == gather_cpi_context_fails(
                    ixs,
                    sys,
                    i as int,
                    event@,
                ),
                gather_cpi_context(ixs, sys, 0, ev1) == gather_cpi_context(ixs, sys, i as int, event@),
            decreases instructions@.len() - i,
        {
            let mut set_context = true;
            let r = match_system_program_instruction(
                instructions[i].as_slice(),
                &system_instruction_data[i],
                true,
                &mut event,
                &mut set_context,
            );
            assert(ixs[i as int] == instructions@[i as int]@);
            assert(sys[i as int] == system_decoding_view(system_instruction_data@[i as int]));
            if r.is_err() {
                return None;
            }
            i = i + 1;
        }
    }
    let ghost ev2 = event@;

    let mut new_addresses: Vec<NewAddress> = Vec::new();
    let mut input_sequence_numbers: Vec<MerkleTreeSequenceNumber> = Vec::new();
    let mut address_sequence_numbers: Vec<MerkleTreeSequenceNumber> = Vec::new();
    let mut position: Option<usize> = None;
    let mut i: usize = 0;
    while i < instructions.len() && position.is_none()
        invariant
            0 <= i <= instructions@.len(),
            ixs == instruction_bytes(instructions@),
            sys == system_decodings(system_instruction_data@),
            queue == queue_decodings(queue_instruction_data@),
            accts == account_lists(remaining_accounts@),
            queue_instruction_data@.len() == instructions@.len(),
            first_system_match(ixs, sys, 0, empty_event(), false).0,
            !first_system_match_fails(ixs, sys, 0, empty_event(), false),
            first_system_match(ixs, sys, 0, empty_event(), false).1 == ev1,
            ev2 == if first_system_match(ixs, sys, 0, empty_event(), false).2 {
                gather_cpi_context(ixs, sys, 0, ev1)
            } else {
                ev1
            },
            !(first_system_match(ixs, sys, 0, empty_event(), false).2 && gather_cpi_context_fails(
                ixs,
                sys,
                0,
                ev1,
            )),
            position is None ==> {
                &&& queue_search_fails(ixs, queue, accts, 0) == queue_search_fails(
                    ixs,
                    queue,
                    accts,
                    i as int,
                )
                &&& queue_instruction_position(ixs, accts, 0) == queue_instruction_position(
                    ixs,
                    accts,
                    i as int,
                )
                &&& event@ == ev2
                &&& new_addresses@ == Seq::<NewAddress>::empty()
                &&& input_sequence_numbers@ == Seq::<MerkleTreeSequenceNumber>::empty()
                &&& address_sequence_numbers@ == Seq::<MerkleTreeSequenceNumber>::empty()
            },
            position matches Some(pos) ==> {
                let d = queue[pos as int]->Ok_0;
                let accounts = accts[pos as int].skip(2);
                &&& pos < remaining_accounts@.len()
                &&& remaining_accounts@[pos as int]@.len() >= 3
                &&& queue_instruction_position(ixs, accts, 0) == Some(pos as int)
                &&& !queue_search_fails(ixs, queue, accts, 0)
                &&& queue[pos as int] is Ok
                &&& event@ == event_after_queue_insertion(ev2, d)
                &&& new_addresses@ == new_addresses_of(d.addresses, accounts)
                &&& input_sequence_numbers@ == assigned_sequence_numbers(d.input_sequence_numbers)
                &&& address_sequence_numbers@ == assigned_sequence_numbers(
                    d.address_sequence_numbers,
                )
            },
        decreases instructions@.len() - i,
    {
        if i >= remaining_accounts.len() {
            return None;
        }
        assert(accts[i as int] == remaining_accounts@[i as int]@);
        if remaining_accounts[i].len() >= 3 {
            let accounts = vstd::slice::slice_subrange(
                remaining_accounts[i].as_slice(),
                2,
                remaining_accounts[i].len(),
            );
            assert(accounts@ =~= accts[i as int].skip(2));
            assert(ixs[i as int] == instructions@[i as int]@);
            assert(queue[i as int] == queue_decoding_view(queue_instruction_data@[i as int]));
            if !queue_instruction_in_bounds(
                instructions[i].as_slice(),
                &queue_instruction_data[i],
                accounts,
            ) {
                return None;
            }
            let r = match_account_compression_program_instruction(
                instructions[i].as_slice(),
                &queue_instruction_data[i],
                &mut event,
                &mut new_addresses,
                &mut input_sequence_numbers,
                &mut address_sequence_numbers,
                accounts,
            );
            match r {
                Ok(true) => {
                    position = Some(i);
                    assert(new_addresses@ =~= new_addresses_of(
                        queue[i as int]->Ok_0.addresses,
                        accounts@,
                    ));
                    assert(input_sequence_numbers@ =~= assigned_sequence_numbers(
                        queue[i as int]->Ok_0.input_sequence_numbers,
                    ));
                    assert(address_sequence_numbers@ =~= assigned_sequence_numbers(
                        queue[i as int]->Ok_0.address_sequence_numbers,
                    ));
                },
                Ok(false) => {},
                Err(_) => {
                    return None;
                },
            }
        }
        i = i + 1;
    }
    match position {
        None => Some(None),
        Some(pos) => {
            let accounts = vstd::slice::slice_to_vec(
                vstd::slice::slice_subrange(
                    remaining_accounts[pos].as_slice(),
                    2,
                    remaining_accounts[pos].len(),
                ),
            );
            assert(accounts@ =~= accts[pos as int].skip(2));
            event.pubkey_array = accounts;
            let batch = BatchPublicTransactionEvent {
                event,
                new_addresses,
                input_sequence_numbers,
                address_sequence_numbers,
            };
            Some(Some(batch))
        },
    }
}

/// Pieces together the event of a transaction from its instructions.
///
/// `system_instruction_data[i]` and `queue_instruction_data[i]` are what
/// decoding instruction `i`'s data as light system program data and as
/// `insert_into_queues` data gave; `remaining_accounts[i]` are its accounts.
/// New addresses in batched trees are returned apart from the event, since
/// the event does not tell which addresses are new. Only inputs on which
/// assembling the event meets no decoding error, no instruction without an
/// account list and no index out of bounds may be handed to it.
pub fn event_from_light_transaction(
    instructions: &[Vec<u8>],
    system_instruction_data: &[Result<SystemInstructionData, ZeroCopyError>],
    queue_instruction_data: &[Result<InsertIntoQueuesInstructionData, ZeroCopyError>],
    remaining_accounts: Vec<Vec<Pubkey>>,
) -> (r: Result<Option<BatchPublicTransactionEvent>, ZeroCopyError>)
    requires
        system_instruction_data@.len() == instructions@.len(),
        queue_instruction_data@.len() == instructions@.len(),
        !light_transaction_event_fails(
            instruction_bytes(instructions@),
            system_decodings(system_instruction_data@),
            queue_decodings(queue_instruction_data@),
            account_lists(remaining_accounts@),
        ),
    ensures
        r matches Ok(e) && match e {
            None => light_transaction_event(
                instruction_bytes(instructions@),
                system_decodings(system_instruction_data@),
                queue_decodings(queue_instruction_data@),
                account_lists(remaining_accounts@),
            ) is None,
            Some(b) => light_transaction_event(
                instruction_bytes(instructions@),
                system_decodings(system_instruction_data@),
                queue_decodings(queue_instruction_data@),
                account_lists(remaining_accounts@),
            ) == Some(b@),
        },
{
    match try_event_from_light_transaction(
        instructions,
        system_instruction_data,
        queue_instruction_data,
        remaining_accounts,
    ) {
        Some(e) => Ok(e),
        None => {
            assert(false);
            Ok(None)
        },
    }
}

/// The sequence numbers kept for batched trees are exactly those of the given
/// ones that name a tree: each kept one has an address that is not all zeros
/// and is among the given ones, and each given one that names a tree is kept.
pub proof fn lemma_assigned_sequence_numbers_name_trees(s: Seq<MerkleTreeSequenceNumber>)
    ensures
        forall|i: int|
            0 <= i < assigned_sequence_numbers(s).len() ==> {
                &&& (#[trigger] assigned_sequence_numbers(s)[i]).pubkey.0@
                    != crate::pubkey::zero_bytes()
                &&& s.contains(assigned_sequence_numbers(s)[i])
            },
        forall|i: int|
            0 <= i < s.len() && (#[trigger] s[i]).pubkey.0@ != crate::pubkey::zero_bytes()
                ==> assigned_sequence_numbers(s).contains(s[i]),
{
    broadcast use vstd::seq_lib::group_filter_ensures;

    let pred = |x: MerkleTreeSequenceNumber| x.pubkey.0@ != crate::pubkey::zero_bytes();
    assert forall|i: int| 0 <= i < assigned_sequence_numbers(s).len() implies {
        &&& (#[trigger] assigned_sequence_numbers(s)[i]).pubkey.0@ != crate::pubkey::zero_bytes()
        &&& s.contains(assigned_sequence_numbers(s)[i])
    } by {
        s.lemma_filter_pred(pred, i);
        s.lemma_filter_contains_rev(pred, s.filter(pred)[i]);
        assert(s.filter(pred).contains(s.filter(pred)[i]));
    }
    assert forall|i: int|
        0 <= i < s.len() && (#[trigger] s[i]).pubkey.0@ != crate::pubkey::zero_bytes() implies
        assigned_sequence_numbers(s).contains(s[i]) by {
        s.lemma_filter_contains(pred, i);
    }
}

/// Running the light system program steps over instructions none of which is
/// a light system program instruction finds nothing, changes nothing and
/// meets no error.
pub proof fn lemma_first_system_match_without_system_instructions(
    ixs: Seq<Seq<u8>>,
    sys: Seq<Result<SystemInstructionDataView, ZeroCopyError>>,
    i: int,
    ev: PublicTransactionEventView,
    flag: bool,
)
    requires
        forall|j: int| 0 <= j < ixs.len() ==> system_instruction_kind(#[trigger] ixs[j]) is None,
    ensures
        first_system_match(ixs, sys, i, ev, flag) == (false, ev, flag),
        !first_system_match_fails(ixs, sys, i, ev, flag),
    decreases ixs.len() - i,
{
    if 0 <= i < ixs.len() {
        assert(system_instruction_kind(ixs[i]) is None);
        lemma_first_system_match_without_system_instructions(ixs, sys, i + 1, ev, flag);
    }
}

/// A transaction with no light system program instruction has no event, and
/// assembling it meets no error.
pub proof fn lemma_no_system_instruction_no_event(
    ixs: Seq<Seq<u8>>,
    sys: Seq<Result<SystemInstructionDataView, ZeroCopyError>>,
    queue: Seq<Result<InsertIntoQueuesInstructionDataView, ZeroCopyError>>,
    accts: Seq<Seq<Pubkey>>,
)
    requires
        forall|j: int| 0 <= j < ixs.len() ==> system_instruction_kind(#[trigger] ixs[j]) is None,
    ensures
        light_transaction_event(ixs, sys, queue, accts) is None,
        !light_transaction_event_fails(ixs, sys, queue, accts),
{
    lemma_first_system_match_without_system_instructions(ixs, sys, 0, empty_event(), false);
}

/// The search for an `insert_into_queues` instruction among instructions
/// none of which is one finds nothing.
pub proof fn lemma_queue_position_without_queue_instructions(
    ixs: Seq<Seq<u8>>,
    accts: Seq<Seq<Pubkey>>,
    i: int,
)
    requires
        forall|j: int| 0 <= j < ixs.len() ==> !is_insert_into_queues(#[trigger] ixs[j]),
    ensures
        queue_instruction_position(ixs, accts, i) is None,
    decreases ixs.len() - i,
{
    if 0 <= i < ixs.len() {
        assert(!is_insert_into_queues(ixs[i]));
        lemma_queue_position_without_queue_instructions(ixs, accts, i + 1);
    }
}

/// A transaction with no `insert_into_queues` instruction has no event.
pub proof fn lemma_no_queue_instruction_no_event(
    ixs: Seq<Seq<u8>>,
    sys: Seq<Result<SystemInstructionDataView, ZeroCopyError>>,
    queue: Seq<Result<InsertIntoQueuesInstructionDataView, ZeroCopyError>>,
    accts: Seq<Seq<Pubkey>>,
)
    requires
        forall|j: int| 0 <= j < ixs.len() ==> !is_insert_into_queues(#[trigger] ixs[j]),
    ensures
        light_transaction_event(ixs, sys, queue, accts) is None,
{
    lemma_queue_position_without_queue_instructions(ixs, accts, 0);
}

/// An event's account list is the accounts, after the first two, of the
/// first `insert_into_queues` instruction with at least three accounts, and
/// its new addresses are those of that instruction's addresses whose tree is
/// their own queue.
pub proof fn lemma_event_accounts_come_from_queue_instruction(
    ixs: Seq<Seq<u8>>,
    sys: Seq<Result<SystemInstructionDataView, ZeroCopyError>>,
    queue: Seq<Result<InsertIntoQueuesInstructionDataView, ZeroCopyError>>,
    accts: Seq<Seq<Pubkey>>,
)
    requires
        light_transaction_event(ixs, sys, queue, accts) is Some,
    ensures
        queue_instruction_position(ixs, accts, 0) matches Some(pos) && {
            let b = light_transaction_event(ixs, sys, queue, accts)->0;
            &&& 0 <= pos < ixs.len()
            &&& is_insert_into_queues(ixs[pos])
            &&& accts[pos].len() >= 3
            &&& b.event.pubkey_array == accts[pos].skip(2)
            &&& b.new_addresses == new_addresses_of(queue[pos]->Ok_0.addresses, accts[pos].skip(2))
            &&& forall|j: int|
                0 <= j < pos ==> !(accts[j].len() >= 3 && is_insert_into_queues(#[trigger] ixs[j]))
        },
{
    lemma_queue_position_is_first(ixs, accts, 0);
}

/// The position found by the search is that of an `insert_into_queues`
/// instruction with at least three accounts, and no earlier instruction from
/// `i` on is one.
pub proof fn lemma_queue_position_is_first(ixs: Seq<Seq<u8>>, accts: Seq<Seq<Pubkey>>, i: int)
    requires
        0 <= i,
    ensures
        queue_instruction_position(ixs, accts, i) matches Some(pos) ==> {
            &&& i <= pos < ixs.len()
            &&& accts[pos].len() >= 3 && is_insert_into_queues(ixs[pos])
            &&& forall|j: int|
                i <= j < pos ==> !(accts[j].len() >= 3 && is_insert_into_queues(#[trigger] ixs[j]))
        },
    decreases ixs.len() - i,
{
    if i < ixs.len() && !(accts[i].len() >= 3 && is_insert_into_queues(ixs[i])) {
        lemma_queue_position_is_first(ixs, accts, i + 1);
    }
}

/// A light system program instruction only touches the output accounts, the
/// relay fee, the lamports and the compression direction of the event; the
/// hashes, leaf indices, sequence numbers, account list and message that the
/// queue instruction and the assembly write stay as they were.
pub proof fn lemma_system_step_keeps_queue_fields(
    ix: Seq<u8>,
    decoded: Result<SystemInstructionDataView, ZeroCopyError>,
    set_cpi_context: bool,
    ev: PublicTransactionEventView,
    flag: bool,
)
    ensures
        ({
            let after = system_instruction_effect(ix, decoded, set_cpi_context, ev, flag).1;
            &&& after.input_compressed_account_hashes == ev.input_compressed_account_hashes
            &&& after.output_compressed_account_hashes == ev.output_compressed_account_hashes
            &&& after.output_leaf_indices == ev.output_leaf_indices
            &&& after.sequence_numbers == ev.sequence_numbers
            &&& after.pubkey_array == ev.pubkey_array
            &&& after.message == ev.message
        }),
{
}

/// A light system program instruction without CPI context (and every
/// `invoke`, which has none) replaces the event's output accounts by its own
/// and sets the event's compression direction, relay fee and lamports to its
/// own; it yields `true`, whatever `set_cpi_context` is, and leaves the rest
/// of the event and the CPI context flag as they were.
pub proof fn lemma_step_without_cpi_context_overwrites(
    ix: Seq<u8>,
    d: SystemInstructionDataView,
    set_cpi_context: bool,
    ev: PublicTransactionEventView,
    flag: bool,
)
    requires
        system_instruction_kind(ix) is Some,
        system_instruction_kind(ix) == Some(SystemInstructionKind::Invoke) || d.cpi_context is None,
    ensures
        ({
            let (r, after, flag_after) = system_instruction_effect(
                ix,
                Ok(d),
                set_cpi_context,
                ev,
                flag,
            );
            &&& r == Ok::<bool, ZeroCopyError>(true)
            &&& after.output_compressed_accounts == d.output_compressed_accounts
            &&& after.is_compress == d.is_compress
            &&& after.relay_fee == d.relay_fee
            &&& after.compress_or_decompress_lamports == d.compress_or_decompress_lamports
            &&& after.input_compressed_account_hashes == ev.input_compressed_account_hashes
            &&& after.output_compressed_account_hashes == ev.output_compressed_account_hashes
            &&& after.output_leaf_indices == ev.output_leaf_indices
            &&& after.sequence_numbers == ev.sequence_numbers
            &&& after.pubkey_array == ev.pubkey_array
            &&& after.message == ev.message
            &&& flag_after == flag
        }),
{
}

/// A CPI instruction with CPI context raises the CPI context flag. If it sets
/// the context (first or later) while `set_cpi_context` is off, it yields
/// `false` and leaves the event as it was; otherwise it yields `true` and adds
/// its output accounts after the event's, leaving everything else, the relay
/// fee, lamports and compression direction included, as it was.
pub proof fn lemma_step_with_cpi_context(
    ix: Seq<u8>,
    d: SystemInstructionDataView,
    set_cpi_context: bool,
    ev: PublicTransactionEventView,
    flag: bool,
)
    requires
        system_instruction_kind(ix) == Some(SystemInstructionKind::InvokeCpi)
            || system_instruction_kind(ix) == Some(SystemInstructionKind::InvokeCpiWithReadOnly),
        d.cpi_context is Some,
    ensures
        ({
            let (r, after, flag_after) = system_instruction_effect(
                ix,
                Ok(d),
                set_cpi_context,
                ev,
                flag,
            );
            let c = d.cpi_context->0;
            &&& flag_after
            &&& (c.first_set_context || c.set_context) && !set_cpi_context ==> {
                &&& r == Ok::<bool, ZeroCopyError>(false)
                &&& after == ev
            }
            &&& !((c.first_set_context || c.set_context) && !set_cpi_context) ==> {
                &&& r == Ok::<bool, ZeroCopyError>(true)
                &&& after.output_compressed_accounts.len() == ev.output_compressed_accounts.len()
                    + d.output_compressed_accounts.len()
                &&& after.output_compressed_accounts.take(ev.output_compressed_accounts.len() as int)
                    == ev.output_compressed_accounts
                &&& after.output_compressed_accounts.skip(ev.output_compressed_accounts.len() as int)
                    == d.output_compressed_accounts
                &&& after.is_compress == ev.is_compress
                &&& after.relay_fee == ev.relay_fee
                &&& after.compress_or_decompress_lamports == ev.compress_or_decompress_lamports
                &&& after.input_compressed_account_hashes == ev.input_compressed_account_hashes
                &&& after.output_compressed_account_hashes == ev.output_compressed_account_hashes
                &&& after.output_leaf_indices == ev.output_leaf_indices
                &&& after.sequence_numbers == ev.sequence_numbers
                &&& after.pubkey_array == ev.pubkey_array
                &&& after.message == ev.message
            }
        }),
{
    let (r, after, flag_after) = system_instruction_effect(ix, Ok(d), set_cpi_context, ev, flag);
    let c = d.cpi_context->0;
    if !((c.first_set_context || c.set_context) && !set_cpi_context) {
        assert(after.output_compressed_accounts.take(ev.output_compressed_accounts.len() as int)
            =~= ev.output_compressed_accounts);
        assert(after.output_compressed_accounts.skip(ev.output_compressed_accounts.len() as int)
            =~= d.output_compressed_accounts);
    }
}

/// An instruction that is not a light system program instruction yields
/// `false` and changes nothing; one whose data did not decode yields the
/// decoding error and changes nothing.
pub proof fn lemma_step_without_effect(
    ix: Seq<u8>,
    decoded: Result<SystemInstructionDataView, ZeroCopyError>,
    set_cpi_context: bool,
    ev: PublicTransactionEventView,
    flag: bool,
)
    requires
        system_instruction_kind(ix) is None || decoded is Err,
    ensures
        ({
            let (r, after, flag_after) = system_instruction_effect(
                ix,
                decoded,
                set_cpi_context,
                ev,
                flag,
            );
            &&& system_instruction_kind(ix) is None ==> r == Ok::<bool, ZeroCopyError>(false)
            &&& system_instruction_kind(ix) is Some ==> r == Err::<bool, ZeroCopyError>(
                decoded->Err_0,
            )
            &&& after == ev
            &&& flag_after == flag
        }),
{
}

/// The search for the instruction that starts the event stops at the first
/// step that yields `true`: the event and flag after the search are those
/// after that step, and no error is met, whatever instructions follow.
pub proof fn lemma_first_system_match_stops_at_match(
    ixs: Seq<Seq<u8>>,
    sys: Seq<Result<SystemInstructionDataView, ZeroCopyError>>,
    i: int,
    ev: PublicTransactionEventView,
    flag: bool,
)
    requires
        0 <= i < ixs.len(),
        system_instruction_effect(ixs[i], sys[i], false, ev, flag).0 == Ok::<bool, ZeroCopyError>(
            true,
        ),
    ensures
        ({
            let (_, after, flag_after) = system_instruction_effect(ixs[i], sys[i], false, ev, flag);
            first_system_match(ixs, sys, i, ev, flag) == (true, after, flag_after)
        }),
        !first_system_match_fails(ixs, sys, i, ev, flag),
{
}

/// Instructions after the one that starts the event do not matter: when the
/// search finds a match among `ixs`, appending further instructions (with
/// their decodings) changes neither what it finds nor whether it fails.
pub proof fn lemma_first_system_match_ignores_later_instructions(
    ixs: Seq<Seq<u8>>,
    sys: Seq<Result<SystemInstructionDataView, ZeroCopyError>>,
    more_ixs: Seq<Seq<u8>>,
    more_sys: Seq<Result<SystemInstructionDataView, ZeroCopyError>>,
    i: int,
    ev: PublicTransactionEventView,
    flag: bool,
)
    requires
        ixs.len() == sys.len(),
        more_ixs.len() == more_sys.len(),
        0 <= i,
        first_system_match(ixs, sys, i, ev, flag).0,
    ensures
        first_system_match(ixs + more_ixs, sys + more_sys, i, ev, flag) == first_system_match(
            ixs,
            sys,
            i,
            ev,
            flag,
        ),
        first_system_match_fails(ixs + more_ixs, sys + more_sys, i, ev, flag)
            == first_system_match_fails(ixs, sys, i, ev, flag),
    decreases ixs.len() - i,
{
    if i < ixs.len() {
        assert((ixs + more_ixs)[i] == ixs[i]);
        assert((sys + more_sys)[i] == sys[i]);
        let (r, ev2, flag2) = system_instruction_effect(ixs[i], sys[i], false, ev, flag);
        if r != Ok::<bool, ZeroCopyError>(true) {
            lemma_first_system_match_ignores_later_instructions(
                ixs,
                sys,
                more_ixs,
                more_sys,
                i + 1,
                ev2,
                flag2,
            );
        }
    }
}

/// The new addresses of a queue instruction, address by address: none for no
/// addresses; adding an address whose tree is its own queue adds, at the end,
/// that address with the account at its queue index, and adding any other
/// address adds nothing.
pub proof fn lemma_new_addresses_address_by_address(
    addresses: Seq<InsertAddress>,
    a: InsertAddress,
    accounts: Seq<Pubkey>,
)
    ensures
        new_addresses_of(Seq::empty(), accounts) == Seq::<NewAddress>::empty(),
        new_addresses_of(addresses.push(a), accounts) == if a.tree_index == a.queue_index {
            new_addresses_of(addresses, accounts).push(
                NewAddress { address: a.address, mt_pubkey: accounts[a.queue_index as int] },
            )
        } else {
            new_addresses_of(addresses, accounts)
        },
{
    let pred = |x: InsertAddress| x.tree_index == x.queue_index;
    let f = |x: InsertAddress| NewAddress { address: x.address, mt_pubkey: accounts[x.queue_index as int] };
    assert(Seq::<InsertAddress>::empty().filter(pred) =~= Seq::<InsertAddress>::empty()) by {
        reveal_with_fuel(Seq::filter, 1);
    }
    assert(new_addresses_of(Seq::empty(), accounts) =~= Seq::<NewAddress>::empty());
    addresses.lemma_filter_push(a, pred);
    if pred(a) {
        assert(addresses.filter(pred).push(a).map_values(f) =~= addresses.filter(pred).map_values(
            f,
        ).push(f(a)));
    }
}

/// What a decoded `insert_into_queues` instruction writes into the event,
/// position by position: the input hashes are the nullifiers' account hashes,
/// the output hashes are the leaves' hashes, the sequence numbers and leaf
/// indices are the instruction's, each output account that has a leaf at its
/// position takes that leaf's tree index and keeps everything else, the other
/// output accounts stay as they were, and the rest of the event is unchanged.
pub proof fn lemma_queue_insertion_position_by_position(
    ev: PublicTransactionEventView,
    d: InsertIntoQueuesInstructionDataView,
)
    ensures
        ({
            let after = event_after_queue_insertion(ev, d);
            &&& after.input_compressed_account_hashes.len() == d.nullifiers.len()
            &&& forall|i: int|
                0 <= i < d.nullifiers.len() ==> after.input_compressed_account_hashes[i]
                    == (#[trigger] d.nullifiers[i]).account_hash
            &&& after.output_compressed_account_hashes.len() == d.leaves.len()
            &&& forall|i: int|
                0 <= i < d.leaves.len() ==> after.output_compressed_account_hashes[i]
                    == (#[trigger] d.leaves[i]).leaf
            &&& after.sequence_numbers == d.output_sequence_numbers
            &&& after.output_leaf_indices == d.output_leaf_indices
            &&& after.output_compressed_accounts.len() == ev.output_compressed_accounts.len()
            &&& forall|i: int|
                0 <= i < ev.output_compressed_accounts.len() ==> {
                    let o = #[trigger] after.output_compressed_accounts[i];
                    let before = ev.output_compressed_accounts[i];
                    &&& o.compressed_account == before.compressed_account
                    &&& i < d.leaves.len() ==> o.merkle_tree_index == d.leaves[i].account_index
                    &&& i >= d.leaves.len() ==> o == before
                }
            &&& after.relay_fee == ev.relay_fee
            &&& after.is_compress == ev.is_compress
            &&& after.compress_or_decompress_lamports == ev.compress_or_decompress_lamports
            &&& after.pubkey_array == ev.pubkey_array
            &&& after.message == ev.message
        }),
{
}

} // verus!
