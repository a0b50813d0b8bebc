use vstd::prelude::*;

use crate::event::CompressedAccount;
use crate::pubkey::Pubkey;
use crate::verify::LightSdkError;

verus! {

/// Where a compressed account sits: its Merkle tree, the tree's nullifier
/// queue, and its leaf.
#[derive(Debug, Clone, Copy, PartialEq)]
pub struct MerkleContext {
    pub merkle_tree_pubkey: Pubkey,
    pub nullifier_queue_pubkey: Pubkey,
    pub leaf_index: u32,
    pub prove_by_index: bool,
}

/// A Merkle context with its accounts given by their positions in a
/// transaction's account list.
#[derive(Debug, Default, Clone, Copy, PartialEq, Eq, Structural)]
pub struct PackedMerkleContext {
    pub merkle_tree_pubkey_index: u8,
    pub nullifier_queue_pubkey_index: u8,
    pub leaf_index: u32,
    pub prove_by_index: bool,
}

/// A compressed account with the context of its Merkle tree.
#[derive(Debug)]
pub struct CompressedAccountWithMerkleContext {
    pub compressed_account: CompressedAccount,
    pub merkle_context: MerkleContext,
}

/// The account list of a transaction being assembled: each account once,
/// addressed by its position, which fits in a byte.
pub struct CpiAccounts {
    keys: Vec<Pubkey>,
}

impl View for CpiAccounts {
    type V = Seq<Seq<u8>>;

    /// The addresses of the accounts, in order.
    closed spec fn view(&self) -> Seq<Seq<u8>> {
        self.keys@.map_values(|k: Pubkey| k.0@)
    }
}

impl CpiAccounts {
    #[verifier::type_invariant]
    closed spec fn well_formed(&self) -> bool {
        &&& self@.no_duplicates()
        &&& self@.len() <= 256
    }

    /// An empty account list.
    pub fn new() -> (r: CpiAccounts)
        ensures
            r@ == Seq::<Seq<u8>>::empty(),
    {
        let r = CpiAccounts { keys: Vec::new() };
        assert(r@ =~= Seq::<Seq<u8>>::empty());
        r
    }

    /// The number of accounts in the list, which holds each account once
    /// and at most 256 of them.
    pub fn len(&self) -> (r: usize)
        ensures
            r == self@.len(),
            self@.no_duplicates(),
            self@.len() <= 256,
    {
        proof {
            use_type_invariant(self);
        }
        self.keys.len()
    }

    /// The position of `pubkey` in the list, which is first added at the end
    /// when it is not there yet.
    pub fn insert_or_get(&mut self, pubkey: Pubkey) -> (r: u8)
        requires
            can_register(old(self)@, pubkey.0@),
        ensures
            (final(self)@, r as int) == register_key(old(self)@, pubkey.0@),
    {
        proof {
            use_type_invariant(&*self);
        }
        let ghost accts = self@;
        let mut i: usize = 0;
        while i < self.keys.len()
            invariant
                0 <= i <= self.keys@.len(),
                accts == self@,
                self@.len() == self.keys@.len(),
                accts.no_duplicates(),
                accts.len() <= 256,
                forall|j: int| 0 <= j < i ==> accts[j] != pubkey.0@,
            decreases self.keys@.len() - i,
        {
            assert(accts[i as int] == self.keys@[i as int].0@);
            if self.keys[i].equals(&pubkey) {
                assert(accts.contains(pubkey.0@));
                assert(accts[accts.index_of(pubkey.0@)] == pubkey.0@);
                return i as u8;
            }
            i = i + 1;
        }
        assert(!accts.contains(pubkey.0@));
        let index = self.keys.len() as u8;
        let mut keys = Vec::new();
        std::mem::swap(&mut keys, &mut self.keys);
        keys.push(pubkey);
        assert(keys@.map_values(|k: Pubkey| k.0@) =~= accts.push(pubkey.0@));
        self.keys = keys;
        index
    }
}

/// Whether `key` can be registered in the account list `accts`: it is there
/// already, or there is room for one more account.
pub open spec fn can_register(accts: Seq<Seq<u8>>, key: Seq<u8>) -> bool {
    accts.contains(key) || accts.len() < 256
}

/// The account list after registering `key`, and the key's position in it.
pub open spec fn register_key(accts: Seq<Seq<u8>>, key: Seq<u8>) -> (Seq<Seq<u8>>, int) {
    if accts.contains(key) {
        (accts, accts.index_of(key))
    } else {
        (accts.push(key), accts.len() as int)
    }
}

/// The account list after registering a Merkle context's tree and then its queue.
pub open spec fn accounts_after_packing(accts: Seq<Seq<u8>>, mc: MerkleContext) -> Seq<Seq<u8>> {
    register_key(register_key(accts, mc.merkle_tree_pubkey.0@).0, mc.nullifier_queue_pubkey.0@).0
}

/// The packed form of a Merkle context, its accounts registered in `accts`.
pub open spec fn packed_merkle_context(accts: Seq<Seq<u8>>, mc: MerkleContext) -> PackedMerkleContext {
    let (after_tree, tree_index) = register_key(accts, mc.merkle_tree_pubkey.0@);
    let (_, queue_index) = register_key(after_tree, mc.nullifier_queue_pubkey.0@);
    PackedMerkleContext {
        merkle_tree_pubkey_index: tree_index as u8,
        nullifier_queue_pubkey_index: queue_index as u8,
        leaf_index: mc.leaf_index,
        prove_by_index: mc.prove_by_index,
    }
}

/// Whether a Merkle context's accounts can be registered in `accts`.
pub open spec fn can_pack(accts: Seq<Seq<u8>>, mc: MerkleContext) -> bool {
    &&& can_register(accts, mc.merkle_tree_pubkey.0@)
    &&& can_register(register_key(accts, mc.merkle_tree_pubkey.0@).0, mc.nullifier_queue_pubkey.0@)
}

/// Registers the accounts of a Merkle context and gives its packed form.
pub fn pack_merkle_context(merkle_context: &MerkleContext, cpi_accounts: &mut CpiAccounts) -> (r:
    PackedMerkleContext)
    requires
        can_pack(old(cpi_accounts)@, *merkle_context),
    ensures
        final(cpi_accounts)@ == accounts_after_packing(old(cpi_accounts)@, *merkle_context),
        r == packed_merkle_context(old(cpi_accounts)@, *merkle_context),
{
    let merkle_tree_pubkey_index = cpi_accounts.insert_or_get(merkle_context.merkle_tree_pubkey);
    let nullifier_queue_pubkey_index = cpi_accounts.insert_or_get(
        merkle_context.nullifier_queue_pubkey,
    );
    PackedMerkleContext {
        merkle_tree_pubkey_index,
        nullifier_queue_pubkey_index,
        leaf_index: merkle_context.leaf_index,
        prove_by_index: merkle_context.prove_by_index,
    }
}

/// Whether the accounts of an input account (its tree and queue, then the
/// output tree) can be registered in `accts`.
pub open spec fn can_pack_input(accts: Seq<Seq<u8>>, mc: MerkleContext, output_tree: Pubkey) -> bool {
    &&& can_pack(accts, mc)
    &&& can_register(accounts_after_packing(accts, mc), output_tree.0@)
}

/// The account list after registering an input account's accounts.
pub open spec fn accounts_after_input(accts: Seq<Seq<u8>>, mc: MerkleContext, output_tree: Pubkey) -> Seq<
    Seq<u8>,
> {
    register_key(accounts_after_packing(accts, mc), output_tree.0@).0
}

/// The position of the output tree in that list.
pub open spec fn output_tree_index(accts: Seq<Seq<u8>>, mc: MerkleContext, output_tree: Pubkey) -> u8 {
    register_key(accounts_after_packing(accts, mc), output_tree.0@).1 as u8
}

/// The packed Merkle context of an input account: proved by index when no
/// root is given.
pub open spec fn input_merkle_context(
    accts: Seq<Seq<u8>>,
    mc: MerkleContext,
    root_index: Option<u16>,
) -> PackedMerkleContext {
    let p = packed_merkle_context(accts, mc);
    PackedMerkleContext { prove_by_index: p.prove_by_index || root_index is None, ..p }
}

/// What the metadata of an input account tells.
pub trait InputAccountMetaTrait {
    fn get_merkle_context(&self) -> &PackedMerkleContext;

    fn get_lamports(&self) -> Option<u64>;

    fn get_root_index(&self) -> Option<u16>;

    fn get_address(&self) -> Option<[u8; 32]>;

    fn get_output_merkle_tree_index(&self) -> u8;
}

/// Metadata of an input account that has neither lamports nor an address.
#[derive(Default, Debug, Clone, Copy, PartialEq)]
pub struct InputAccountMetaNoLamportsNoAddress {
    pub merkle_context: PackedMerkleContext,
    pub output_merkle_tree_index: u8,
    pub root_index: Option<u16>,
}

impl InputAccountMetaTrait for InputAccountMetaNoLamportsNoAddress {
    fn get_merkle_context(&self) -> (r: &PackedMerkleContext)
        ensures
            *r == self.merkle_context,
    {
        &self.merkle_context
    }

    fn get_lamports(&self) -> (r: Option<u64>)
        ensures
            r is None,
    {
        None
    }

    fn get_root_index(&self) -> (r: Option<u16>)
        ensures
            r == self.root_index,
    {
        self.root_index
    }

    fn get_address(&self) -> (r: Option<[u8; 32]>)
        ensures
            r is None,
    {
        None
    }

    fn get_output_merkle_tree_index(&self) -> (r: u8)
        ensures
            r == self.output_merkle_tree_index,
    {
        self.output_merkle_tree_index
    }
}

impl InputAccountMetaNoLamportsNoAddress {
    /// The metadata of `compressed_account`, its accounts and the output
    /// tree registered in `cpi_accounts`.
    pub fn from_compressed_account(
        compressed_account: &CompressedAccountWithMerkleContext,
        cpi_accounts: &mut CpiAccounts,
        root_index: Option<u16>,
        output_merkle_tree: &Pubkey,
    ) -> (r: Self)
        requires
            can_pack_input(
                old(cpi_accounts)@,
                compressed_account.merkle_context,
                *output_merkle_tree,
            ),
        ensures
            final(cpi_accounts)@ == accounts_after_input(
                old(cpi_accounts)@,
                compressed_account.merkle_context,
                *output_merkle_tree,
            ),
            r.merkle_context == input_merkle_context(
                old(cpi_accounts)@,
                compressed_account.merkle_context,
                root_index,
            ),
            r.root_index == root_index,
            r.output_merkle_tree_index == output_tree_index(
                old(cpi_accounts)@,
                compressed_account.merkle_context,
                *output_merkle_tree,
            ),
    {
        let mut merkle_context = pack_merkle_context(
            &compressed_account.merkle_context,
            cpi_accounts,
        );
        let output_merkle_tree_index = cpi_accounts.insert_or_get(*output_merkle_tree);
        if root_index.is_none() {
            merkle_context.prove_by_index = true;
        }
        InputAccountMetaNoLamportsNoAddress { merkle_context, root_index, output_merkle_tree_index }
    }
}

/// Metadata of an input account that has lamports but no address.
#[derive(Default, Debug, Clone, Copy, PartialEq)]
pub struct InputAccountMetaNoAddress {
    pub merkle_context: PackedMerkleContext,
    pub output_merkle_tree_index: u8,
    pub lamports: u64,
    pub root_index: Option<u16>,
}

impl InputAccountMetaTrait for InputAccountMetaNoAddress {
    fn get_merkle_context(&self) -> (r: &PackedMerkleContext)
        ensures
            *r == self.merkle_context,
    {
        &self.merkle_context
    }

    fn get_lamports(&self) -> (r: Option<u64>)
        ensures
            r == Some(self.lamports),
    {
        Some(self.lamports)
    }

    fn get_root_index(&self) -> (r: Option<u16>)
        ensures
            r == self.root_index,
    {
        self.root_index
    }

    fn get_address(&self) -> (r: Option<[u8; 32]>)
        ensures
            r is None,
    {
        None
    }

    fn get_output_merkle_tree_index(&self) -> (r: u8)
        ensures
            r == self.output_merkle_tree_index,
    {
        self.output_merkle_tree_index
    }
}

impl InputAccountMetaNoAddress {
    /// The metadata of `compressed_account`, its accounts and the output
    /// tree registered in `cpi_accounts`.
    pub fn from_compressed_account(
        compressed_account: &CompressedAccountWithMerkleContext,
        cpi_accounts: &mut CpiAccounts,
        root_index: Option<u16>,
        output_merkle_tree: &Pubkey,
    ) -> (r: Self)
        requires
            can_pack_input(
                old(cpi_accounts)@,
                compressed_account.merkle_context,
                *output_merkle_tree,
            ),
        ensures
            final(cpi_accounts)@ == accounts_after_input(
                old(cpi_accounts)@,
                compressed_account.merkle_context,
                *output_merkle_tree,
            ),
            r.merkle_context == input_merkle_context(
                old(cpi_accounts)@,
                compressed_account.merkle_context,
                root_index,
            ),
            r.root_index == root_index,
            r.output_merkle_tree_index == output_tree_index(
                old(cpi_accounts)@,
                compressed_account.merkle_context,
                *output_merkle_tree,
            ),
            r.lamports == compressed_account.compressed_account.lamports,
    {
        let mut merkle_context = pack_merkle_context(
            &compressed_account.merkle_context,
            cpi_accounts,
        );
        let output_merkle_tree_index = cpi_accounts.insert_or_get(*output_merkle_tree);
        if root_index.is_none() {
            merkle_context.prove_by_index = true;
        }
        InputAccountMetaNoAddress {
            merkle_context,
            root_index,
            output_merkle_tree_index,
            lamports: compressed_account.compressed_account.lamports,
        }
    }
}

/// The error for an account without the address that its metadata needs.
pub open spec fn is_missing_address(e: LightSdkError) -> bool {
    e matches LightSdkError::MissingField(field) && field@ == "address"@
}

/// Metadata of an input account that has an address.
#[derive(Default, Debug, Clone, Copy, PartialEq)]
pub struct InputAccountMeta {
    pub merkle_context: PackedMerkleContext,
    pub address: [u8; 32],
    pub root_index: Option<u16>,
    pub output_merkle_tree_index: u8,
}

impl InputAccountMetaTrait for InputAccountMeta {
    fn get_merkle_context(&self) -> (r: &PackedMerkleContext)
        ensures
            *r == self.merkle_context,
    {
        &self.merkle_context
    }

    fn get_lamports(&self) -> (r: Option<u64>)
        ensures
            r is None,
    {
        None
    }

    fn get_root_index(&self) -> (r: Option<u16>)
        ensures
            r == self.root_index,
    {
        self.root_index
    }

    fn get_address(&self) -> (r: Option<[u8; 32]>)
        ensures
            r == Some(self.address),
    {
        Some(self.address)
    }

    fn get_output_merkle_tree_index(&self) -> (r: u8)
        ensures
            r == self.output_merkle_tree_index,
    {
        self.output_merkle_tree_index
    }
}

impl InputAccountMeta {
    /// The metadata of `compressed_account`, its accounts and the output
    /// tree registered in `cpi_accounts`; the account must have an address.
    pub fn from_compressed_account(
        compressed_account: &CompressedAccountWithMerkleContext,
        cpi_accounts: &mut CpiAccounts,
        root_index: Option<u16>,
        output_merkle_tree: &Pubkey,
    ) -> (r: Result<Self, LightSdkError>)
        requires
            can_pack(old(cpi_accounts)@, compressed_account.merkle_context),
            compressed_account.compressed_account.address is Some ==> can_pack_input(
                old(cpi_accounts)@,
                compressed_account.merkle_context,
                *output_merkle_tree,
            ),
        ensures
            compressed_account.compressed_account.address is None ==> {
                &&& r matches Err(e) && is_missing_address(e)
                &&& final(cpi_accounts)@ == accounts_after_packing(
                    old(cpi_accounts)@,
                    compressed_account.merkle_context,
                )
            },
            compressed_account.compressed_account.address matches Some(address) ==> (r matches Ok(m) && {
                &&& final(cpi_accounts)@ == accounts_after_input(
                    old(cpi_accounts)@,
                    compressed_account.merkle_context,
                    *output_merkle_tree,
                )
                &&& m.merkle_context == input_merkle_context(
                    old(cpi_accounts)@,
                    compressed_account.merkle_context,
                    root_index,
                )
                &&& m.root_index == root_index
                &&& m.output_merkle_tree_index == output_tree_index(
                    old(cpi_accounts)@,
                    compressed_account.merkle_context,
                    *output_merkle_tree,
                )
                &&& m.address == address
            }),
    {
        let mut merkle_context = pack_merkle_context(
            &compressed_account.merkle_context,
            cpi_accounts,
        );
        let address = match compressed_account.compressed_account.address {
            Some(address) => address,
            None => {
                return Err(LightSdkError::MissingField("address".to_owned()));
            },
        };
        let output_merkle_tree_index = cpi_accounts.insert_or_get(*output_merkle_tree);
        if root_index.is_none() {
            merkle_context.prove_by_index = true;
        }
        Ok(InputAccountMeta { merkle_context, address, root_index, output_merkle_tree_index })
    }
}

/// Metadata of an input account that has lamports and an address.
#[derive(Default, Debug, Clone, Copy, PartialEq)]
pub struct InputAccountMetaWithLamports {
    pub merkle_context: PackedMerkleContext,
    pub lamports: u64,
    pub address: [u8; 32],
    pub output_merkle_tree_index: u8,
    pub root_index: Option<u16>,
}

impl InputAccountMetaTrait for InputAccountMetaWithLamports {
    fn get_merkle_context(&self) -> (r: &PackedMerkleContext)
        ensures
            *r == self.merkle_context,
    {
        &self.merkle_context
    }

    fn get_lamports(&self) -> (r: Option<u64>)
        ensures
            r == Some(self.lamports),
    {
        Some(self.lamports)
    }

    fn get_root_index(&self) -> (r: Option<u16>)
        ensures
            r == self.root_index,
    {
        self.root_index
    }

    fn get_address(&self) -> (r: Option<[u8; 32]>)
        ensures
            r == Some(self.address),
    {
        Some(self.address)
    }

    fn get_output_merkle_tree_index(&self) -> (r: u8)
        ensures
            r == self.output_merkle_tree_index,
    {
        self.output_merkle_tree_index
    }
}

impl InputAccountMetaWithLamports {
    /// The metadata of `compressed_account`, its accounts and the output
    /// tree registered in `cpi_accounts`; the account must have an address.
    pub fn from_compressed_account(
        compressed_account: &CompressedAccountWithMerkleContext,
        cpi_accounts: &mut CpiAccounts,
        root_index: Option<u16>,
        output_merkle_tree: &Pubkey,
    ) -> (r: Result<Self, LightSdkError>)
        requires
            can_pack(old(cpi_accounts)@, compressed_account.merkle_context),
            compressed_account.compressed_account.address is Some ==> can_pack_input(
                old(cpi_accounts)@,
                compressed_account.merkle_context,
                *output_merkle_tree,
            ),
        ensures
            compressed_account.compressed_account.address is None ==> {
                &&& r matches Err(e) && is_missing_address(e)
                &&& final(cpi_accounts)@ == accounts_after_packing(
                    old(cpi_accounts)@,
                    compressed_account.merkle_context,
                )
            },
            compressed_account.compressed_account.address matches Some(address) ==> (r matches Ok(m) && {
                &&& final(cpi_accounts)@ == accounts_after_input(
                    old(cpi_accounts)@,
                    compressed_account.merkle_context,
                    *output_merkle_tree,
                )
                &&& m.merkle_context == input_merkle_context(
                    old(cpi_accounts)@,
                    compressed_account.merkle_context,
                    root_index,
                )
                &&& m.root_index == root_index
                &&& m.output_merkle_tree_index == output_tree_index(
                    old(cpi_accounts)@,
                    compressed_account.merkle_context,
                    *output_merkle_tree,
                )
                &&& m.address == address
                &&& m.lamports == compressed_account.compressed_account.lamports
            }),
    {
        let mut merkle_context = pack_merkle_context(
            &compressed_account.merkle_context,
            cpi_accounts,
        );
        let address = match compressed_account.compressed_account.address {
            Some(address) => address,
            None => {
                return Err(LightSdkError::MissingField("address".to_owned()));
            },
        };
        let output_merkle_tree_index = cpi_accounts.insert_or_get(*output_merkle_tree);
        if root_index.is_none() {
            merkle_context.prove_by_index = true;
        }
        Ok(
            InputAccountMetaWithLamports {
                merkle_context,
                lamports: compressed_account.compressed_account.lamports,
                address,
                root_index,
                output_merkle_tree_index,
            },
        )
    }
}

/// Registering an account in a list that holds each account once keeps every
/// earlier position, leaves each account once, puts the account at the
/// position it is given, and registering it again changes nothing and gives
/// the same position.
pub proof fn lemma_register_key_stable(accts: Seq<Seq<u8>>, key: Seq<u8>)
    requires
        accts.no_duplicates(),
    ensures
        ({
            let (after, index) = register_key(accts, key);
            &&& 0 <= index < after.len()
            &&& after[index] == key
            &&& after.take(accts.len() as int) == accts
            &&& after.no_duplicates()
            &&& register_key(after, key) == (after, index)
        }),
{
    let (after, index) = register_key(accts, key);
    if accts.contains(key) {
        assert(after.take(accts.len() as int) =~= accts);
    } else {
        assert(after.take(accts.len() as int) =~= accts);
        assert(after.contains(key)) by {
            assert(after[accts.len() as int] == key);
        }
        let j = after.index_of(key);
        assert(j == accts.len());
    }
}

/// The positions in an input account's packed metadata name its accounts in
/// the account list after registration: the tree, the queue and the output
/// tree each sit at the position recorded for them, the accounts registered
/// before keep their positions, and the list still holds each account once.
pub proof fn lemma_input_indices_name_accounts(
    accts: Seq<Seq<u8>>,
    mc: MerkleContext,
    output_tree: Pubkey,
    root_index: Option<u16>,
)
    requires
        accts.no_duplicates(),
        accts.len() <= 256,
        can_pack_input(accts, mc, output_tree),
    ensures
        ({
            let after = accounts_after_input(accts, mc, output_tree);
            let p = input_merkle_context(accts, mc, root_index);
            &&& after[p.merkle_tree_pubkey_index as int] == mc.merkle_tree_pubkey.0@
            &&& after[p.nullifier_queue_pubkey_index as int] == mc.nullifier_queue_pubkey.0@
            &&& after[output_tree_index(accts, mc, output_tree) as int] == output_tree.0@
            &&& after.take(accts.len() as int) == accts
            &&& after.no_duplicates()
        }),
{
    let (a1, i1) = register_key(accts, mc.merkle_tree_pubkey.0@);
    lemma_register_key_stable(accts, mc.merkle_tree_pubkey.0@);
    let (a2, i2) = register_key(a1, mc.nullifier_queue_pubkey.0@);
    lemma_register_key_stable(a1, mc.nullifier_queue_pubkey.0@);
    let (a3, i3) = register_key(a2, output_tree.0@);
    lemma_register_key_stable(a2, output_tree.0@);
    assert(a1.len() <= 256 && a2.len() <= 256 && a3.len() <= 256);
    assert(a3[i1] == a2[i1]) by {
        assert(a3.take(a2.len() as int)[i1] == a2[i1]);
    }
    assert(a2[i1] == a1[i1]) by {
        assert(a2.take(a1.len() as int)[i1] == a1[i1]);
    }
    assert(a3[i2] == a2[i2]) by {
        assert(a3.take(a2.len() as int)[i2] == a2[i2]);
    }
    assert(a3.take(accts.len() as int) =~= accts) by {
        assert forall|j: int| 0 <= j < accts.len() implies a3[j] == accts[j] by {
            assert(a1.take(accts.len() as int)[j] == accts[j]);
            assert(a2.take(a1.len() as int)[j] == a1[j]);
            assert(a3.take(a2.len() as int)[j] == a2[j]);
        }
    }
}

/// The packed Merkle context of an input account keeps the account's leaf
/// index, and it is proved by index exactly when the account's Merkle context
/// is or no root index is given; packing a Merkle context alone keeps both
/// its leaf index and its flag.
pub proof fn lemma_input_context_proved_by_index_without_root(
    accts: Seq<Seq<u8>>,
    mc: MerkleContext,
    root_index: Option<u16>,
)
    ensures
        input_merkle_context(accts, mc, root_index).prove_by_index == (mc.prove_by_index
            || root_index is None),
        input_merkle_context(accts, mc, root_index).leaf_index == mc.leaf_index,
        packed_merkle_context(accts, mc).prove_by_index == mc.prove_by_index,
        packed_merkle_context(accts, mc).leaf_index == mc.leaf_index,
        root_index is None ==> input_merkle_context(accts, mc, root_index).prove_by_index,
{
}

} // verus!
