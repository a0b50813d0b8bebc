use light_protocol::account_meta::{
    pack_merkle_context, CompressedAccountWithMerkleContext, CpiAccounts, InputAccountMeta,
    InputAccountMetaNoAddress, InputAccountMetaNoLamportsNoAddress, InputAccountMetaTrait,
    InputAccountMetaWithLamports, MerkleContext, PackedMerkleContext,
};
use light_protocol::event::CompressedAccount;
use light_protocol::pubkey::Pubkey;
use light_protocol::verify::LightSdkError;

fn key(b: u8) -> Pubkey {
    Pubkey([b; 32])
}

fn account(address: Option<[u8; 32]>, prove_by_index: bool) -> CompressedAccountWithMerkleContext {
    CompressedAccountWithMerkleContext {
        compressed_account: CompressedAccount { owner: key(1), lamports: 77, address, data: None },
        merkle_context: MerkleContext {
            merkle_tree_pubkey: key(10),
            nullifier_queue_pubkey: key(11),
            leaf_index: 5,
            prove_by_index,
        },
    }
}

#[test]
fn insert_or_get_gives_stable_positions() {
    let mut accounts = CpiAccounts::new();
    assert_eq!(accounts.insert_or_get(key(3)), 0);
    assert_eq!(accounts.insert_or_get(key(4)), 1);
    assert_eq!(accounts.insert_or_get(key(3)), 0);
    assert_eq!(accounts.len(), 2);
    assert_eq!(accounts.insert_or_get(key(5)), 2);
    assert_eq!(accounts.insert_or_get(key(4)), 1);
    assert_eq!(accounts.len(), 3);
}

#[test]
fn packing_registers_tree_then_queue() {
    let mut accounts = CpiAccounts::new();
    accounts.insert_or_get(key(11));
    let packed = pack_merkle_context(&account(None, false).merkle_context, &mut accounts);
    assert_eq!(
        packed,
        PackedMerkleContext {
            merkle_tree_pubkey_index: 1,
            nullifier_queue_pubkey_index: 0,
            leaf_index: 5,
            prove_by_index: false,
        }
    );
    assert_eq!(accounts.len(), 2);
}

#[test]
fn metadata_without_root_index_is_proved_by_index() {
    let mut accounts = CpiAccounts::new();
    let meta = InputAccountMetaNoLamportsNoAddress::from_compressed_account(
        &account(None, false),
        &mut accounts,
        None,
        &key(12),
    );
    assert!(meta.merkle_context.prove_by_index);
    assert_eq!(meta.merkle_context.merkle_tree_pubkey_index, 0);
    assert_eq!(meta.merkle_context.nullifier_queue_pubkey_index, 1);
    assert_eq!(meta.output_merkle_tree_index, 2);
    assert_eq!(meta.get_root_index(), None);
    assert_eq!(meta.get_lamports(), None);
    assert_eq!(meta.get_address(), None);
    assert_eq!(meta.get_output_merkle_tree_index(), 2);
    assert_eq!(*meta.get_merkle_context(), meta.merkle_context);

    let meta = InputAccountMetaNoLamportsNoAddress::from_compressed_account(
        &account(None, false),
        &mut accounts,
        Some(9),
        &key(10),
    );
    assert!(!meta.merkle_context.prove_by_index);
    assert_eq!(meta.root_index, Some(9));
    assert_eq!(meta.output_merkle_tree_index, 0);
    assert_eq!(accounts.len(), 3);
}

#[test]
fn metadata_with_lamports() {
    let mut accounts = CpiAccounts::new();
    let meta = InputAccountMetaNoAddress::from_compressed_account(
        &account(Some([6u8; 32]), true),
        &mut accounts,
        Some(1),
        &key(10),
    );
    assert_eq!(meta.lamports, 77);
    assert_eq!(meta.get_lamports(), Some(77));
    assert_eq!(meta.get_address(), None);
    assert!(meta.merkle_context.prove_by_index);
    assert_eq!(meta.output_merkle_tree_index, 0);
}

#[test]
fn metadata_with_address() {
    let mut accounts = CpiAccounts::new();
    let meta = InputAccountMeta::from_compressed_account(
        &account(Some([6u8; 32]), false),
        &mut accounts,
        Some(3),
        &key(12),
    )
    .unwrap();
    assert_eq!(meta.address, [6u8; 32]);
    assert_eq!(meta.get_address(), Some([6u8; 32]));
    assert_eq!(meta.get_lamports(), None);
    assert_eq!(meta.output_merkle_tree_index, 2);

    let meta = InputAccountMetaWithLamports::from_compressed_account(
        &account(Some([6u8; 32]), false),
        &mut accounts,
        None,
        &key(13),
    )
    .unwrap();
    assert_eq!(meta.get_lamports(), Some(77));
    assert_eq!(meta.get_address(), Some([6u8; 32]));
    assert!(meta.merkle_context.prove_by_index);
    assert_eq!(meta.output_merkle_tree_index, 3);
}

#[test]
fn metadata_without_address_is_refused() {
    let mut accounts = CpiAccounts::new();
    let r = InputAccountMeta::from_compressed_account(&account(None, false), &mut accounts, None, &key(12));
    assert_eq!(r, Err(LightSdkError::MissingField("address".to_string())));
    // The tree and the queue were registered, the output tree was not.
    assert_eq!(accounts.len(), 2);
    let r = InputAccountMetaWithLamports::from_compressed_account(
        &account(None, false),
        &mut accounts,
        None,
        &key(12),
    );
    assert_eq!(r, Err(LightSdkError::MissingField("address".to_string())));
    assert_eq!(accounts.len(), 2);
}
