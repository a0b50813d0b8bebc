use light_protocol::event::DISCRIMINATOR_INVOKE_CPI;
use light_protocol::pubkey::Pubkey;
use light_protocol::verify::{
    find_cpi_signer, invoke_cpi_instruction_data, invoke_light_system_program, try_find_cpi_signer,
    try_verify_borsh, verify_borsh, verify_system_info, AccountMeta, LightCpiAccounts,
    LightSdkError, CPI_AUTHORITY_PDA_SEED, PROGRAM_ID_LIGHT_SYSTEM,
};

fn program_id() -> Pubkey {
    Pubkey([7u8; 32])
}

fn expected_signer(id: &Pubkey) -> (Pubkey, u8) {
    let (key, bump) = solana_program::pubkey::Pubkey::find_program_address(
        &[b"cpi_authority"],
        &solana_program::pubkey::Pubkey::new_from_array(id.0),
    );
    (Pubkey(key.to_bytes()), bump)
}

fn meta(byte: u8) -> AccountMeta {
    AccountMeta { pubkey: Pubkey([byte; 32]), is_signer: false, is_writable: true }
}

#[test]
fn seed_and_program_id() {
    assert_eq!(&CPI_AUTHORITY_PDA_SEED, b"cpi_authority");
    assert_eq!(
        solana_program::pubkey::Pubkey::new_from_array(PROGRAM_ID_LIGHT_SYSTEM).to_string(),
        "SySTEM1eSU2p4BGQfQpimFEWWSC1XDFeun3Nqzz3rT7"
    );
}

#[test]
fn cpi_signer_is_the_program_derived_address() {
    let id = program_id();
    let (expected, _) = expected_signer(&id);
    assert_eq!(find_cpi_signer(&id), expected);
    assert_eq!(try_find_cpi_signer(&id), Some(expected));
    assert_ne!(find_cpi_signer(&id), id);
    let other = Pubkey([9u8; 32]);
    assert_ne!(find_cpi_signer(&other), find_cpi_signer(&id));
}

#[test]
fn instruction_data_frames_the_inputs() {
    let data = invoke_cpi_instruction_data(&[1, 2, 3]);
    let mut expected = DISCRIMINATOR_INVOKE_CPI.to_vec();
    expected.extend_from_slice(&[3, 0, 0, 0, 1, 2, 3]);
    assert_eq!(data, expected);
    let empty = invoke_cpi_instruction_data(&[]);
    assert_eq!(empty.len(), 12);
    assert_eq!(&empty[8..12], &[0, 0, 0, 0]);
    let long = vec![5u8; 300];
    let data = invoke_cpi_instruction_data(&long);
    assert_eq!(&data[8..12], &[44, 1, 0, 0]);
    assert_eq!(&data[12..], &long[..]);
}

#[test]
fn invocation_with_the_cpi_authority() {
    let id = program_id();
    let (authority, bump) = expected_signer(&id);
    let infos = vec![Pubkey([1u8; 32]), authority, Pubkey([3u8; 32])];
    let metas = vec![meta(1), meta(2)];
    let cpi = invoke_light_system_program(&id, &infos, metas.clone(), vec![4, 5]).unwrap();
    assert_eq!(cpi.instruction.program_id, Pubkey(PROGRAM_ID_LIGHT_SYSTEM));
    assert_eq!(cpi.instruction.accounts, metas);
    assert_eq!(cpi.instruction.data, vec![4, 5]);
    assert_eq!(cpi.bump, bump);
}

#[test]
fn invocation_with_another_signer_is_refused() {
    let id = program_id();
    let infos = vec![Pubkey([1u8; 32]), Pubkey([2u8; 32])];
    let r = invoke_light_system_program(&id, &infos, vec![meta(1)], vec![]);
    assert_eq!(r, Err(LightSdkError::InvalidCpiSignerAccount));
}

#[test]
fn verify_borsh_frames_and_checks() {
    let id = program_id();
    let (authority, bump) = expected_signer(&id);
    let accounts = LightCpiAccounts {
        invoking_program: id,
        account_infos: vec![Pubkey([1u8; 32]), authority],
        account_metas: vec![meta(1)],
    };
    let cpi = verify_borsh(&accounts, &[9, 9]).unwrap();
    assert_eq!(cpi.instruction.data, invoke_cpi_instruction_data(&[9, 9]));
    assert_eq!(cpi.instruction.accounts, vec![meta(1)]);
    assert_eq!(cpi.bump, bump);
    let again = try_verify_borsh(&accounts, &[9, 9]).unwrap().unwrap();
    assert_eq!(again, cpi);
    let direct = verify_system_info(&accounts, vec![1]).unwrap();
    assert_eq!(direct.instruction.data, vec![1]);

    let wrong = LightCpiAccounts {
        invoking_program: id,
        account_infos: vec![authority, Pubkey([1u8; 32])],
        account_metas: vec![],
    };
    assert_eq!(verify_borsh(&wrong, &[]), Err(LightSdkError::InvalidCpiSignerAccount));
}

#[test]
fn verify_borsh_is_verify_system_info_on_framed_data() {
    let id = program_id();
    let (authority, _) = expected_signer(&id);
    for infos in [vec![Pubkey([1u8; 32]), authority], vec![authority, Pubkey([1u8; 32])]] {
        let accounts = LightCpiAccounts {
            invoking_program: id,
            account_infos: infos,
            account_metas: vec![meta(1), meta(2)],
        };
        let inputs = [8u8, 6, 4];
        let framed = invoke_cpi_instruction_data(&inputs);
        assert_eq!(framed.len(), inputs.len() + 12);
        assert_eq!(verify_borsh(&accounts, &inputs), verify_system_info(&accounts, framed.clone()));
        assert_eq!(
            verify_system_info(&accounts, framed.clone()),
            invoke_light_system_program(
                &accounts.invoking_program,
                &accounts.account_infos,
                accounts.account_metas.clone(),
                framed,
            )
        );
    }
}

#[test]
fn cpi_signer_depends_on_program_alone_and_is_accepted() {
    let id = program_id();
    let signer = find_cpi_signer(&id);
    assert_eq!(find_cpi_signer(&Pubkey(id.0)), signer);
    let infos = vec![Pubkey([3u8; 32]), signer];
    let r = invoke_light_system_program(&id, &infos, vec![meta(4)], vec![1, 2, 3]).unwrap();
    assert_eq!(r.bump, expected_signer(&id).1);
    assert_eq!(r.instruction.data, vec![1, 2, 3]);
}
