use vstd::prelude::*;

use crate::event::DISCRIMINATOR_INVOKE_CPI;
use crate::pubkey::Pubkey;

verus! {

/// Seed of the address through which a program signs its calls to the light
/// system program: `cpi_authority`.
pub const CPI_AUTHORITY_PDA_SEED: [u8; 13] = [
    99, 112, 105, 95, 97, 117, 116, 104, 111, 114, 105, 116, 121,
];

/// Address of the light system program.
pub const PROGRAM_ID_LIGHT_SYSTEM: [u8; 32] = [
    6, 167, 85, 248, 33, 57, 5, 77, 68, 36, 177, 90, 240, 196, 48, 207, 47, 75, 127, 152, 121, 58,
    218, 18, 82, 212, 143, 54, 102, 198, 203, 206,
];

/// Errors of light system program calls.
#[derive(Debug, Clone, PartialEq)]
pub enum LightSdkError {
    /// The instruction data could not be serialized.
    Borsh,
    /// The account that signs for the calling program is not its CPI authority.
    InvalidCpiSignerAccount,
    /// A field that the operation needs is absent.
    MissingField(String),
}

/// An account of an instruction, with its roles.
#[derive(Debug, Clone, Copy, PartialEq)]
pub struct AccountMeta {
    pub pubkey: Pubkey,
    pub is_signer: bool,
    pub is_writable: bool,
}

/// An instruction for a program.
#[derive(Debug, Clone, PartialEq)]
pub struct Instruction {
    pub program_id: Pubkey,
    pub accounts: Vec<AccountMeta>,
    pub data: Vec<u8>,
}

/// A call of the light system program, signed for by the calling program
/// with the seeds `CPI_AUTHORITY_PDA_SEED` and `[bump]`.
#[derive(Debug, Clone, PartialEq)]
pub struct LightSystemProgramCpi {
    pub instruction: Instruction,
    pub bump: u8,
}

/// The accounts of a call of the light system program.
#[derive(Debug, Clone, PartialEq)]
pub struct LightCpiAccounts {
    /// The program that makes the call.
    pub invoking_program: Pubkey,
    /// The addresses of the accounts handed to the call, in order; the
    /// second is the account that signs for the calling program.
    pub account_infos: Vec<Pubkey>,
    /// The accounts of the instruction, with their roles.
    pub account_metas: Vec<AccountMeta>,
}

/// The program derived address that `Pubkey::try_find_program_address` finds
/// for the single seed `seed` and the program `program_id`, with its bump
/// seed, or `None` when no bump seed gives one.
pub uninterp spec fn program_address_search(seed: Seq<u8>, program_id: Seq<u8>) -> Option<
    (Seq<u8>, u8),
>;

/// `solana_program::pubkey::Pubkey::try_find_program_address` on one seed.
/// Trusted: the result is `program_address_search` of the seed and the
/// program id, a function of the two alone.
#[verifier::external_body]
fn try_find_program_address(seed: &[u8], program_id: &Pubkey) -> (r: Option<(Pubkey, u8)>)
    ensures
        match r {
            Some((key, bump)) => program_address_search(seed@, program_id.0@) == Some(
                (key.0@, bump),
            ),
            None => program_address_search(seed@, program_id.0@) is None,
        },
{
    let program_id = solana_program::pubkey::Pubkey::new_from_array(program_id.0);
    match solana_program::pubkey::Pubkey::try_find_program_address(&[seed], &program_id) {
        Some((key, bump)) => Some((Pubkey(key.to_bytes()), bump)),
        None => None,
    }
}

/// The CPI authority of `program_id` and its bump seed, if a bump seed gives one.
pub open spec fn cpi_signer_search(program_id: Pubkey) -> Option<(Seq<u8>, u8)> {
    program_address_search(CPI_AUTHORITY_PDA_SEED@, program_id.0@)
}

/// The address through which `program_id` signs its calls to the light system program.
pub fn find_cpi_signer(program_id: &Pubkey) -> (r: Pubkey)
    requires
        cpi_signer_search(*program_id) is Some,
    ensures
        r.0@ == (cpi_signer_search(*program_id)->0).0,
{
    match try_find_program_address(&CPI_AUTHORITY_PDA_SEED, program_id) {
        Some((key, _)) => key,
        None => {
            assert(false);
            Pubkey([0u8; 32])
        },
    }
}

/// The address through which `program_id` signs its calls to the light
/// system program, or `None` when no bump seed gives one.
pub fn try_find_cpi_signer(program_id: &Pubkey) -> (r: Option<Pubkey>)
    ensures
        match cpi_signer_search(*program_id) {
            Some((key, _)) => r matches Some(k) && k.0@ == key,
            None => r is None,
        },
{
    match try_find_program_address(&CPI_AUTHORITY_PDA_SEED, program_id) {
        Some(_) => Some(find_cpi_signer(program_id)),
        None => None,
    }
}

/// The call of the light system program made by `invoking_program_id`: if the
/// second account is the program's CPI authority, the instruction with the
/// given accounts and data and the authority's bump seed; otherwise
/// `InvalidCpiSignerAccount`.
pub open spec fn light_system_cpi(
    invoking_program_id: Pubkey,
    account_infos: Seq<Pubkey>,
    account_metas: Seq<AccountMeta>,
    data: Seq<u8>,
    r: Result<LightSystemProgramCpi, LightSdkError>,
) -> bool {
    let (authority, bump) = cpi_signer_search(invoking_program_id)->0;
    if account_infos[1].0@ != authority {
        r matches Err(e) && e is InvalidCpiSignerAccount
    } else {
        r matches Ok(cpi) && {
            &&& cpi.instruction.program_id.0@ == PROGRAM_ID_LIGHT_SYSTEM@
            &&& cpi.instruction.accounts@ == account_metas
            &&& cpi.instruction.data@ == data
            &&& cpi.bump == bump
        }
    }
}

/// What a prepared call is, as plain values: the called program, the
/// instruction's accounts and data and the bump seed, or the error.
pub open spec fn cpi_outcome(r: Result<LightSystemProgramCpi, LightSdkError>) -> Result<
    (Seq<u8>, Seq<AccountMeta>, Seq<u8>, u8),
    LightSdkError,
> {
    match r {
        Ok(cpi) => Ok(
            (
                cpi.instruction.program_id.0@,
                cpi.instruction.accounts@,
                cpi.instruction.data@,
                cpi.bump,
            ),
        ),
        Err(e) => Err(e),
    }
}

/// The call of the light system program is fixed by the calling program, the
/// accounts and the data: two results that both meet `light_system_cpi` for the
/// same inputs are the same error, or calls of the same program with the same
/// accounts, data and bump seed.
pub proof fn lemma_light_system_cpi_is_determined(
    invoking_program_id: Pubkey,
    account_infos: Seq<Pubkey>,
    account_metas: Seq<AccountMeta>,
    data: Seq<u8>,
    r1: Result<LightSystemProgramCpi, LightSdkError>,
    r2: Result<LightSystemProgramCpi, LightSdkError>,
)
    requires
        light_system_cpi(invoking_program_id, account_infos, account_metas, data, r1),
        light_system_cpi(invoking_program_id, account_infos, account_metas, data, r2),
    ensures
        cpi_outcome(r1) == cpi_outcome(r2),
{
}

/// Whatever the accounts' roles and the data, a call whose second account is
/// the address `find_cpi_signer` gives for the calling program is accepted,
/// with the bump seed of that address.
pub proof fn lemma_cpi_signer_is_accepted(
    invoking_program_id: Pubkey,
    signer: Pubkey,
    account_infos: Seq<Pubkey>,
    account_metas: Seq<AccountMeta>,
    data: Seq<u8>,
    r: Result<LightSystemProgramCpi, LightSdkError>,
)
    requires
        cpi_signer_search(invoking_program_id) is Some,
        signer.0@ == (cpi_signer_search(invoking_program_id)->0).0,
        account_infos.len() >= 2,
        account_infos[1] == signer,
        light_system_cpi(invoking_program_id, account_infos, account_metas, data, r),
    ensures
        cpi_outcome(r) == Ok::<_, LightSdkError>(
            (
                PROGRAM_ID_LIGHT_SYSTEM@,
                account_metas,
                data,
                (cpi_signer_search(invoking_program_id)->0).1,
            ),
        ),
{
}

/// The CPI authority depends on the program id alone: two addresses that
/// `find_cpi_signer` gives for the same program are the same address.
pub proof fn lemma_cpi_signer_depends_on_program_alone(program_id: Pubkey, a: Pubkey, b: Pubkey)
    requires
        cpi_signer_search(program_id) is Some,
        a.0@ == (cpi_signer_search(program_id)->0).0,
        b.0@ == (cpi_signer_search(program_id)->0).0,
    ensures
        a == b,
{
    assert(a.0 =~= b.0);
}

/// Prepares the call of the light system program with `data`, checking that
/// the second account signs for the calling program.
pub fn invoke_light_system_program(
    invoking_program_id: &Pubkey,
    account_infos: &[Pubkey],
    account_metas: Vec<AccountMeta>,
    data: Vec<u8>,
) -> (r: Result<LightSystemProgramCpi, LightSdkError>)
    requires
        account_infos@.len() >= 2,
        cpi_signer_search(*invoking_program_id) is Some,
    ensures
        light_system_cpi(*invoking_program_id, account_infos@, account_metas@, data@, r),
{
    let ghost metas = account_metas@;
    let ghost bytes = data@;
    let instruction = Instruction {
        program_id: Pubkey(PROGRAM_ID_LIGHT_SYSTEM),
        accounts: account_metas,
        data,
    };
    let (authority, bump) = match try_find_program_address(
        &CPI_AUTHORITY_PDA_SEED,
        invoking_program_id,
    ) {
        Some(found) => found,
        None => {
            assert(false);
            (Pubkey([0u8; 32]), 0)
        },
    };
    if !account_infos[1].equals(&authority) {
        return Err(LightSdkError::InvalidCpiSignerAccount);
    }
    Ok(LightSystemProgramCpi { instruction, bump })
}

/// Prepares the call of the light system program with `data` through the
/// accounts of `light_system_accounts`.
pub fn verify_system_info(light_system_accounts: &LightCpiAccounts, data: Vec<u8>) -> (r: Result<
    LightSystemProgramCpi,
    LightSdkError,
>)
    requires
        light_system_accounts.account_infos@.len() >= 2,
        cpi_signer_search(light_system_accounts.invoking_program) is Some,
    ensures
        light_system_cpi(
            light_system_accounts.invoking_program,
            light_system_accounts.account_infos@,
            light_system_accounts.account_metas@,
            data@,
            r,
        ),
{
    let account_metas = light_system_accounts.account_metas.clone();
    assert(account_metas@ =~= light_system_accounts.account_metas@);
    invoke_light_system_program(
        &light_system_accounts.invoking_program,
        light_system_accounts.account_infos.as_slice(),
        account_metas,
        data,
    )
}

/// The four little-endian bytes of `x`.
pub open spec fn u32_le_bytes(x: u32) -> Seq<u8> {
    seq![
        (x % 256) as u8,
        ((x / 256) % 256) as u8,
        ((x / 65536) % 256) as u8,
        ((x / 16777216) % 256) as u8,
    ]
}

/// The data of an `invoke_cpi` call with serialized inputs `inputs`: the
/// discriminator, the length of the inputs (modulo 2^32) as four
/// little-endian bytes, then the inputs.
pub open spec fn invoke_cpi_data(inputs: Seq<u8>) -> Seq<u8> {
    DISCRIMINATOR_INVOKE_CPI@ + u32_le_bytes(inputs.len() as u32) + inputs
}

/// Frames serialized `invoke_cpi` inputs as the call's instruction data.
pub fn invoke_cpi_instruction_data(inputs: &[u8]) -> (r: Vec<u8>)
    ensures
        r@ == invoke_cpi_data(inputs@),
{
    let len = inputs.len() as u32;
    let mut data: Vec<u8> = Vec::new();
    data.extend_from_slice(&DISCRIMINATOR_INVOKE_CPI);
    data.push((len % 256) as u8);
    data.push(((len / 256) % 256) as u8);
    data.push(((len / 65536) % 256) as u8);
    data.push(((len / 16777216) % 256) as u8);
    let ghost header = data@;
    data.extend_from_slice(inputs);
    assert(header =~= DISCRIMINATOR_INVOKE_CPI@ + u32_le_bytes(inputs@.len() as u32));
    assert(data@ =~= invoke_cpi_data(inputs@));
    data
}

/// Prepares the `invoke_cpi` call of the light system program with the
/// serialized inputs `inputs`.
pub fn verify_borsh(light_system_accounts: &LightCpiAccounts, inputs: &[u8]) -> (r: Result<
    LightSystemProgramCpi,
    LightSdkError,
>)
    requires
        light_system_accounts.account_infos@.len() >= 2,
        cpi_signer_search(light_system_accounts.invoking_program) is Some,
    ensures
        light_system_cpi(
            light_system_accounts.invoking_program,
            light_system_accounts.account_infos@,
            light_system_accounts.account_metas@,
            invoke_cpi_data(inputs@),
            r,
        ),
{
    let data = invoke_cpi_instruction_data(inputs);
    verify_system_info(light_system_accounts, data)
}

/// Prepares the `invoke_cpi` call as `verify_borsh` does, or gives `None`
/// when the calling program has no CPI authority.
pub fn try_verify_borsh(light_system_accounts: &LightCpiAccounts, inputs: &[u8]) -> (r: Option<
    Result<LightSystemProgramCpi, LightSdkError>,
>)
    requires
        light_system_accounts.account_infos@.len() >= 2,
    ensures
        cpi_signer_search(light_system_accounts.invoking_program) is None ==> r is None,
        cpi_signer_search(light_system_accounts.invoking_program) is Some ==> (r matches Some(res)
            && light_system_cpi(
            light_system_accounts.invoking_program,
            light_system_accounts.account_infos@,
            light_system_accounts.account_metas@,
            invoke_cpi_data(inputs@),
            res,
        )),
{
    match try_find_program_address(&CPI_AUTHORITY_PDA_SEED, &light_system_accounts.invoking_program) {
        Some(_) => Some(verify_borsh(light_system_accounts, inputs)),
        None => None,
    }
}

/// Preparing a call through `LightCpiAccounts` is preparing it from the
/// accounts' own program, account list and roles: what `verify_system_info`
/// gives is what `invoke_light_system_program` gives on those parts and the
/// same data.
pub proof fn lemma_verify_system_info_invokes(
    light_system_accounts: LightCpiAccounts,
    data: Seq<u8>,
    through_accounts: Result<LightSystemProgramCpi, LightSdkError>,
    invoked: Result<LightSystemProgramCpi, LightSdkError>,
)
    requires
        light_system_cpi(
            light_system_accounts.invoking_program,
            light_system_accounts.account_infos@,
            light_system_accounts.account_metas@,
            data,
            through_accounts,
        ),
        light_system_cpi(
            light_system_accounts.invoking_program,
            light_system_accounts.account_infos@,
            light_system_accounts.account_metas@,
            data,
            invoked,
        ),
    ensures
        cpi_outcome(through_accounts) == cpi_outcome(invoked),
{
    lemma_light_system_cpi_is_determined(
        light_system_accounts.invoking_program,
        light_system_accounts.account_infos@,
        light_system_accounts.account_metas@,
        data,
        through_accounts,
        invoked,
    );
}

/// Preparing the `invoke_cpi` call from serialized inputs is preparing a call
/// with their framed data: what `verify_borsh` gives on `inputs` is what
/// `verify_system_info` gives on `invoke_cpi_data(inputs)`, which is 12 bytes
/// longer than the inputs.
pub proof fn lemma_verify_borsh_frames_inputs(
    light_system_accounts: LightCpiAccounts,
    inputs: Seq<u8>,
    from_inputs: Result<LightSystemProgramCpi, LightSdkError>,
    from_data: Result<LightSystemProgramCpi, LightSdkError>,
)
    requires
        light_system_cpi(
            light_system_accounts.invoking_program,
            light_system_accounts.account_infos@,
            light_system_accounts.account_metas@,
            invoke_cpi_data(inputs),
            from_inputs,
        ),
        light_system_cpi(
            light_system_accounts.invoking_program,
            light_system_accounts.account_infos@,
            light_system_accounts.account_metas@,
            invoke_cpi_data(inputs),
            from_data,
        ),
    ensures
        cpi_outcome(from_inputs) == cpi_outcome(from_data),
        invoke_cpi_data(inputs).len() == inputs.len() + 12,
{
    lemma_light_system_cpi_is_determined(
        light_system_accounts.invoking_program,
        light_system_accounts.account_infos@,
        light_system_accounts.account_metas@,
        invoke_cpi_data(inputs),
        from_inputs,
        from_data,
    );
    lemma_invoke_cpi_data_layout(inputs);
}

/// The number that four little-endian bytes stand for.
pub open spec fn u32_from_le_bytes(b: Seq<u8>) -> int {
    b[0] + 256 * b[1] + 65536 * b[2] + 16777216 * b[3]
}

/// The data of an `invoke_cpi` call holds its inputs whole: it is the
/// discriminator, then the inputs' length (for inputs shorter than 2^32
/// bytes), then the inputs.
pub proof fn lemma_invoke_cpi_data_layout(inputs: Seq<u8>)
    ensures
        invoke_cpi_data(inputs).len() == inputs.len() + 12,
        invoke_cpi_data(inputs).take(8) == DISCRIMINATOR_INVOKE_CPI@,
        invoke_cpi_data(inputs).skip(12) == inputs,
        inputs.len() <= u32::MAX ==> u32_from_le_bytes(invoke_cpi_data(inputs).subrange(8, 12))
            == inputs.len(),
{
    let d = invoke_cpi_data(inputs);
    assert(d.take(8) =~= DISCRIMINATOR_INVOKE_CPI@);
    assert(d.skip(12) =~= inputs);
    if inputs.len() <= u32::MAX {
        let x = inputs.len() as u32;
        assert(d.subrange(8, 12) =~= u32_le_bytes(x));
        lemma_u32_le_bytes_value(x);
    }
}

/// Four little-endian bytes of a number stand for that number.
pub proof fn lemma_u32_le_bytes_value(x: u32)
    ensures
        u32_from_le_bytes(u32_le_bytes(x)) == x,
{
    let b = u32_le_bytes(x);
    assert(b[0] == x % 256);
    assert(b[1] == (x / 256) % 256);
    assert(b[2] == (x / 65536) % 256);
    assert(b[3] == (x / 16777216) % 256);
    assert((x % 256) + 256 * ((x / 256) % 256) + 65536 * ((x / 65536) % 256) + 16777216 * ((x
        / 16777216) % 256) == x) by (nonlinear_arith)
        requires
            0 <= x < 4294967296,
    ;
}

} // verus!
