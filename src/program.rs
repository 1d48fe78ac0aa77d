use vstd::prelude::*;
use crate::address::Address;
use crate::error::ErrorCode;
use crate::pda::{
    check_handle, config_seeds, config_tag, handle_bump, program_address_of, record_seeds,
    record_tag, sas_authority_seeds, sas_authority_tag, sas_program_bytes, token_program_bytes,
    token_program_id,
};
use crate::rank::{calculate_rank, count_at_most, is_ascending, is_sorted_ascending, MAX_RANK_THRESHOLDS};
use crate::sas_integration::{
    attestation_payload, close_attestation_accounts, close_attestation_instruction,
    create_attestation_accounts, create_attestation_data, create_attestation_instruction,
    serialize_atomid_attestation_data, CpiInstruction,
};
use crate::state::{
    metadata_fits, metadata_within_limit, AtomConfig, AtomId, AtomIdCreated, AtomIdUpgraded,
    BurnRequest, ConfigInitialized, HostClock, ATTESTATION_VALIDITY_SECS,
};

verus! {

/// Accounts handed to `initialize`.
#[derive(Clone, Copy, Debug)]
pub struct Initialize {
    pub atom_config: Address,
    /// Whether the configuration account already holds a configuration.
    pub atom_config_in_use: bool,
    pub admin: Address,
    pub system_program: Address,
}

/// Accounts handed to `create_atomid`.
#[derive(Clone, Copy, Debug)]
pub struct CreateAtomId {
    pub atom_id: Address,
    /// Whether the record account already holds a record.
    pub atom_id_in_use: bool,
    pub atom_config: Address,
    pub user: Address,
    pub user_token_account: Address,
    pub atom_mint: Address,
    pub sas_attestation: Address,
    pub sas_credential: Address,
    pub sas_schema: Address,
    pub sas_authority: Address,
    pub sas_program: Address,
    pub token_program: Address,
    pub system_program: Address,
}

/// Accounts handed to `upgrade_atomid`.
#[derive(Clone, Copy, Debug)]
pub struct UpgradeAtomId {
    pub atom_id: Address,
    pub atom_config: Address,
    pub user: Address,
    pub user_token_account: Address,
    pub atom_mint: Address,
    pub old_sas_attestation: Address,
    pub new_sas_attestation: Address,
    pub sas_credential: Address,
    pub sas_schema: Address,
    pub sas_authority: Address,
    pub sas_event_authority: Address,
    pub sas_program: Address,
    pub token_program: Address,
    pub system_program: Address,
}

/// Accounts handed to `update_metadata`.
#[derive(Clone, Copy, Debug)]
pub struct UpdateMetadata {
    pub atom_id: Address,
    pub user: Address,
}

/// Accounts handed to `admin_update_config`.
#[derive(Clone, Copy, Debug)]
pub struct AdminUpdateConfig {
    pub atom_config: Address,
    pub admin: Address,
}

/// What a successful `create_atomid` asks the host to do: burn, store the
/// record, issue the attestation, emit the event.
#[derive(Debug)]
pub struct CreateOutcome {
    pub atom_id: AtomId,
    pub burn: BurnRequest,
    pub attestation: CpiInstruction,
    pub sas_authority_bump: u8,
    pub event: AtomIdCreated,
}

/// What a successful `upgrade_atomid` asks the host to do, in order: close the
/// previous attestation, burn, issue the new attestation, emit the event.
#[derive(Debug)]
pub struct UpgradeOutcome {
    pub close: CpiInstruction,
    pub burn: BurnRequest,
    pub attestation: CpiInstruction,
    pub sas_authority_bump: u8,
    pub event: AtomIdUpgraded,
}

/// The bump seed of `handle` when it is the configuration's derived address.
pub open spec fn config_bump(program_id: Address, handle: Address) -> Option<u8> {
    handle_bump(program_address_of(seq![config_tag()], program_id@), handle)
}

/// The bump seed of `handle` when it is the derived address of `owner`'s record.
pub open spec fn record_bump(program_id: Address, owner: Address, handle: Address) -> Option<u8> {
    handle_bump(program_address_of(seq![record_tag(), owner@], program_id@), handle)
}

/// The bump seed of `handle` when it is the derived signing authority.
pub open spec fn sas_authority_bump(program_id: Address, handle: Address) -> Option<u8> {
    handle_bump(program_address_of(seq![sas_authority_tag()], program_id@), handle)
}

/// The view of an optional metadata string.
pub open spec fn metadata_view(m: Option<String>) -> Option<Seq<char>> {
    match m {
        Some(s) => Some(s@),
        None => None,
    }
}

/// Supplied metadata that is too long.
pub open spec fn metadata_too_long(m: Option<Seq<char>>) -> bool {
    match m {
        Some(s) => !metadata_fits(s),
        None => false,
    }
}

/// The error a threshold list is refused with, if any.
pub open spec fn thresholds_error(t: Seq<u64>) -> Option<ErrorCode> {
    if t.len() > MAX_RANK_THRESHOLDS {
        Some(ErrorCode::TooManyRankThresholds)
    } else if !is_ascending(t) {
        Some(ErrorCode::RankThresholdsNotSorted)
    } else {
        None
    }
}

/// The error `initialize` fails with, if any.
pub open spec fn initialize_error(program_id: Address, ctx: Initialize, t: Seq<u64>) -> Option<
    ErrorCode,
> {
    if config_bump(program_id, ctx.atom_config) is None || ctx.atom_config_in_use {
        Some(ErrorCode::Unauthorized)
    } else {
        thresholds_error(t)
    }
}

/// The expiry of an attestation issued at `now` overflows.
pub open spec fn expiry_overflows(now: i64) -> bool {
    now + ATTESTATION_VALIDITY_SECS > i64::MAX
}

/// The registry handles handed in are the configured ones; the error if not.
pub open spec fn registry_error(
    credential: Address,
    schema: Address,
    authority: Address,
    config: AtomConfig,
) -> Option<ErrorCode> {
    if credential@ != config.sas_credential@ {
        Some(ErrorCode::InvalidSasCredential)
    } else if schema@ != config.sas_schema@ {
        Some(ErrorCode::InvalidSasSchema)
    } else if authority@ != config.sas_authority@ {
        Some(ErrorCode::InvalidSasAuthority)
    } else {
        None
    }
}

/// The error `create_atomid` fails with, if any.
pub open spec fn create_error(
    program_id: Address,
    ctx: CreateAtomId,
    config: AtomConfig,
    burn_amount: u64,
    metadata: Option<Seq<char>>,
    clock: HostClock,
) -> Option<ErrorCode> {
    if record_bump(program_id, ctx.user, ctx.atom_id) is None || ctx.atom_id_in_use
        || config_bump(program_id, ctx.atom_config) is None || sas_authority_bump(
        program_id,
        ctx.sas_authority,
    ) is None {
        Some(ErrorCode::Unauthorized)
    } else if ctx.atom_mint@ != config.burn_mint@ {
        Some(ErrorCode::InvalidBurnMint)
    } else if ctx.token_program@ != token_program_bytes() {
        Some(ErrorCode::InvalidTokenProgram)
    } else if burn_amount < config.min_create_burn {
        Some(ErrorCode::InsufficientBurnAmount)
    } else if metadata_too_long(metadata) {
        Some(ErrorCode::MetadataTooLong)
    } else if registry_error(ctx.sas_credential, ctx.sas_schema, ctx.sas_authority, config) is Some {
        registry_error(ctx.sas_credential, ctx.sas_schema, ctx.sas_authority, config)
    } else if expiry_overflows(clock.unix_timestamp) {
        Some(ErrorCode::Overflow)
    } else {
        None
    }
}

/// What a successful `create_atomid` yields.
pub open spec fn created(
    program_id: Address,
    ctx: CreateAtomId,
    config: AtomConfig,
    burn_amount: u64,
    metadata: Option<Seq<char>>,
    clock: HostClock,
    o: CreateOutcome,
) -> bool {
    let rec = o.atom_id;
    &&& rec.owner == ctx.user
    &&& rec.total_burned == burn_amount
    &&& rec.rank as nat == count_at_most(config.rank_thresholds@, burn_amount)
    &&& rec.metadata@ == match metadata {
        Some(m) => m,
        None => Seq::<char>::empty(),
    }
    &&& rec.created_at_slot == clock.slot
    &&& rec.updated_at_slot == clock.slot
    &&& record_bump(program_id, ctx.user, ctx.atom_id) == Some(rec.bump)
    &&& o.burn == (BurnRequest {
        token_program: ctx.token_program,
        mint: ctx.atom_mint,
        from: ctx.user_token_account,
        authority: ctx.user,
        amount: burn_amount,
    })
    &&& o.attestation.program_id@ == sas_program_bytes()
    &&& o.attestation.accounts@ == create_attestation_accounts(
        ctx.user,
        ctx.sas_authority,
        config.sas_credential,
        config.sas_schema,
        ctx.sas_attestation,
        ctx.system_program,
    )
    &&& o.attestation.data@ == create_attestation_data(
        ctx.user,
        attestation_payload(rec.rank, burn_amount, clock.slot),
        (clock.unix_timestamp + ATTESTATION_VALIDITY_SECS) as i64,
    )
    &&& sas_authority_bump(program_id, ctx.sas_authority) == Some(o.sas_authority_bump)
    &&& o.event == (AtomIdCreated { owner: ctx.user, total_burned: burn_amount, rank: rec.rank })
}

/// Checks a threshold list.
pub fn validate_rank_thresholds(t: &Vec<u64>) -> (r: Result<(), ErrorCode>)
    ensures
        r matches Err(e) ==> thresholds_error(t@) == Some(e),
        r is Ok ==> thresholds_error(t@) is None,
{
    if t.len() > MAX_RANK_THRESHOLDS {
        return Err(ErrorCode::TooManyRankThresholds);
    }
    if !is_sorted_ascending(t) {
        return Err(ErrorCode::RankThresholdsNotSorted);
    }
    Ok(())
}

/// Checks the registry handles handed in against the configured ones.
fn check_registry(
    credential: &Address,
    schema: &Address,
    authority: &Address,
    config: &AtomConfig,
) -> (r: Result<(), ErrorCode>)
    ensures
        r matches Err(e) ==> registry_error(*credential, *schema, *authority, *config) == Some(e),
        r is Ok ==> registry_error(*credential, *schema, *authority, *config) is None,
{
    if !credential.same_as(&config.sas_credential) {
        return Err(ErrorCode::InvalidSasCredential);
    }
    if !schema.same_as(&config.sas_schema) {
        return Err(ErrorCode::InvalidSasSchema);
    }
    if !authority.same_as(&config.sas_authority) {
        return Err(ErrorCode::InvalidSasAuthority);
    }
    Ok(())
}

/// The expiry of an attestation issued at `now`, unless it overflows.
fn attestation_expiry(now: i64) -> (r: Option<i64>)
    ensures
        r matches Some(x) ==> !expiry_overflows(now) && x == now + ATTESTATION_VALIDITY_SECS,
        r is None ==> expiry_overflows(now),
{
    if now > i64::MAX - ATTESTATION_VALIDITY_SECS {
        None
    } else {
        Some(now + ATTESTATION_VALIDITY_SECS)
    }
}

/// Creates the configuration singleton.
pub fn initialize(
    program_id: &Address,
    ctx: &Initialize,
    min_create_burn: u64,
    rank_thresholds: Vec<u64>,
    burn_mint: Address,
    sas_credential: Address,
    sas_schema: Address,
    sas_authority: Address,
) -> (r: Result<(AtomConfig, ConfigInitialized), ErrorCode>)
    ensures
        r matches Err(e) ==> initialize_error(*program_id, *ctx, rank_thresholds@) == Some(e),
        r matches Ok((c, ev)) ==> {
            &&& initialize_error(*program_id, *ctx, rank_thresholds@) is None
            &&& c.wf()
            &&& c.admin == ctx.admin
            &&& c.min_create_burn == min_create_burn
            &&& c.rank_thresholds@ == rank_thresholds@
            &&& c.burn_mint == burn_mint
            &&& c.sas_credential == sas_credential
            &&& c.sas_schema == sas_schema
            &&& c.sas_authority == sas_authority
            &&& config_bump(*program_id, ctx.atom_config) == Some(c.bump)
            &&& ev == (ConfigInitialized { admin: ctx.admin, min_create_burn, burn_mint })
        },
{
    let seeds = config_seeds();
    let bump = match check_handle(&seeds, program_id, &ctx.atom_config) {
        Some(b) => b,
        None => return Err(ErrorCode::Unauthorized),
    };
    if ctx.atom_config_in_use {
        return Err(ErrorCode::Unauthorized);
    }
    validate_rank_thresholds(&rank_thresholds)?;
    let config = AtomConfig {
        admin: ctx.admin,
        min_create_burn,
        rank_thresholds,
        burn_mint,
        sas_credential,
        sas_schema,
        sas_authority,
        bump,
    };
    let event = ConfigInitialized { admin: ctx.admin, min_create_burn, burn_mint };
    Ok((config, event))
}

/// Creates the record of `ctx.user`, with `burn_amount` burned.
pub fn create_atomid(
    program_id: &Address,
    ctx: &CreateAtomId,
    config: &AtomConfig,
    burn_amount: u64,
    metadata: Option<String>,
    clock: &HostClock,
) -> (r: Result<CreateOutcome, ErrorCode>)
    requires
        config.wf(),
    ensures
        r matches Err(e) ==> create_error(
            *program_id,
            *ctx,
            *config,
            burn_amount,
            metadata_view(metadata),
            *clock,
        ) == Some(e),
        r matches Ok(o) ==> create_error(
            *program_id,
            *ctx,
            *config,
            burn_amount,
            metadata_view(metadata),
            *clock,
        ) is None && created(
            *program_id,
            *ctx,
            *config,
            burn_amount,
            metadata_view(metadata),
            *clock,
            o,
        ) && o.atom_id.consistent_with(config.rank_thresholds@),
{
    let rseeds = record_seeds(&ctx.user);
    let record_bump = match check_handle(&rseeds, program_id, &ctx.atom_id) {
        Some(b) => b,
        None => return Err(ErrorCode::Unauthorized),
    };
    if ctx.atom_id_in_use {
        return Err(ErrorCode::Unauthorized);
    }
    let cseeds = config_seeds();
    if check_handle(&cseeds, program_id, &ctx.atom_config).is_none() {
        return Err(ErrorCode::Unauthorized);
    }
    let aseeds = sas_authority_seeds();
    let authority_bump = match check_handle(&aseeds, program_id, &ctx.sas_authority) {
        Some(b) => b,
        None => return Err(ErrorCode::Unauthorized),
    };
    if !ctx.atom_mint.same_as(&config.burn_mint) {
        return Err(ErrorCode::InvalidBurnMint);
    }
    let token_program = token_program_id();
    if !ctx.token_program.same_as(&token_program) {
        return Err(ErrorCode::InvalidTokenProgram);
    }
    if burn_amount < config.min_create_burn {
        return Err(ErrorCode::InsufficientBurnAmount);
    }
    if let Some(m) = &metadata {
        if !metadata_within_limit(m) {
            return Err(ErrorCode::MetadataTooLong);
        }
    }
    check_registry(&ctx.sas_credential, &ctx.sas_schema, &ctx.sas_authority, config)?;
    let expiry = match attestation_expiry(clock.unix_timestamp) {
        Some(x) => x,
        None => return Err(ErrorCode::Overflow),
    };
    let rank = calculate_rank(burn_amount, config.rank_thresholds.as_slice());
    let stored_metadata = match metadata {
        Some(m) => m,
        None => String::new(),
    };
    let record = AtomId {
        owner: ctx.user,
        total_burned: burn_amount,
        rank,
        metadata: stored_metadata,
        created_at_slot: clock.slot,
        updated_at_slot: clock.slot,
        bump: record_bump,
    };
    let payload = serialize_atomid_attestation_data(rank, burn_amount, clock.slot);
    let attestation = create_attestation_instruction(
        ctx.user,
        ctx.sas_authority,
        config.sas_credential,
        config.sas_schema,
        ctx.sas_attestation,
        ctx.system_program,
        ctx.user,
        payload,
        expiry,
    );
    let burn = BurnRequest {
        token_program: ctx.token_program,
        mint: ctx.atom_mint,
        from: ctx.user_token_account,
        authority: ctx.user,
        amount: burn_amount,
    };
    let event = AtomIdCreated { owner: ctx.user, total_burned: burn_amount, rank };
    Ok(CreateOutcome { atom_id: record, burn, attestation, sas_authority_bump: authority_bump, event })
}

/// The error `upgrade_atomid` fails with on `rec`, if any.
pub open spec fn upgrade_error(
    program_id: Address,
    ctx: UpgradeAtomId,
    config: AtomConfig,
    rec: AtomId,
    burn_amount: u64,
    metadata: Option<Seq<char>>,
    clock: HostClock,
) -> Option<ErrorCode> {
    if record_bump(program_id, ctx.user, ctx.atom_id) is None || rec.owner@ != ctx.user@
        || config_bump(program_id, ctx.atom_config) is None || sas_authority_bump(
        program_id,
        ctx.sas_authority,
    ) is None {
        Some(ErrorCode::Unauthorized)
    } else if ctx.atom_mint@ != config.burn_mint@ {
        Some(ErrorCode::InvalidBurnMint)
    } else if ctx.token_program@ != token_program_bytes() {
        Some(ErrorCode::InvalidTokenProgram)
    } else if burn_amount == 0 {
        Some(ErrorCode::InsufficientBurnAmount)
    } else if metadata_too_long(metadata) {
        Some(ErrorCode::MetadataTooLong)
    } else if registry_error(ctx.sas_credential, ctx.sas_schema, ctx.sas_authority, config) is Some {
        registry_error(ctx.sas_credential, ctx.sas_schema, ctx.sas_authority, config)
    } else if rec.total_burned + burn_amount > u64::MAX || expiry_overflows(clock.unix_timestamp) {
        Some(ErrorCode::Overflow)
    } else {
        None
    }
}

/// `new` is `old` after `burn_amount` more was burned at `slot`, ranked on
/// `thresholds`, with the metadata replaced where some is supplied.
pub open spec fn upgraded(
    old: AtomId,
    new: AtomId,
    thresholds: Seq<u64>,
    burn_amount: u64,
    metadata: Option<Seq<char>>,
    slot: u64,
) -> bool {
    &&& new.owner == old.owner
    &&& new.total_burned == old.total_burned + burn_amount
    &&& new.rank as nat == count_at_most(thresholds, new.total_burned)
    &&& new.metadata@ == match metadata {
        Some(m) => m,
        None => old.metadata@,
    }
    &&& new.created_at_slot == old.created_at_slot
    &&& new.updated_at_slot == slot
    &&& new.bump == old.bump
}

/// The requests of a successful `upgrade_atomid` that left the record `new`.
pub open spec fn upgrade_requests(
    ctx: UpgradeAtomId,
    config: AtomConfig,
    old: AtomId,
    new: AtomId,
    burn_amount: u64,
    clock: HostClock,
    o: UpgradeOutcome,
) -> bool {
    &&& o.close.program_id@ == sas_program_bytes()
    &&& o.close.accounts@.len() == 7
    &&& o.close.accounts@.subrange(0, 6) == close_attestation_accounts(
        ctx.user,
        ctx.sas_authority,
        config.sas_credential,
        ctx.old_sas_attestation,
        ctx.sas_event_authority,
        ctx.system_program,
    )
    &&& o.close.accounts@[6].key@ == sas_program_bytes()
    &&& o.close.data@ == seq![7u8]
    &&& o.burn == (BurnRequest {
        token_program: ctx.token_program,
        mint: ctx.atom_mint,
        from: ctx.user_token_account,
        authority: ctx.user,
        amount: burn_amount,
    })
    &&& o.attestation.program_id@ == sas_program_bytes()
    &&& o.attestation.accounts@ == create_attestation_accounts(
        ctx.user,
        ctx.sas_authority,
        config.sas_credential,
        config.sas_schema,
        ctx.new_sas_attestation,
        ctx.system_program,
    )
    &&& o.attestation.data@ == create_attestation_data(
        ctx.user,
        attestation_payload(new.rank, new.total_burned, new.created_at_slot),
        (clock.unix_timestamp + ATTESTATION_VALIDITY_SECS) as i64,
    )
    &&& o.event == (AtomIdUpgraded {
        owner: old.owner,
        total_burned: new.total_burned,
        old_rank: old.rank,
        new_rank: new.rank,
    })
}

/// Adds `burn_amount` to the record of `ctx.user`, re-ranks it and rotates its
/// attestation. On an error the record is left as it was.
pub fn upgrade_atomid(
    program_id: &Address,
    ctx: &UpgradeAtomId,
    config: &AtomConfig,
    atom_id: &mut AtomId,
    burn_amount: u64,
    metadata: Option<String>,
    clock: &HostClock,
) -> (r: Result<UpgradeOutcome, ErrorCode>)
    requires
        config.wf(),
    ensures
        r matches Err(e) ==> upgrade_error(
            *program_id,
            *ctx,
            *config,
            *old(atom_id),
            burn_amount,
            metadata_view(metadata),
            *clock,
        ) == Some(e) && *final(atom_id) == *old(atom_id),
        r matches Ok(o) ==> {
            &&& upgrade_error(
                *program_id,
                *ctx,
                *config,
                *old(atom_id),
                burn_amount,
                metadata_view(metadata),
                *clock,
            ) is None
            &&& upgraded(
                *old(atom_id),
                *final(atom_id),
                config.rank_thresholds@,
                burn_amount,
                metadata_view(metadata),
                clock.slot,
            )
            &&& upgrade_requests(*ctx, *config, *old(atom_id), *final(atom_id), burn_amount, *clock, o)
            &&& sas_authority_bump(*program_id, ctx.sas_authority) == Some(o.sas_authority_bump)
            &&& (metadata_fits(old(atom_id).metadata@) ==> final(atom_id).consistent_with(
                config.rank_thresholds@,
            ))
        },
{
    let rseeds = record_seeds(&ctx.user);
    if check_handle(&rseeds, program_id, &ctx.atom_id).is_none() {
        return Err(ErrorCode::Unauthorized);
    }
    if !atom_id.owner.same_as(&ctx.user) {
        return Err(ErrorCode::Unauthorized);
    }
    let cseeds = config_seeds();
    if check_handle(&cseeds, program_id, &ctx.atom_config).is_none() {
        return Err(ErrorCode::Unauthorized);
    }
    let aseeds = sas_authority_seeds();
    let authority_bump = match check_handle(&aseeds, program_id, &ctx.sas_authority) {
        Some(b) => b,
        None => return Err(ErrorCode::Unauthorized),
    };
    if !ctx.atom_mint.same_as(&config.burn_mint) {
        return Err(ErrorCode::InvalidBurnMint);
    }
    let token_program = token_program_id();
    if !ctx.token_program.same_as(&token_program) {
        return Err(ErrorCode::InvalidTokenProgram);
    }
    if burn_amount == 0 {
        return Err(ErrorCode::InsufficientBurnAmount);
    }
    if let Some(m) = &metadata {
        if !metadata_within_limit(m) {
            return Err(ErrorCode::MetadataTooLong);
        }
    }
    check_registry(&ctx.sas_credential, &ctx.sas_schema, &ctx.sas_authority, config)?;
    let new_total = match atom_id.total_burned.checked_add(burn_amount) {
        Some(t) => t,
        None => return Err(ErrorCode::Overflow),
    };
    let expiry = match attestation_expiry(clock.unix_timestamp) {
        Some(x) => x,
        None => return Err(ErrorCode::Overflow),
    };
    let close = close_attestation_instruction(
        ctx.user,
        ctx.sas_authority,
        config.sas_credential,
        ctx.old_sas_attestation,
        ctx.sas_event_authority,
        ctx.system_program,
    );
    let burn = BurnRequest {
        token_program: ctx.token_program,
        mint: ctx.atom_mint,
        from: ctx.user_token_account,
        authority: ctx.user,
        amount: burn_amount,
    };
    let old_rank = atom_id.rank;
    let new_rank = calculate_rank(new_total, config.rank_thresholds.as_slice());
    atom_id.total_burned = new_total;
    atom_id.rank = new_rank;
    atom_id.updated_at_slot = clock.slot;
    if let Some(m) = metadata {
        atom_id.metadata = m;
    }
    let payload = serialize_atomid_attestation_data(new_rank, new_total, atom_id.created_at_slot);
    let attestation = create_attestation_instruction(
        ctx.user,
        ctx.sas_authority,
        config.sas_credential,
        config.sas_schema,
        ctx.new_sas_attestation,
        ctx.system_program,
        ctx.user,
        payload,
        expiry,
    );
    let event = AtomIdUpgraded {
        owner: atom_id.owner,
        total_burned: new_total,
        old_rank,
        new_rank,
    };
    Ok(UpgradeOutcome { close, burn, attestation, sas_authority_bump: authority_bump, event })
}

/// The error `update_metadata` fails with on `rec`, if any.
pub open spec fn update_metadata_error(
    program_id: Address,
    ctx: UpdateMetadata,
    rec: AtomId,
    new_metadata: Seq<char>,
) -> Option<ErrorCode> {
    if record_bump(program_id, ctx.user, ctx.atom_id) is None || rec.owner@ != ctx.user@ {
        Some(ErrorCode::Unauthorized)
    } else if !metadata_fits(new_metadata) {
        Some(ErrorCode::MetadataTooLong)
    } else {
        None
    }
}

/// `new` is `old` with its metadata set to `metadata` at `slot`.
pub open spec fn metadata_replaced(old: AtomId, new: AtomId, metadata: Seq<char>, slot: u64) -> bool {
    &&& new.owner == old.owner
    &&& new.total_burned == old.total_burned
    &&& new.rank == old.rank
    &&& new.metadata@ == metadata
    &&& new.created_at_slot == old.created_at_slot
    &&& new.updated_at_slot == slot
    &&& new.bump == old.bump
}

/// Replaces the metadata of the record of `ctx.user`. On an error the record is
/// left as it was.
pub fn update_metadata(
    program_id: &Address,
    ctx: &UpdateMetadata,
    atom_id: &mut AtomId,
    new_metadata: String,
    clock: &HostClock,
) -> (r: Result<(), ErrorCode>)
    ensures
        r matches Err(e) ==> update_metadata_error(*program_id, *ctx, *old(atom_id), new_metadata@)
            == Some(e) && *final(atom_id) == *old(atom_id),
        r is Ok ==> update_metadata_error(*program_id, *ctx, *old(atom_id), new_metadata@) is None
            && metadata_replaced(*old(atom_id), *final(atom_id), new_metadata@, clock.slot)
            && metadata_fits(final(atom_id).metadata@),
{
    let rseeds = record_seeds(&ctx.user);
    if check_handle(&rseeds, program_id, &ctx.atom_id).is_none() {
        return Err(ErrorCode::Unauthorized);
    }
    if !atom_id.owner.same_as(&ctx.user) {
        return Err(ErrorCode::Unauthorized);
    }
    if !metadata_within_limit(&new_metadata) {
        return Err(ErrorCode::MetadataTooLong);
    }
    atom_id.metadata = new_metadata;
    atom_id.updated_at_slot = clock.slot;
    Ok(())
}

/// The error `admin_update_config` fails with on `config`, if any.
pub open spec fn admin_update_error(
    program_id: Address,
    ctx: AdminUpdateConfig,
    config: AtomConfig,
    rank_thresholds: Option<Seq<u64>>,
) -> Option<ErrorCode> {
    if config_bump(program_id, ctx.atom_config) is None || config.admin@ != ctx.admin@ {
        Some(ErrorCode::Unauthorized)
    } else {
        match rank_thresholds {
            Some(t) => thresholds_error(t),
            None => None,
        }
    }
}

/// The view of an optional threshold list.
pub open spec fn thresholds_view(t: Option<Vec<u64>>) -> Option<Seq<u64>> {
    match t {
        Some(v) => Some(v@),
        None => None,
    }
}

/// Updates the fields of the configuration that are supplied, each checked as
/// at creation. On an error the configuration is left as it was.
pub fn admin_update_config(
    program_id: &Address,
    ctx: &AdminUpdateConfig,
    config: &mut AtomConfig,
    min_create_burn: Option<u64>,
    rank_thresholds: Option<Vec<u64>>,
) -> (r: Result<(), ErrorCode>)
    ensures
        r matches Err(e) ==> admin_update_error(
            *program_id,
            *ctx,
            *old(config),
            thresholds_view(rank_thresholds),
        ) == Some(e) && *final(config) == *old(config),
        r is Ok ==> {
            &&& admin_update_error(*program_id, *ctx, *old(config), thresholds_view(rank_thresholds)) is None
            &&& final(config).admin == old(config).admin
            &&& final(config).min_create_burn == match min_create_burn {
                Some(m) => m,
                None => old(config).min_create_burn,
            }
            &&& final(config).rank_thresholds@ == match rank_thresholds {
                Some(t) => t@,
                None => old(config).rank_thresholds@,
            }
            &&& final(config).burn_mint == old(config).burn_mint
            &&& final(config).sas_credential == old(config).sas_credential
            &&& final(config).sas_schema == old(config).sas_schema
            &&& final(config).sas_authority == old(config).sas_authority
            &&& final(config).bump == old(config).bump
            &&& (old(config).wf() ==> final(config).wf())
        },
{
    let cseeds = config_seeds();
    if check_handle(&cseeds, program_id, &ctx.atom_config).is_none() {
        return Err(ErrorCode::Unauthorized);
    }
    if !config.admin.same_as(&ctx.admin) {
        return Err(ErrorCode::Unauthorized);
    }
    if let Some(t) = &rank_thresholds {
        validate_rank_thresholds(t)?;
    }
    if let Some(m) = min_create_burn {
        config.min_create_burn = m;
    }
    if let Some(t) = rank_thresholds {
        config.rank_thresholds = t;
    }
    Ok(())
}

} // verus!
