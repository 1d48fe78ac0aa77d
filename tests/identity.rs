use atom_id::address::Address;
use atom_id::error::ErrorCode;
use atom_id::pda::{derive_config_address, derive_record_address, derive_sas_authority_address};
use atom_id::program::{
    admin_update_config, create_atomid, initialize, update_metadata, upgrade_atomid,
    AdminUpdateConfig, CreateAtomId, Initialize, UpdateMetadata, UpgradeAtomId,
};
use atom_id::rank::calculate_rank;
use atom_id::sas_integration::{
    close_attestation_instruction, create_attestation_instruction, derive_attestation_pda,
    serialize_atomid_attestation_data,
};
use atom_id::state::{AtomConfig, AtomId, HostClock};

const TOKEN_PROGRAM: [u8; 32] = [
    6, 221, 246, 225, 215, 101, 161, 147, 217, 203, 225, 70, 206, 235, 121, 172, 28, 180, 133,
    237, 95, 91, 55, 145, 58, 140, 245, 133, 126, 255, 0, 169,
];

const SAS_PROGRAM: [u8; 32] = [
    15, 94, 158, 213, 55, 30, 44, 112, 137, 140, 169, 253, 14, 119, 192, 6, 92, 171, 93, 160, 46,
    86, 103, 139, 39, 19, 56, 42, 243, 116, 89, 183,
];

fn addr(b: u8) -> Address {
    Address::new([b; 32])
}

fn program() -> Address {
    addr(200)
}

fn admin() -> Address {
    addr(1)
}

fn mint() -> Address {
    addr(10)
}

fn clock(slot: u64) -> HostClock {
    HostClock { slot, unix_timestamp: 1_700_000_000 + slot as i64 }
}

fn init_ctx() -> Initialize {
    let (atom_config, _) = derive_config_address(&program()).unwrap();
    Initialize { atom_config, atom_config_in_use: false, admin: admin(), system_program: addr(0) }
}

fn setup(min_create_burn: u64, thresholds: Vec<u64>) -> AtomConfig {
    let (authority, _) = derive_sas_authority_address(&program()).unwrap();
    let (config, _) = initialize(
        &program(),
        &init_ctx(),
        min_create_burn,
        thresholds,
        mint(),
        addr(11),
        addr(12),
        authority,
    )
    .unwrap();
    config
}

fn create_ctx(user: Address, config: &AtomConfig) -> CreateAtomId {
    let (atom_id, _) = derive_record_address(&program(), &user).unwrap();
    let (atom_config, _) = derive_config_address(&program()).unwrap();
    CreateAtomId {
        atom_id,
        atom_id_in_use: false,
        atom_config,
        user,
        user_token_account: addr(30),
        atom_mint: config.burn_mint,
        sas_attestation: addr(40),
        sas_credential: config.sas_credential,
        sas_schema: config.sas_schema,
        sas_authority: config.sas_authority,
        sas_program: Address::new(SAS_PROGRAM),
        token_program: Address::new(TOKEN_PROGRAM),
        system_program: addr(0),
    }
}

fn upgrade_ctx(user: Address, config: &AtomConfig) -> UpgradeAtomId {
    let (atom_id, _) = derive_record_address(&program(), &user).unwrap();
    let (atom_config, _) = derive_config_address(&program()).unwrap();
    UpgradeAtomId {
        atom_id,
        atom_config,
        user,
        user_token_account: addr(30),
        atom_mint: config.burn_mint,
        old_sas_attestation: addr(40),
        new_sas_attestation: addr(41),
        sas_credential: config.sas_credential,
        sas_schema: config.sas_schema,
        sas_authority: config.sas_authority,
        sas_event_authority: addr(50),
        sas_program: Address::new(SAS_PROGRAM),
        token_program: Address::new(TOKEN_PROGRAM),
        system_program: addr(0),
    }
}

fn create(config: &AtomConfig, user: Address, burn: u64) -> AtomId {
    let ctx = create_ctx(user, config);
    create_atomid(&program(), &ctx, config, burn, None, &clock(5)).unwrap().atom_id
}

fn le(x: u64) -> Vec<u8> {
    x.to_le_bytes().to_vec()
}

#[test]
fn rank_is_count_of_thresholds_reached() {
    let t = [100u64, 500, 1000];
    assert_eq!(calculate_rank(0, &t), 0);
    assert_eq!(calculate_rank(99, &t), 0);
    assert_eq!(calculate_rank(100, &t), 1);
    assert_eq!(calculate_rank(150, &t), 1);
    assert_eq!(calculate_rank(550, &t), 2);
    assert_eq!(calculate_rank(1000, &t), 3);
    assert_eq!(calculate_rank(u64::MAX, &t), 3);
    assert_eq!(calculate_rank(5, &[]), 0);
    assert_eq!(calculate_rank(5, &[5, 5, 7]), 2);
    let ten: Vec<u64> = (1..=10).collect();
    assert_eq!(calculate_rank(10, &ten), 10);
}

#[test]
fn initialize_stores_configuration() {
    let pid = program();
    let (authority, _) = derive_sas_authority_address(&pid).unwrap();
    let (config, event) =
        initialize(&pid, &init_ctx(), 100, vec![100, 500], mint(), addr(11), addr(12), authority)
            .unwrap();
    let (_, bump) = derive_config_address(&pid).unwrap();
    assert_eq!(config.admin, admin());
    assert_eq!(config.min_create_burn, 100);
    assert_eq!(config.rank_thresholds, vec![100, 500]);
    assert_eq!(config.bump, bump);
    assert_eq!(event.admin, admin());
    assert_eq!(event.min_create_burn, 100);
    assert_eq!(event.burn_mint, mint());
}

#[test]
fn initialize_rejects_bad_thresholds() {
    let pid = program();
    let eleven: Vec<u64> = (1..=11).collect();
    let r = initialize(&pid, &init_ctx(), 1, eleven, mint(), addr(11), addr(12), addr(13));
    assert_eq!(r.unwrap_err(), ErrorCode::TooManyRankThresholds);
    let r = initialize(&pid, &init_ctx(), 1, vec![5, 3], mint(), addr(11), addr(12), addr(13));
    assert_eq!(r.unwrap_err(), ErrorCode::RankThresholdsNotSorted);
    let r = initialize(&pid, &init_ctx(), 1, vec![3, 3, 5], mint(), addr(11), addr(12), addr(13));
    assert!(r.is_ok());
}

#[test]
fn initialize_rejects_wrong_or_used_handle() {
    let pid = program();
    let mut ctx = init_ctx();
    ctx.atom_config = addr(99);
    let r = initialize(&pid, &ctx, 1, vec![], mint(), addr(11), addr(12), addr(13));
    assert_eq!(r.unwrap_err(), ErrorCode::Unauthorized);
    let mut ctx = init_ctx();
    ctx.atom_config_in_use = true;
    let r = initialize(&pid, &ctx, 1, vec![], mint(), addr(11), addr(12), addr(13));
    assert_eq!(r.unwrap_err(), ErrorCode::Unauthorized);
}

#[test]
fn admin_update_rejects_unsorted_and_too_many() {
    let mut config = setup(10, vec![100, 500, 1000]);
    let (atom_config, _) = derive_config_address(&program()).unwrap();
    let ctx = AdminUpdateConfig { atom_config, admin: admin() };
    let r = admin_update_config(&program(), &ctx, &mut config, Some(7), Some(vec![5, 3]));
    assert_eq!(r.unwrap_err(), ErrorCode::RankThresholdsNotSorted);
    assert_eq!(config.min_create_burn, 10);
    assert_eq!(config.rank_thresholds, vec![100, 500, 1000]);
    let eleven: Vec<u64> = (1..=11).collect();
    let r = admin_update_config(&program(), &ctx, &mut config, None, Some(eleven));
    assert_eq!(r.unwrap_err(), ErrorCode::TooManyRankThresholds);
    assert_eq!(config.rank_thresholds, vec![100, 500, 1000]);
}

#[test]
fn admin_update_applies_supplied_fields() {
    let mut config = setup(10, vec![100, 500, 1000]);
    let (atom_config, _) = derive_config_address(&program()).unwrap();
    let ctx = AdminUpdateConfig { atom_config, admin: admin() };
    admin_update_config(&program(), &ctx, &mut config, Some(7), None).unwrap();
    assert_eq!(config.min_create_burn, 7);
    assert_eq!(config.rank_thresholds, vec![100, 500, 1000]);
    admin_update_config(&program(), &ctx, &mut config, None, Some(vec![1, 2])).unwrap();
    assert_eq!(config.min_create_burn, 7);
    assert_eq!(config.rank_thresholds, vec![1, 2]);
}

#[test]
fn admin_update_by_other_is_unauthorized() {
    let mut config = setup(10, vec![100]);
    let (atom_config, _) = derive_config_address(&program()).unwrap();
    let ctx = AdminUpdateConfig { atom_config, admin: addr(2) };
    let r = admin_update_config(&program(), &ctx, &mut config, Some(7), None);
    assert_eq!(r.unwrap_err(), ErrorCode::Unauthorized);
    assert_eq!(config.min_create_burn, 10);
}

#[test]
fn create_burn_boundary_at_minimum() {
    let config = setup(100, vec![100, 500, 1000]);
    let ctx = create_ctx(addr(20), &config);
    let r = create_atomid(&program(), &ctx, &config, 99, None, &clock(5));
    assert_eq!(r.unwrap_err(), ErrorCode::InsufficientBurnAmount);
    let r = create_atomid(&program(), &ctx, &config, 100, None, &clock(5));
    assert!(r.is_ok());
}

#[test]
fn create_fills_record_and_requests() {
    let config = setup(100, vec![100, 500, 1000]);
    let user = addr(20);
    let ctx = create_ctx(user, &config);
    let o = create_atomid(&program(), &ctx, &config, 150, Some("hello".to_string()), &clock(5))
        .unwrap();
    let (_, bump) = derive_record_address(&program(), &user).unwrap();
    let (_, authority_bump) = derive_sas_authority_address(&program()).unwrap();
    assert_eq!(o.atom_id.owner, user);
    assert_eq!(o.atom_id.total_burned, 150);
    assert_eq!(o.atom_id.rank, 1);
    assert_eq!(o.atom_id.metadata, "hello");
    assert_eq!(o.atom_id.created_at_slot, 5);
    assert_eq!(o.atom_id.updated_at_slot, 5);
    assert_eq!(o.atom_id.bump, bump);
    assert_eq!(o.sas_authority_bump, authority_bump);
    assert_eq!(o.burn.amount, 150);
    assert_eq!(o.burn.mint, mint());
    assert_eq!(o.burn.from, addr(30));
    assert_eq!(o.burn.authority, user);
    assert_eq!(o.event.owner, user);
    assert_eq!(o.event.total_burned, 150);
    assert_eq!(o.event.rank, 1);
    assert_eq!(o.attestation.program_id, Address::new(SAS_PROGRAM));
    assert_eq!(o.attestation.accounts[4].key, addr(40));
    let mut data = vec![6u8];
    data.extend_from_slice(&user.bytes);
    data.extend_from_slice(&17u32.to_le_bytes());
    data.push(1);
    data.extend(le(150));
    data.extend(le(5));
    data.extend(((1_700_000_005i64 + 31_536_000) as u64).to_le_bytes());
    assert_eq!(o.attestation.data, data);
}

#[test]
fn create_without_metadata_stores_empty() {
    let config = setup(1, vec![]);
    let rec = create(&config, addr(20), 1);
    assert_eq!(rec.metadata, "");
    assert_eq!(rec.rank, 0);
}

#[test]
fn create_rejects_existing_record() {
    let config = setup(1, vec![]);
    let mut ctx = create_ctx(addr(20), &config);
    ctx.atom_id_in_use = true;
    let r = create_atomid(&program(), &ctx, &config, 5, None, &clock(5));
    assert_eq!(r.unwrap_err(), ErrorCode::Unauthorized);
    let mut ctx = create_ctx(addr(20), &config);
    ctx.atom_id = addr(77);
    let r = create_atomid(&program(), &ctx, &config, 5, None, &clock(5));
    assert_eq!(r.unwrap_err(), ErrorCode::Unauthorized);
}

#[test]
fn create_reports_each_validation_error() {
    let config = setup(1, vec![]);
    let p = program();
    let c = clock(5);
    let mut ctx = create_ctx(addr(20), &config);
    ctx.atom_mint = addr(3);
    assert_eq!(create_atomid(&p, &ctx, &config, 5, None, &c).unwrap_err(), ErrorCode::InvalidBurnMint);
    let mut ctx = create_ctx(addr(20), &config);
    ctx.token_program = addr(3);
    assert_eq!(
        create_atomid(&p, &ctx, &config, 5, None, &c).unwrap_err(),
        ErrorCode::InvalidTokenProgram
    );
    let ctx = create_ctx(addr(20), &config);
    let long = "x".repeat(201);
    assert_eq!(
        create_atomid(&p, &ctx, &config, 5, Some(long), &c).unwrap_err(),
        ErrorCode::MetadataTooLong
    );
    assert!(create_atomid(&p, &ctx, &config, 5, Some("x".repeat(200)), &c).is_ok());
    let mut ctx = create_ctx(addr(20), &config);
    ctx.sas_credential = addr(3);
    assert_eq!(
        create_atomid(&p, &ctx, &config, 5, None, &c).unwrap_err(),
        ErrorCode::InvalidSasCredential
    );
    let mut ctx = create_ctx(addr(20), &config);
    ctx.sas_schema = addr(3);
    assert_eq!(
        create_atomid(&p, &ctx, &config, 5, None, &c).unwrap_err(),
        ErrorCode::InvalidSasSchema
    );
    let ctx = create_ctx(addr(20), &config);
    let late = HostClock { slot: 1, unix_timestamp: i64::MAX - 10 };
    assert_eq!(create_atomid(&p, &ctx, &config, 5, None, &late).unwrap_err(), ErrorCode::Overflow);
}

#[test]
fn create_rejects_other_registry_authority() {
    let (authority, _) = derive_sas_authority_address(&program()).unwrap();
    let (config, _) =
        initialize(&program(), &init_ctx(), 1, vec![], mint(), addr(11), addr(12), addr(13))
            .unwrap();
    let mut ctx = create_ctx(addr(20), &config);
    ctx.sas_authority = authority;
    let r = create_atomid(&program(), &ctx, &config, 5, None, &clock(5));
    assert_eq!(r.unwrap_err(), ErrorCode::InvalidSasAuthority);
}

#[test]
fn metadata_limit_counts_bytes() {
    let config = setup(1, vec![]);
    let ctx = create_ctx(addr(20), &config);
    let wide = "é".repeat(101);
    let r = create_atomid(&program(), &ctx, &config, 5, Some(wide), &clock(5));
    assert_eq!(r.unwrap_err(), ErrorCode::MetadataTooLong);
    let r = create_atomid(&program(), &ctx, &config, 5, Some("é".repeat(100)), &clock(5));
    assert!(r.is_ok());
}

#[test]
fn scenario_create_and_two_upgrades() {
    let config = setup(100, vec![100, 500, 1000]);
    let user = addr(20);
    let mut rec = create(&config, user, 150);
    assert_eq!((rec.total_burned, rec.rank), (150, 1));
    let ctx = upgrade_ctx(user, &config);
    let o = upgrade_atomid(&program(), &ctx, &config, &mut rec, 400, None, &clock(6)).unwrap();
    assert_eq!((rec.total_burned, rec.rank), (550, 2));
    assert_eq!((o.event.old_rank, o.event.new_rank, o.event.total_burned), (1, 2, 550));
    let o = upgrade_atomid(&program(), &ctx, &config, &mut rec, 600, None, &clock(7)).unwrap();
    assert_eq!((rec.total_burned, rec.rank), (1150, 3));
    assert_eq!((o.event.old_rank, o.event.new_rank), (2, 3));
    assert_eq!(rec.created_at_slot, 5);
    assert_eq!(rec.updated_at_slot, 7);
}

#[test]
fn upgrades_increase_total_and_keep_rank_order() {
    let config = setup(1, vec![10, 20, 30]);
    let user = addr(20);
    let mut rec = create(&config, user, 1);
    let ctx = upgrade_ctx(user, &config);
    let mut last = (rec.total_burned, rec.rank);
    for burn in [3u64, 9, 1, 25, 100] {
        upgrade_atomid(&program(), &ctx, &config, &mut rec, burn, None, &clock(9)).unwrap();
        assert!(rec.total_burned > last.0);
        assert!(rec.rank >= last.1);
        last = (rec.total_burned, rec.rank);
    }
    assert_eq!(last, (139, 3));
}

#[test]
fn upgrade_rotates_attestation_requests() {
    let config = setup(1, vec![100]);
    let user = addr(20);
    let mut rec = create(&config, user, 50);
    let ctx = upgrade_ctx(user, &config);
    let o = upgrade_atomid(&program(), &ctx, &config, &mut rec, 60, Some("m".to_string()), &clock(8))
        .unwrap();
    assert_eq!(o.close.program_id, Address::new(SAS_PROGRAM));
    assert_eq!(o.close.data, vec![7u8]);
    assert_eq!(o.close.accounts.len(), 7);
    assert_eq!(o.close.accounts[3].key, ctx.old_sas_attestation);
    assert!(o.close.accounts[3].is_writable);
    assert_eq!(o.close.accounts[6].key, Address::new(SAS_PROGRAM));
    assert_eq!(o.attestation.accounts[4].key, ctx.new_sas_attestation);
    assert_ne!(o.close.accounts[3].key, o.attestation.accounts[4].key);
    assert_eq!(o.attestation.data[0], 6);
    let payload_start = 1 + 32 + 4;
    assert_eq!(o.attestation.data[payload_start], 1);
    assert_eq!(o.attestation.data[payload_start + 1..payload_start + 9], le(110)[..]);
    assert_eq!(o.burn.amount, 60);
    assert_eq!(rec.metadata, "m");
}

#[test]
fn upgrade_by_other_identity_is_unauthorized() {
    let config = setup(1, vec![100]);
    let mut rec = create(&config, addr(20), 50);
    let ctx = upgrade_ctx(addr(21), &config);
    let r = upgrade_atomid(&program(), &ctx, &config, &mut rec, 500, None, &clock(8));
    assert_eq!(r.unwrap_err(), ErrorCode::Unauthorized);
    assert_eq!(rec.total_burned, 50);
    let mut ctx = upgrade_ctx(addr(20), &config);
    ctx.atom_id = addr(99);
    let r = upgrade_atomid(&program(), &ctx, &config, &mut rec, 500, None, &clock(8));
    assert_eq!(r.unwrap_err(), ErrorCode::Unauthorized);
}

#[test]
fn upgrade_rejects_zero_and_overflow() {
    let config = setup(1, vec![100]);
    let mut rec = create(&config, addr(20), u64::MAX - 5);
    let ctx = upgrade_ctx(addr(20), &config);
    let r = upgrade_atomid(&program(), &ctx, &config, &mut rec, 0, None, &clock(8));
    assert_eq!(r.unwrap_err(), ErrorCode::InsufficientBurnAmount);
    let r = upgrade_atomid(&program(), &ctx, &config, &mut rec, 6, None, &clock(8));
    assert_eq!(r.unwrap_err(), ErrorCode::Overflow);
    assert_eq!(rec.total_burned, u64::MAX - 5);
    upgrade_atomid(&program(), &ctx, &config, &mut rec, 5, None, &clock(8)).unwrap();
    assert_eq!(rec.total_burned, u64::MAX);
}

#[test]
fn update_metadata_twice_is_idempotent() {
    let config = setup(1, vec![100]);
    let user = addr(20);
    let mut rec = create(&config, user, 150);
    let (atom_id, _) = derive_record_address(&program(), &user).unwrap();
    let ctx = UpdateMetadata { atom_id, user };
    update_metadata(&program(), &ctx, &mut rec, "same".to_string(), &clock(6)).unwrap();
    let after_first = rec.clone();
    update_metadata(&program(), &ctx, &mut rec, "same".to_string(), &clock(7)).unwrap();
    assert_eq!(rec.metadata, after_first.metadata);
    assert_eq!(rec.metadata, "same");
    assert_eq!(rec.rank, after_first.rank);
    assert_eq!(rec.total_burned, after_first.total_burned);
    assert_eq!(rec.updated_at_slot, 7);
}

#[test]
fn update_metadata_rejects_long_and_other_user() {
    let config = setup(1, vec![]);
    let user = addr(20);
    let mut rec = create(&config, user, 1);
    let (atom_id, _) = derive_record_address(&program(), &user).unwrap();
    let ctx = UpdateMetadata { atom_id, user };
    let r = update_metadata(&program(), &ctx, &mut rec, "y".repeat(201), &clock(6));
    assert_eq!(r.unwrap_err(), ErrorCode::MetadataTooLong);
    assert_eq!(rec.metadata, "");
    let ctx = UpdateMetadata { atom_id, user: addr(21) };
    let r = update_metadata(&program(), &ctx, &mut rec, "z".to_string(), &clock(6));
    assert_eq!(r.unwrap_err(), ErrorCode::Unauthorized);
}

#[test]
fn attestation_payload_layout() {
    let data = serialize_atomid_attestation_data(2, 550, 42);
    let mut expected = vec![2u8, 0x26, 0x02, 0, 0, 0, 0, 0, 0];
    expected.extend([42u8, 0, 0, 0, 0, 0, 0, 0]);
    assert_eq!(data, expected);
}

#[test]
fn attestation_instructions_match_registry_layout() {
    let ix = create_attestation_instruction(
        addr(1),
        addr(2),
        addr(3),
        addr(4),
        addr(5),
        addr(6),
        addr(7),
        vec![9, 8],
        -2,
    );
    assert_eq!(ix.accounts.len(), 6);
    assert!(ix.accounts[0].is_signer && ix.accounts[0].is_writable);
    assert!(ix.accounts[1].is_signer && !ix.accounts[1].is_writable);
    assert_eq!(ix.accounts[3].key, addr(4));
    let mut data = vec![6u8];
    data.extend([7u8; 32]);
    data.extend([2u8, 0, 0, 0, 9, 8]);
    data.extend([0xfeu8, 0xff, 0xff, 0xff, 0xff, 0xff, 0xff, 0xff]);
    assert_eq!(ix.data, data);
    let close = close_attestation_instruction(addr(1), addr(2), addr(3), addr(4), addr(5), addr(6));
    assert_eq!(close.data, vec![7u8]);
    assert_eq!(close.accounts[3].key, addr(4));
    assert_eq!(close.accounts[4].key, addr(5));
}

#[test]
fn attestation_address_is_derived() {
    let (a, bump) = derive_attestation_pda(&addr(3), &addr(4), &addr(5)).unwrap();
    let seeds: [&[u8]; 4] = [b"attestation", &[3u8; 32], &[4u8; 32], &[5u8; 32]];
    let (expected, expected_bump) = solana_program::pubkey::Pubkey::find_program_address(
        &seeds,
        &solana_program::pubkey::Pubkey::from(SAS_PROGRAM),
    );
    assert_eq!(a.bytes, expected.to_bytes());
    assert_eq!(bump, expected_bump);
    assert_ne!(a, addr(5));
}

#[test]
fn error_messages() {
    assert_eq!(ErrorCode::Overflow.message(), "Arithmetic overflow");
    assert_eq!(ErrorCode::MetadataTooLong.message(), "Metadata exceeds maximum length of 200 characters");
}
