use vstd::prelude::*;
use crate::address::Address;
use crate::error::ErrorCode;
use crate::program::{
    create_error, metadata_replaced, update_metadata_error, upgrade_error, upgrade_requests,
    upgraded, CreateAtomId, UpdateMetadata, UpgradeAtomId, UpgradeOutcome,
};
use crate::rank::{count_at_most, lemma_count_monotonic};
use crate::state::{AtomConfig, AtomId, HostClock};

verus! {

/// Each record of `records` is the one before it after a successful upgrade
/// burning the matching amount of `burns`.
pub open spec fn upgrade_chain(
    records: Seq<AtomId>,
    thresholds: Seq<u64>,
    burns: Seq<u64>,
    metadata: Seq<Option<Seq<char>>>,
    slots: Seq<u64>,
) -> bool {
    &&& records.len() == burns.len() + 1
    &&& metadata.len() == burns.len()
    &&& slots.len() == burns.len()
    &&& forall|k: int|
        #![trigger burns[k]]
        0 <= k < burns.len() ==> burns[k] > 0 && upgraded(
            records[k],
            records[k + 1],
            thresholds,
            burns[k],
            metadata[k],
            slots[k],
        )
}

/// Along any chain of successful upgrades of one record on one threshold list,
/// the total burned strictly increases and the rank never decreases. A
/// successful upgrade burns a positive amount, and the first record's rank is
/// the one its total reaches on that list.
pub proof fn successful_upgrades_are_monotonic(
    records: Seq<AtomId>,
    thresholds: Seq<u64>,
    burns: Seq<u64>,
    metadata: Seq<Option<Seq<char>>>,
    slots: Seq<u64>,
)
    requires
        records[0].rank as nat == count_at_most(thresholds, records[0].total_burned),
        upgrade_chain(records, thresholds, burns, metadata, slots),
    ensures
        forall|i: int, j: int|
            0 <= i < j < records.len() ==> #[trigger] records[i].total_burned
                < #[trigger] records[j].total_burned && records[i].rank <= records[j].rank,
{
    assert forall|k: int| 0 <= k < records.len() implies #[trigger] records[k].rank as nat
        == count_at_most(thresholds, records[k].total_burned) by {
        if k > 0 {
            assert(burns[k - 1] > 0);
            assert(upgraded(
                records[k - 1],
                records[k],
                thresholds,
                burns[k - 1],
                metadata[k - 1],
                slots[k - 1],
            ));
        }
    }
    assert forall|i: int, j: int| 0 <= i < j < records.len() implies #[trigger] records[i].total_burned
        < #[trigger] records[j].total_burned && records[i].rank <= records[j].rank by {
        lemma_totals_increase(records, thresholds, burns, metadata, slots, i, j);
        lemma_count_monotonic(thresholds, records[i].total_burned, records[j].total_burned);
        assert(records[i].rank as nat == count_at_most(thresholds, records[i].total_burned));
        assert(records[j].rank as nat == count_at_most(thresholds, records[j].total_burned));
    }
}

proof fn lemma_totals_increase(
    records: Seq<AtomId>,
    thresholds: Seq<u64>,
    burns: Seq<u64>,
    metadata: Seq<Option<Seq<char>>>,
    slots: Seq<u64>,
    i: int,
    j: int,
)
    requires
        upgrade_chain(records, thresholds, burns, metadata, slots),
        0 <= i < j < records.len(),
    ensures
        records[i].total_burned < records[j].total_burned,
    decreases j - i,
{
    assert(burns[j - 1] > 0);
    assert(upgraded(
        records[j - 1],
        records[j],
        thresholds,
        burns[j - 1],
        metadata[j - 1],
        slots[j - 1],
    ));
    if j - 1 > i {
        lemma_totals_increase(records, thresholds, burns, metadata, slots, i, j - 1);
    }
}

/// Setting the same metadata twice in a row succeeds both times and leaves the
/// metadata, the rank and the total burned as the first call left them.
pub proof fn repeated_metadata_update_is_idempotent(
    program_id: Address,
    ctx: UpdateMetadata,
    first: AtomId,
    second: AtomId,
    third: AtomId,
    metadata: Seq<char>,
    slot1: u64,
    slot2: u64,
)
    requires
        update_metadata_error(program_id, ctx, first, metadata) is None,
        metadata_replaced(first, second, metadata, slot1),
        metadata_replaced(second, third, metadata, slot2),
    ensures
        update_metadata_error(program_id, ctx, second, metadata) is None,
        third.metadata@ == second.metadata@,
        third.rank == second.rank && second.rank == first.rank,
        third.total_burned == second.total_burned && second.total_burned == first.total_burned,
{
}

/// Where a creation burning exactly the minimum succeeds, the same creation
/// burning one less fails with `InsufficientBurnAmount`.
pub proof fn create_burn_boundary(
    program_id: Address,
    ctx: CreateAtomId,
    config: AtomConfig,
    metadata: Option<Seq<char>>,
    clock: HostClock,
)
    requires
        config.min_create_burn > 0,
        create_error(program_id, ctx, config, config.min_create_burn, metadata, clock) is None,
    ensures
        create_error(program_id, ctx, config, (config.min_create_burn - 1) as u64, metadata, clock)
            == Some(ErrorCode::InsufficientBurnAmount),
{
}

/// A successful upgrade closes the attestation that was in effect before it
/// and then issues one at the new attestation's address; where the two
/// addresses differ, the attestation in effect changes.
pub proof fn upgrade_rotates_attestation(
    ctx: UpgradeAtomId,
    config: AtomConfig,
    old: AtomId,
    new: AtomId,
    burn_amount: u64,
    clock: HostClock,
    o: UpgradeOutcome,
)
    requires
        upgrade_requests(ctx, config, old, new, burn_amount, clock, o),
    ensures
        o.close.accounts@[3].key == ctx.old_sas_attestation,
        o.close.accounts@[3].is_writable,
        o.close.data@ == seq![7u8],
        o.attestation.accounts@[4].key == ctx.new_sas_attestation,
        o.attestation.accounts@[4].is_writable,
        o.attestation.data@[0] == 6u8,
        ctx.old_sas_attestation@ != ctx.new_sas_attestation@ ==> o.close.accounts@[3].key@
            != o.attestation.accounts@[4].key@,
{
    assert(o.close.accounts@[3] == o.close.accounts@.subrange(0, 6)[3]);
}

/// An upgrade of a record by anyone but its owner fails with `Unauthorized`,
/// whatever the amount burned.
pub proof fn upgrade_by_non_owner_is_unauthorized(
    program_id: Address,
    ctx: UpgradeAtomId,
    config: AtomConfig,
    rec: AtomId,
    burn_amount: u64,
    metadata: Option<Seq<char>>,
    clock: HostClock,
)
    requires
        rec.owner@ != ctx.user@,
    ensures
        upgrade_error(program_id, ctx, config, rec, burn_amount, metadata, clock) == Some(
            ErrorCode::Unauthorized,
        ),
{
}

} // verus!
