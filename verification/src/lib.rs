use vstd::prelude::*;

pub mod types;

verus! {

use crate::types::{
    Fortress,
    FortressError,
    InitArgs,
    InitFortressArgs,
    PlaneConfig,
    SendResourcesArgs,
};

/// The persisted content of one account: the one-time initialized flag
/// together with the record under the configuration key. `Vacant` stands for
/// an absent flag; either record implies the flag is set, so a reader can
/// never observe the flag without the record or the record without the flag.
pub enum AccountState {
    /// Nothing persisted yet.
    Vacant,
    /// The account holds a one-time plane registration record.
    Plane(PlaneConfig),
    /// The account holds a founded fortress.
    Founded(Fortress),
}

impl AccountState {
    /// Whether the one-time initialized flag is set.
    pub open spec fn spec_initialized(self) -> bool {
        !(self is Vacant)
    }

    /// A founded fortress in an account always satisfies its invariant.
    pub open spec fn wf(self) -> bool {
        self matches AccountState::Founded(f) ==> f.wf()
    }
}

/// Whether the account has been initialized, by plane registration or by
/// founding.
pub fn is_initialized(state: &AccountState) -> (r: bool)
    ensures
        r == state.spec_initialized(),
{
    match state {
        AccountState::Vacant => false,
        _ => true,
    }
}

/// The account state after a plane registration call: the first writer wins,
/// repeats change nothing.
pub open spec fn spec_init(state: AccountState, caller: String, init_args: InitArgs) -> AccountState {
    if state.spec_initialized() {
        state
    } else {
        AccountState::Plane(
            PlaneConfig {
                plane_name: init_args.plane_name,
                creator: caller,
                descrpition: init_args.descrpition,
            },
        )
    }
}

/// Initialize plane. A no-op on an account that is already initialized; the
/// record and the flag are applied as one state change, so no intermediate
/// state is observable.
pub fn init(state: &mut AccountState, caller: String, init_args: InitArgs)
    ensures
        *final(state) == spec_init(*old(state), caller, init_args),
        old(state).spec_initialized() ==> *final(state) == *old(state),
        final(state).spec_initialized(),
        old(state).wf() ==> final(state).wf(),
{
    if is_initialized(state) {
        return;
    }
    let config = PlaneConfig::new(caller, init_args);
    *state = AccountState::Plane(config);
}

/// The account state after a founding call with the given draws: the first
/// writer wins, repeats change nothing.
pub open spec fn spec_init_fortress(
    state: AccountState,
    init_args: InitFortressArgs,
    divination_draw: u64,
    kind_draw: u64,
    maximum_draw: u64,
    minimum_draw: u64,
) -> AccountState {
    if state.spec_initialized() {
        state
    } else {
        AccountState::Founded(
            Fortress::spec_founded(init_args, divination_draw, kind_draw, maximum_draw, minimum_draw),
        )
    }
}

/// Initialize a fortress. The caller becomes the fortress owner. Founding is
/// idempotent by design: on an already-initialized account the call succeeds
/// and silently preserves the first founding. The four draw parameters are
/// the bounded random values the founding ritual requests, in order; the
/// `requires` states exactly the bounds they were drawn with.
pub fn init_fortress(
    state: &mut AccountState,
    init_args: InitFortressArgs,
    divination_draw: u64,
    kind_draw: u64,
    maximum_draw: u64,
    minimum_draw: u64,
)
    requires
        divination_draw <= 8,
        kind_draw <= 2,
        maximum_draw <= 204,
        minimum_draw < maximum_draw + 51,
    ensures
        *final(state) == spec_init_fortress(
            *old(state),
            init_args,
            divination_draw,
            kind_draw,
            maximum_draw,
            minimum_draw,
        ),
        old(state).spec_initialized() ==> *final(state) == *old(state),
        final(state).spec_initialized(),
        old(state).wf() ==> final(state).wf(),
{
    if is_initialized(state) {
        return;
    }
    let founded_fortress = Fortress::new(
        init_args,
        divination_draw,
        kind_draw,
        maximum_draw,
        minimum_draw,
    );
    *state = AccountState::Founded(founded_fortress);
}

/// Collect the fortress resource of an account. Fails with `NotFound` on an
/// account that holds no founded fortress; otherwise behaves exactly as
/// `Fortress::collect_resource` on the stored fortress.
pub fn collect_resource(state: &mut AccountState, block_time: u64, draw: u64) -> (res: Result<
    u64,
    FortressError,
>)
    requires
        old(state).wf(),
        (*old(state)) matches AccountState::Founded(f) ==> draw
            <= f.key_resource.maximum_collectable - f.key_resource.minimum_collectable,
    ensures
        !((*old(state)) is Founded) ==> res == Err::<u64, FortressError>(FortressError::NotFound)
            && *final(state) == *old(state),
        (*old(state)) is Founded ==> ({
            let f = old(state)->Founded_0;
            &&& !f.collect_enabled(block_time) ==> res == Err::<u64, FortressError>(
                FortressError::AlreadyCollectedThisBlock,
            ) && *final(state) == *old(state)
            &&& f.collect_enabled(block_time) && f.collect_fits(draw) ==> res == Ok::<
                u64,
                FortressError,
            >((f.spec_yield(draw)) as u64) && *final(state) == AccountState::Founded(
                f.spec_collected(block_time, draw),
            )
            &&& f.collect_enabled(block_time) && !f.collect_fits(draw) ==> res == Err::<
                u64,
                FortressError,
            >(FortressError::NumericOverflow) && *final(state) == *old(state)
        }),
        res matches Ok(units) ==> (*old(state)) is Founded
            && old(state)->Founded_0.key_resource.minimum_collectable <= units
            <= old(state)->Founded_0.key_resource.maximum_collectable,
        final(state).wf(),
{
    match state {
        AccountState::Founded(f) => f.collect_resource(block_time, draw),
        _ => Err(FortressError::NotFound),
    }
}

/// Send resources from one account's fortress to another's. Fails with
/// `NotFound` where either account holds no founded fortress; otherwise
/// behaves exactly as `Fortress::send_resources` on the two stored
/// fortresses. For a transfer whose source and destination are the same
/// account, use `send_resources_self`.
pub fn send_resources(
    source: &mut AccountState,
    destination: &mut AccountState,
    args: &SendResourcesArgs,
) -> (res: Result<(), FortressError>)
    ensures
        !((*old(source)) is Founded) || !((*old(destination)) is Founded) ==> res == Err::<
            (),
            FortressError,
        >(FortressError::NotFound) && *final(source) == *old(source) && *final(destination)
            == *old(destination),
        (*old(source)) is Founded && (*old(destination)) is Founded ==> ({
            let s = old(source)->Founded_0;
            let d = old(destination)->Founded_0;
            &&& res is Ok <==> s.warehouse.reserve.can_debit(args.sended_resources)
                && d.warehouse.reserve.can_credit(args.sended_resources)
            &&& res is Ok ==> *final(source) == AccountState::Founded(
                s.with_reserve(s.warehouse.reserve.debited(args.sended_resources)),
            ) && *final(destination) == AccountState::Founded(
                d.with_reserve(d.warehouse.reserve.credited(args.sended_resources)),
            )
            &&& !s.warehouse.reserve.can_debit(args.sended_resources) ==> res == Err::<
                (),
                FortressError,
            >(FortressError::InsufficientReserve)
            &&& s.warehouse.reserve.can_debit(args.sended_resources)
                && !d.warehouse.reserve.can_credit(args.sended_resources) ==> res == Err::<
                (),
                FortressError,
            >(FortressError::NumericOverflow)
        }),
        res is Err ==> *final(source) == *old(source) && *final(destination) == *old(
            destination,
        ),
        old(source).wf() ==> final(source).wf(),
        old(destination).wf() ==> final(destination).wf(),
{
    match source {
        AccountState::Founded(s) => match destination {
            AccountState::Founded(d) => s.send_resources(d, args),
            _ => Err(FortressError::NotFound),
        },
        _ => Err(FortressError::NotFound),
    }
}

/// Send resources from an account's fortress to itself. The state is left
/// numerically unchanged in every case; the call still fails exactly where
/// an ordinary transfer out of the fortress would.
pub fn send_resources_self(state: &mut AccountState, args: &SendResourcesArgs) -> (res: Result<
    (),
    FortressError,
>)
    ensures
        *final(state) == *old(state),
        !((*old(state)) is Founded) ==> res == Err::<(), FortressError>(FortressError::NotFound),
        (*old(state)) is Founded ==> (res is Ok <==> old(
            state,
        )->Founded_0.warehouse.reserve.can_debit(args.sended_resources)),
        (*old(state)) is Founded && res is Err ==> res == Err::<(), FortressError>(
            FortressError::InsufficientReserve,
        ),
{
    match state {
        AccountState::Founded(f) => f.send_resources_self(args),
        _ => Err(FortressError::NotFound),
    }
}

/// Founding is idempotent: whatever a second founding call's arguments and
/// draws are, it leaves the account exactly as the first call left it.
pub proof fn lemma_init_fortress_idempotent(
    state: AccountState,
    first_args: InitFortressArgs,
    first_divination: u64,
    first_kind: u64,
    first_maximum: u64,
    first_minimum: u64,
    second_args: InitFortressArgs,
    second_divination: u64,
    second_kind: u64,
    second_maximum: u64,
    second_minimum: u64,
)
    ensures
        spec_init_fortress(
            spec_init_fortress(
                state,
                first_args,
                first_divination,
                first_kind,
                first_maximum,
                first_minimum,
            ),
            second_args,
            second_divination,
            second_kind,
            second_maximum,
            second_minimum,
        ) == spec_init_fortress(
            state,
            first_args,
            first_divination,
            first_kind,
            first_maximum,
            first_minimum,
        ),
{
}

} // verus!
