use vstd::prelude::*;

verus! {

/// The closed set of resource kinds a fortress can produce and store.
#[derive(Clone, Copy, PartialEq, Eq, Structural, Debug)]
pub enum ResourceType {
    Wood,
    Stone,
    Food,
    /// Rare outcome of the founding selector. The draw primitive returns a
    /// value in `[0, bound]` inclusive and the selector is drawn with bound 2,
    /// so only Wood, Stone and Food are reachable from founding; Magic would
    /// require a draw above its bound.
    Magic,
}

/// Failures surfaced to callers. Every failing operation leaves the state it
/// touched exactly as it was.
#[derive(Clone, Copy, PartialEq, Eq, Structural, Debug)]
pub enum FortressError {
    /// A collection was already performed at the current block time.
    AlreadyCollectedThisBlock,
    /// A removal or transfer asked for more units than the reserve holds.
    InsufficientReserve,
    /// An addition would overflow a reserve counter.
    NumericOverflow,
    /// A referenced account holds no founded fortress.
    NotFound,
}

/// Arguments of the plane registration entry point.
pub struct InitArgs {
    // Plane name.
    pub plane_name: String,
    // Plane description.
    pub descrpition: String,
}

/// One-time plane registration record.
pub struct PlaneConfig {
    // Plane name.
    pub plane_name: String,
    // Account that has invoked the `init` method.
    pub creator: String,
    // Plane description.
    pub descrpition: String,
}

impl PlaneConfig {
    /// Builds the registration record from the caller identity and the
    /// registration arguments.
    pub fn new(creator: String, init_args: InitArgs) -> (c: PlaneConfig)
        ensures
            c.plane_name == init_args.plane_name,
            c.creator == creator,
            c.descrpition == init_args.descrpition,
    {
        PlaneConfig {
            plane_name: init_args.plane_name,
            creator,
            descrpition: init_args.descrpition,
        }
    }
}

/// A fortress's single key resource: its kind, the inclusive bounds of one
/// collection's yield, and the block time of the last collection.
pub struct Resource {
    // Type of resource.
    pub resource_type: ResourceType,
    // Minimum of resource that can be collected each time.
    pub minimum_collectable: u64,
    // Maximum of resource that can be collected each time.
    pub maximum_collectable: u64,
    // Last collection time (different for each block).
    pub last_collection: u64,
}

impl Resource {
    /// The resource invariant: the yield bounds form a non-empty range.
    pub open spec fn wf(self) -> bool {
        self.minimum_collectable < self.maximum_collectable
    }

    /// Builds a fresh key resource that has never been collected.
    pub fn new(
        resource_type: ResourceType,
        minimum_collectable: u64,
        maximum_collectable: u64,
    ) -> (r: Resource)
        requires
            minimum_collectable < maximum_collectable,
        ensures
            r == (Resource {
                resource_type,
                minimum_collectable,
                maximum_collectable,
                last_collection: 0,
            }),
            r.wf(),
    {
        Resource {
            resource_type,
            minimum_collectable,
            maximum_collectable,
            last_collection: 0,
        }
    }
}

/// Per-kind accumulated holdings. Counters are unsigned, so a balance can
/// never be negative; every mutation below is proved free of wrapping.
#[derive(Clone, Copy, PartialEq, Eq, Structural, Debug)]
pub struct Reserve {
    pub wood: u64,
    pub stone: u64,
    pub food: u64,
    pub magic: u64,
}

impl Reserve {
    /// The units held of one kind.
    pub open spec fn spec_get(self, kind: ResourceType) -> u64 {
        match kind {
            ResourceType::Wood => self.wood,
            ResourceType::Stone => self.stone,
            ResourceType::Food => self.food,
            ResourceType::Magic => self.magic,
        }
    }

    /// This reserve with the counter of one kind replaced.
    pub open spec fn spec_set(self, kind: ResourceType, units: u64) -> Reserve {
        match kind {
            ResourceType::Wood => Reserve { wood: units, ..self },
            ResourceType::Stone => Reserve { stone: units, ..self },
            ResourceType::Food => Reserve { food: units, ..self },
            ResourceType::Magic => Reserve { magic: units, ..self },
        }
    }

    /// An empty reserve.
    pub fn new() -> (r: Reserve)
        ensures
            r == (Reserve { wood: 0, stone: 0, food: 0, magic: 0 }),
    {
        Reserve { wood: 0, stone: 0, food: 0, magic: 0 }
    }

    /// Reads the counter of one kind.
    pub fn get(&self, kind: ResourceType) -> (units: u64)
        ensures
            units == self.spec_get(kind),
    {
        match kind {
            ResourceType::Wood => self.wood,
            ResourceType::Stone => self.stone,
            ResourceType::Food => self.food,
            ResourceType::Magic => self.magic,
        }
    }
}

/// Warehouse: holds the fortress's collected resources.
#[derive(Clone, Copy, PartialEq, Eq, Structural, Debug)]
pub struct Warehouse {
    pub reserve: Reserve,
}

impl Warehouse {
    /// An empty warehouse.
    pub fn new() -> (w: Warehouse)
        ensures
            w == (Warehouse { reserve: Reserve { wood: 0, stone: 0, food: 0, magic: 0 } }),
    {
        Warehouse { reserve: Reserve::new() }
    }
}

/// Fortress initialization arguments.
pub struct InitFortressArgs {
    // Fortress name.
    pub name: String,
    // Fortress king.
    pub king: String,
    // Fortress description.
    pub description: String,
}

/// Maps the founding selector draw to a resource kind. The selector is drawn
/// with bound 2 and the draw primitive is inclusive of its bound, so values
/// above 2 — and with them Magic — never arise from founding itself.
pub open spec fn spec_resource_type_from_draw(kind_draw: u64) -> ResourceType {
    if kind_draw == 0 {
        ResourceType::Wood
    } else if kind_draw == 1 {
        ResourceType::Stone
    } else if kind_draw == 2 {
        ResourceType::Food
    } else {
        ResourceType::Magic
    }
}

/// An account's game entity: identity fixed at founding, one key resource,
/// and a warehouse of accumulated reserves.
pub struct Fortress {
    // Fortress name.
    pub name: String,
    // Fortress king.
    pub king: String,
    // Fortress description.
    pub description: String,
    // Fortress divination number.
    pub divination_number: u8,
    // Fortress key resource.
    pub key_resource: Resource,
    // Fortress warehouse.
    pub warehouse: Warehouse,
}

impl Fortress {
    /// The fortress invariant: the key resource's yield range is non-empty
    /// and the divination number is one of the founding draw's outcomes.
    /// The divination draw is bounded by 8 inclusive, so the number lies in
    /// `[1, 9]`.
    pub open spec fn wf(self) -> bool {
        &&& self.key_resource.wf()
        &&& 1 <= self.divination_number <= 9
    }

    /// The fortress founded from the given arguments and the four raw draws,
    /// taken in founding order: divination, kind selector, maximum, minimum.
    /// A pure function of its inputs: founding from equal draws is
    /// byte-identical.
    pub open spec fn spec_founded(
        init_args: InitFortressArgs,
        divination_draw: u64,
        kind_draw: u64,
        maximum_draw: u64,
        minimum_draw: u64,
    ) -> Fortress {
        Fortress {
            name: init_args.name,
            king: init_args.king,
            description: init_args.description,
            divination_number: (divination_draw + 1) as u8,
            key_resource: Resource {
                resource_type: spec_resource_type_from_draw(kind_draw),
                minimum_collectable: minimum_draw,
                maximum_collectable: (maximum_draw + 51) as u64,
                last_collection: 0,
            },
            warehouse: Warehouse { reserve: Reserve { wood: 0, stone: 0, food: 0, magic: 0 } },
        }
    }

    /// Constructor. Takes the four bounded random draws, in the order the
    /// founding ritual requests them from the randomness source:
    ///   1. `divination_draw`, requested with bound 8 → number in `[1, 9]`;
    ///   2. `kind_draw`, requested with bound 2 → Wood, Stone or Food;
    ///   3. `maximum_draw`, requested with bound 204 → maximum in `[51, 255]`;
    ///   4. `minimum_draw`, requested with bound `maximum - 1` → strictly
    ///      below the maximum.
    /// A bounded draw with bound `b` yields a value in `[0, b]` inclusive;
    /// the `requires` states exactly those bounds.
    pub fn new(
        init_args: InitFortressArgs,
        divination_draw: u64,
        kind_draw: u64,
        maximum_draw: u64,
        minimum_draw: u64,
    ) -> (f: Fortress)
        requires
            divination_draw <= 8,
            kind_draw <= 2,
            maximum_draw <= 204,
            minimum_draw < maximum_draw + 51,
        ensures
            f == Fortress::spec_founded(
                init_args,
                divination_draw,
                kind_draw,
                maximum_draw,
                minimum_draw,
            ),
            f.wf(),
            f.key_resource.last_collection == 0,
            f.warehouse.reserve == (Reserve { wood: 0, stone: 0, food: 0, magic: 0 }),
    {
        let divination_number: u8 = (divination_draw + 1) as u8;
        let resource_type: ResourceType = if kind_draw == 0 {
            ResourceType::Wood
        } else if kind_draw == 1 {
            ResourceType::Stone
        } else if kind_draw == 2 {
            ResourceType::Food
        } else {
            ResourceType::Magic
        };
        let maximum_collectable: u64 = maximum_draw + 51;  // In this way the maximum is at least 51.
        let key_resource = Resource::new(resource_type, minimum_draw, maximum_collectable);
        Fortress {
            name: init_args.name,
            king: init_args.king,
            description: init_args.description,
            divination_number,
            key_resource,
            warehouse: Warehouse::new(),
        }
    }
}

impl Fortress {
    /// Collection readiness: at most one successful collection per distinct
    /// block time, so an equal timestamp counts as already collected.
    pub open spec fn collect_enabled(self, block_time: u64) -> bool {
        self.key_resource.last_collection < block_time
    }

    /// The yield of a collection with the given draw: the draw offset above
    /// the minimum. With the draw bounded by `maximum - minimum`, the yield
    /// lies in `[minimum_collectable, maximum_collectable]` inclusive.
    pub open spec fn spec_yield(self, draw: u64) -> int {
        self.key_resource.minimum_collectable + draw
    }

    /// Whether the warehouse counter of the key resource's kind can absorb
    /// the yield without overflowing.
    pub open spec fn collect_fits(self, draw: u64) -> bool {
        self.warehouse.reserve.spec_get(self.key_resource.resource_type) + self.spec_yield(draw)
            <= u64::MAX
    }

    /// This fortress with its warehouse reserve replaced.
    pub open spec fn with_reserve(self, reserve: Reserve) -> Fortress {
        Fortress { warehouse: Warehouse { reserve }, ..self }
    }

    /// The fortress after a successful collection at `block_time` with the
    /// given draw: the collection time advances and the yield is credited to
    /// the key resource's kind. Everything else is untouched.
    pub open spec fn spec_collected(self, block_time: u64, draw: u64) -> Fortress {
        let kind = self.key_resource.resource_type;
        let credited = (self.warehouse.reserve.spec_get(kind) + self.spec_yield(draw)) as u64;
        Fortress {
            key_resource: Resource { last_collection: block_time, ..self.key_resource },
            warehouse: Warehouse { reserve: self.warehouse.reserve.spec_set(kind, credited) },
            ..self
        }
    }

    /// Resource collector; on success the returned value is the amount
    /// collected, already credited to the warehouse. `draw` is the raw
    /// bounded random draw for this collection, requested with bound
    /// `maximum_collectable - minimum_collectable`, hence at most that
    /// difference. The whole effect is a function of the fortress, the block
    /// time and the draw, so replay against identical inputs is reproducible.
    pub fn collect_resource(&mut self, block_time: u64, draw: u64) -> (res: Result<
        u64,
        FortressError,
    >)
        requires
            old(self).wf(),
            draw <= old(self).key_resource.maximum_collectable
                - old(self).key_resource.minimum_collectable,
        ensures
            !old(self).collect_enabled(block_time) ==> res == Err::<u64, FortressError>(
                FortressError::AlreadyCollectedThisBlock,
            ) && *final(self) == *old(self),
            old(self).collect_enabled(block_time) && old(self).collect_fits(draw) ==> res == Ok::<
                u64,
                FortressError,
            >((old(self).spec_yield(draw)) as u64) && *final(self) == old(self).spec_collected(
                block_time,
                draw,
            ),
            old(self).collect_enabled(block_time) && !old(self).collect_fits(draw) ==> res
                == Err::<u64, FortressError>(FortressError::NumericOverflow) && *final(self)
                == *old(self),
            res matches Ok(units) ==> old(self).key_resource.minimum_collectable <= units
                <= old(self).key_resource.maximum_collectable,
            final(self).wf(),
    {
        // Check if already collected in the actual block.
        if self.key_resource.last_collection >= block_time {
            return Err(FortressError::AlreadyCollectedThisBlock);
        }
        let resources_collected: u64 = self.key_resource.minimum_collectable + draw;
        let kind = self.key_resource.resource_type;
        let current: u64 = self.warehouse.reserve.get(kind);
        if resources_collected > u64::MAX - current {
            return Err(FortressError::NumericOverflow);
        }
        let credited: u64 = current + resources_collected;
        match kind {
            ResourceType::Wood => self.warehouse.reserve.wood = credited,
            ResourceType::Stone => self.warehouse.reserve.stone = credited,
            ResourceType::Food => self.warehouse.reserve.food = credited,
            ResourceType::Magic => self.warehouse.reserve.magic = credited,
        }
        self.key_resource.last_collection = block_time;
        Ok(resources_collected)
    }

    /// Adds the specified resources to the fortress. Fails with
    /// `NumericOverflow` — and changes nothing — where the counter cannot
    /// absorb the units; never wraps.
    pub fn add_resource(&mut self, resource: ResourceType, units: u64) -> (res: Result<
        (),
        FortressError,
    >)
        ensures
            res is Ok <==> old(self).warehouse.reserve.spec_get(resource) + units <= u64::MAX,
            res is Ok ==> *final(self) == old(self).with_reserve(
                old(self).warehouse.reserve.spec_set(
                    resource,
                    (old(self).warehouse.reserve.spec_get(resource) + units) as u64,
                ),
            ),
            res is Err ==> res == Err::<(), FortressError>(FortressError::NumericOverflow)
                && *final(self) == *old(self),
    {
        let current: u64 = self.warehouse.reserve.get(resource);
        if units > u64::MAX - current {
            return Err(FortressError::NumericOverflow);
        }
        let updated: u64 = current + units;
        match resource {
            ResourceType::Wood => self.warehouse.reserve.wood = updated,
            ResourceType::Stone => self.warehouse.reserve.stone = updated,
            ResourceType::Food => self.warehouse.reserve.food = updated,
            ResourceType::Magic => self.warehouse.reserve.magic = updated,
        }
        Ok(())
    }

    /// Removes the specified resources from the fortress. Fails with
    /// `InsufficientReserve` — and changes nothing — where the reserve holds
    /// fewer units than asked; the balance can never go below zero.
    pub fn remove_resource(&mut self, resource: ResourceType, units: u64) -> (res: Result<
        (),
        FortressError,
    >)
        ensures
            res is Ok <==> units <= old(self).warehouse.reserve.spec_get(resource),
            res is Ok ==> *final(self) == old(self).with_reserve(
                old(self).warehouse.reserve.spec_set(
                    resource,
                    (old(self).warehouse.reserve.spec_get(resource) - units) as u64,
                ),
            ),
            res is Err ==> res == Err::<(), FortressError>(FortressError::InsufficientReserve)
                && *final(self) == *old(self),
    {
        let current: u64 = self.warehouse.reserve.get(resource);
        if units > current {
            return Err(FortressError::InsufficientReserve);
        }
        let updated: u64 = current - units;
        match resource {
            ResourceType::Wood => self.warehouse.reserve.wood = updated,
            ResourceType::Stone => self.warehouse.reserve.stone = updated,
            ResourceType::Food => self.warehouse.reserve.food = updated,
            ResourceType::Magic => self.warehouse.reserve.magic = updated,
        }
        Ok(())
    }
}

/// Per-kind amounts requested by `send_resources`.
#[derive(Clone, Copy, PartialEq, Eq, Structural, Debug)]
pub struct SendedUnits {
    pub wood: u64,
    pub stone: u64,
    pub food: u64,
    pub magic: u64,
}

/// `send_resources` arguments.
pub struct SendResourcesArgs {
    // Destination Fortress.
    pub destination_fortress: String,
    // Resources sended.
    pub sended_resources: SendedUnits,
    // Message: opaque metadata carried alongside the transfer; it does not
    // affect balances.
    pub message: String,
}

impl Reserve {
    /// Whether this reserve holds at least the requested amount of every
    /// kind, so that all four debits can succeed.
    pub open spec fn can_debit(self, amounts: SendedUnits) -> bool {
        &&& amounts.wood <= self.wood
        &&& amounts.stone <= self.stone
        &&& amounts.food <= self.food
        &&& amounts.magic <= self.magic
    }

    /// Whether every counter of this reserve can absorb the requested amount
    /// of its kind without overflowing.
    pub open spec fn can_credit(self, amounts: SendedUnits) -> bool {
        &&& self.wood + amounts.wood <= u64::MAX
        &&& self.stone + amounts.stone <= u64::MAX
        &&& self.food + amounts.food <= u64::MAX
        &&& self.magic + amounts.magic <= u64::MAX
    }

    /// This reserve with the requested amounts debited, kind by kind.
    pub open spec fn debited(self, amounts: SendedUnits) -> Reserve {
        Reserve {
            wood: (self.wood - amounts.wood) as u64,
            stone: (self.stone - amounts.stone) as u64,
            food: (self.food - amounts.food) as u64,
            magic: (self.magic - amounts.magic) as u64,
        }
    }

    /// This reserve with the requested amounts credited, kind by kind.
    pub open spec fn credited(self, amounts: SendedUnits) -> Reserve {
        Reserve {
            wood: (self.wood + amounts.wood) as u64,
            stone: (self.stone + amounts.stone) as u64,
            food: (self.food + amounts.food) as u64,
            magic: (self.magic + amounts.magic) as u64,
        }
    }
}

impl Fortress {
    /// Moves the requested amounts from this fortress's warehouse to the
    /// destination's. Two-phase: all four debits and all four credits are
    /// validated against the current balances before any counter changes, so
    /// a failing transfer leaves both warehouses exactly as they were —
    /// partial transfers cannot be observed.
    pub fn send_resources(&mut self, destination: &mut Fortress, args: &SendResourcesArgs) -> (res:
        Result<(), FortressError>)
        ensures
            res is Ok <==> old(self).warehouse.reserve.can_debit(args.sended_resources) && old(
                destination,
            ).warehouse.reserve.can_credit(args.sended_resources),
            res is Ok ==> *final(self) == old(self).with_reserve(
                old(self).warehouse.reserve.debited(args.sended_resources),
            ) && *final(destination) == old(destination).with_reserve(
                old(destination).warehouse.reserve.credited(args.sended_resources),
            ),
            !old(self).warehouse.reserve.can_debit(args.sended_resources) ==> res == Err::<
                (),
                FortressError,
            >(FortressError::InsufficientReserve),
            old(self).warehouse.reserve.can_debit(args.sended_resources) && !old(
                destination,
            ).warehouse.reserve.can_credit(args.sended_resources) ==> res == Err::<
                (),
                FortressError,
            >(FortressError::NumericOverflow),
            res is Err ==> *final(self) == *old(self) && *final(destination) == *old(
                destination,
            ),
    {
        let amounts = &args.sended_resources;
        // Phase one: validate every debit against the source balances.
        if amounts.wood > self.warehouse.reserve.wood || amounts.stone
            > self.warehouse.reserve.stone || amounts.food > self.warehouse.reserve.food
            || amounts.magic > self.warehouse.reserve.magic {
            return Err(FortressError::InsufficientReserve);
        }
        // Phase one, continued: validate every credit against overflow.
        if amounts.wood > u64::MAX - destination.warehouse.reserve.wood || amounts.stone
            > u64::MAX - destination.warehouse.reserve.stone || amounts.food > u64::MAX
            - destination.warehouse.reserve.food || amounts.magic > u64::MAX
            - destination.warehouse.reserve.magic {
            return Err(FortressError::NumericOverflow);
        }
        // Phase two: commit all eight mutations.
        self.warehouse.reserve.wood = self.warehouse.reserve.wood - amounts.wood;
        self.warehouse.reserve.stone = self.warehouse.reserve.stone - amounts.stone;
        self.warehouse.reserve.food = self.warehouse.reserve.food - amounts.food;
        self.warehouse.reserve.magic = self.warehouse.reserve.magic - amounts.magic;
        destination.warehouse.reserve.wood = destination.warehouse.reserve.wood + amounts.wood;
        destination.warehouse.reserve.stone = destination.warehouse.reserve.stone + amounts.stone;
        destination.warehouse.reserve.food = destination.warehouse.reserve.food + amounts.food;
        destination.warehouse.reserve.magic = destination.warehouse.reserve.magic + amounts.magic;
        Ok(())
    }

    /// A transfer whose source and destination are the same fortress: the
    /// debit and the credit cancel, so the reserve is numerically unchanged
    /// whether the transfer succeeds or fails. It still fails with
    /// `InsufficientReserve` where an ordinary transfer would.
    pub fn send_resources_self(&mut self, args: &SendResourcesArgs) -> (res: Result<
        (),
        FortressError,
    >)
        ensures
            *final(self) == *old(self),
            res is Ok <==> old(self).warehouse.reserve.can_debit(args.sended_resources),
            res is Err ==> res == Err::<(), FortressError>(FortressError::InsufficientReserve),
    {
        let amounts = &args.sended_resources;
        if amounts.wood > self.warehouse.reserve.wood || amounts.stone
            > self.warehouse.reserve.stone || amounts.food > self.warehouse.reserve.food
            || amounts.magic > self.warehouse.reserve.magic {
            return Err(FortressError::InsufficientReserve);
        }
        // Debit, then credit the same account: the two cancel exactly.
        self.warehouse.reserve.wood = self.warehouse.reserve.wood - amounts.wood + amounts.wood;
        self.warehouse.reserve.stone = self.warehouse.reserve.stone - amounts.stone
            + amounts.stone;
        self.warehouse.reserve.food = self.warehouse.reserve.food - amounts.food + amounts.food;
        self.warehouse.reserve.magic = self.warehouse.reserve.magic - amounts.magic
            + amounts.magic;
        Ok(())
    }
}

/// Founding determinism: two fortresses founded from the same arguments and
/// the same sequence of draws are identical, in every field.
pub proof fn lemma_founding_deterministic(
    first: Fortress,
    second: Fortress,
    init_args: InitFortressArgs,
    divination_draw: u64,
    kind_draw: u64,
    maximum_draw: u64,
    minimum_draw: u64,
)
    requires
        first == Fortress::spec_founded(
            init_args,
            divination_draw,
            kind_draw,
            maximum_draw,
            minimum_draw,
        ),
        second == Fortress::spec_founded(
            init_args,
            divination_draw,
            kind_draw,
            maximum_draw,
            minimum_draw,
        ),
    ensures
        first == second,
{
}

/// Every founded fortress satisfies its invariant, for all reachable draws:
/// in particular `minimum_collectable < maximum_collectable`, with the
/// maximum in `[51, 255]`, and a fresh, empty state.
pub proof fn lemma_founded_bounds(
    init_args: InitFortressArgs,
    divination_draw: u64,
    kind_draw: u64,
    maximum_draw: u64,
    minimum_draw: u64,
)
    requires
        divination_draw <= 8,
        kind_draw <= 2,
        maximum_draw <= 204,
        minimum_draw < maximum_draw + 51,
    ensures
        Fortress::spec_founded(
            init_args,
            divination_draw,
            kind_draw,
            maximum_draw,
            minimum_draw,
        ).wf(),
        Fortress::spec_founded(
            init_args,
            divination_draw,
            kind_draw,
            maximum_draw,
            minimum_draw,
        ).key_resource.minimum_collectable < Fortress::spec_founded(
            init_args,
            divination_draw,
            kind_draw,
            maximum_draw,
            minimum_draw,
        ).key_resource.maximum_collectable,
        51 <= Fortress::spec_founded(
            init_args,
            divination_draw,
            kind_draw,
            maximum_draw,
            minimum_draw,
        ).key_resource.maximum_collectable <= 255,
        Fortress::spec_founded(
            init_args,
            divination_draw,
            kind_draw,
            maximum_draw,
            minimum_draw,
        ).key_resource.last_collection == 0,
{
}

/// Transfers preserve balances: where a transfer can commit, the combined
/// holdings of source and destination are unchanged for every kind.
pub proof fn lemma_transfer_conserves_balances(
    source: Reserve,
    destination: Reserve,
    amounts: SendedUnits,
)
    requires
        source.can_debit(amounts),
        destination.can_credit(amounts),
    ensures
        source.debited(amounts).wood + destination.credited(amounts).wood == source.wood
            + destination.wood,
        source.debited(amounts).stone + destination.credited(amounts).stone == source.stone
            + destination.stone,
        source.debited(amounts).food + destination.credited(amounts).food == source.food
            + destination.food,
        source.debited(amounts).magic + destination.credited(amounts).magic == source.magic
            + destination.magic,
{
}

/// One yield per distinct time unit: a successful collection at a block time
/// leaves the fortress unable to collect again at that same time.
pub proof fn lemma_collect_once(fortress: Fortress, block_time: u64, draw: u64)
    ensures
        !fortress.spec_collected(block_time, draw).collect_enabled(block_time),
{
}

} // verus!
