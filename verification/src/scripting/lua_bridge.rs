//! The bridge between scripts and the scene: the commands that script
//! objects queue, the table that ties each part handle to the scene entity
//! and material made for it, and how each command is routed through it.
//! The commands carry their vector, color and scalar payloads through
//! unchanged, so the payload types are parameters here.
use std::collections::HashMap;
use vstd::prelude::*;

verus! {

broadcast use vstd::std_specs::hash::group_hash_axioms;

/// The first handle handed out to a script part.
pub const FIRST_HANDLE: u64 = 1;

/// The counter after one more handle has been handed out.
pub open spec fn spec_next_counter(counter: u64) -> u64 {
    if counter == u64::MAX { 0 } else { (counter + 1) as u64 }
}

/// `start + k`, modulo 2^64: the handle that call number `k` (counting
/// from zero) hands out when the counter first stood at `start`.
pub open spec fn spec_kth_handle(start: u64, k: nat) -> u64 {
    ((start + k) % 0x1_0000_0000_0000_0000) as u64
}

/// Hands out the handle that the counter holds and moves the counter on by
/// one, wrapping at the top of the `u64` range.
pub fn next_handle(counter: &mut u64) -> (handle: u64)
    ensures
        handle == *old(counter),
        *final(counter) == spec_next_counter(*old(counter)),
{
    let handle = *counter;
    *counter = counter.wrapping_add(1);
    handle
}

/// The counter after `k` handles have been handed out from `start`.
pub open spec fn spec_counter_after(start: u64, k: nat) -> u64
    decreases k,
{
    if k == 0 {
        start
    } else {
        spec_next_counter(spec_counter_after(start, (k - 1) as nat))
    }
}

/// Successive calls of `next_handle` count up from where the counter stood:
/// after `k` calls the counter, and so the handle that the next call hands
/// out, is `start + k`, modulo 2^64.
pub proof fn law_handles_count_up(start: u64, k: nat)
    ensures
        spec_counter_after(start, k) == spec_kth_handle(start, k),
    decreases k,
{
    if k > 0 {
        law_handles_count_up(start, (k - 1) as nat);
        assert(((start + (k - 1)) % 0x1_0000_0000_0000_0000) == u64::MAX ==> (start + k) % 0x1_0000_0000_0000_0000 == 0);
    }
}

/// Fewer than 2^64 successive calls of `next_handle` never hand out the same
/// handle twice: calls number `i` and `j` hand out different handles.
pub proof fn law_handles_are_distinct(start: u64, i: nat, j: nat)
    requires
        i < j < 0x1_0000_0000_0000_0000,
    ensures
        spec_counter_after(start, i) != spec_counter_after(start, j),
{
    law_handles_count_up(start, i);
    law_handles_count_up(start, j);
    assert((start + i) % 0x1_0000_0000_0000_0000 != (start + j) % 0x1_0000_0000_0000_0000) by (nonlinear_arith)
        requires
            i < j < 0x1_0000_0000_0000_0000,
    {
    }
}

/// A command that a script object queues for the scene.
pub enum LuaCommand<V, C, F> {
    SpawnPart { handle: u64, position: V, size: V, color: C },
    SetPosition { handle: u64, value: V },
    SetSize { handle: u64, value: V },
    SetColor { handle: u64, r: F, g: F, b: F },
    Despawn { handle: u64 },
}

/// What the scene must do to carry out one command.
pub enum PartAction<E, M, V, C, F> {
    /// Make a part with this mesh size, color and position, then `bind` the
    /// handle to its entity and material.
    Spawn { handle: u64, position: V, size: V, color: C },
    /// Set the translation of the entity's transform.
    Place { entity: E, translation: V },
    /// Set the scale of the entity's transform.
    Resize { entity: E, scale: V },
    /// Set the base color of the material.
    Recolor { material: M, r: F, g: F, b: F },
    /// Remove the entity from the scene.
    Remove { entity: E },
    /// Nothing to do: the handle is not bound.
    Ignore,
}

/// Ties each part handle to the scene entity and material made for it.
pub struct HandleMap<E, M>(pub HashMap<u64, (E, M)>);

impl<E, M> View for HandleMap<E, M> {
    type V = Map<u64, (E, M)>;

    open spec fn view(&self) -> Map<u64, (E, M)> {
        self.0@
    }
}

/// Whether `action` and the table `after` are what routing `cmd` through the
/// table `before` gives. Only a despawn changes the table; a recolor hands
/// out a clone of the bound material.
pub open spec fn spec_routes<E, M: Clone, V, C, F>(
    before: Map<u64, (E, M)>,
    cmd: LuaCommand<V, C, F>,
    after: Map<u64, (E, M)>,
    action: PartAction<E, M, V, C, F>,
) -> bool {
    match cmd {
        LuaCommand::SpawnPart { handle, position, size, color } => {
            &&& after == before
            &&& action == PartAction::<E, M, V, C, F>::Spawn { handle, position, size, color }
        },
        LuaCommand::SetPosition { handle, value } => {
            &&& after == before
            &&& action == if before.contains_key(handle) {
                PartAction::<E, M, V, C, F>::Place { entity: before[handle].0, translation: value }
            } else {
                PartAction::<E, M, V, C, F>::Ignore
            }
        },
        LuaCommand::SetSize { handle, value } => {
            &&& after == before
            &&& action == if before.contains_key(handle) {
                PartAction::<E, M, V, C, F>::Resize { entity: before[handle].0, scale: value }
            } else {
                PartAction::<E, M, V, C, F>::Ignore
            }
        },
        LuaCommand::SetColor { handle, r, g, b } => {
            &&& after == before
            &&& if before.contains_key(handle) {
                &&& action matches PartAction::Recolor { material, r: r2, g: g2, b: b2 }
                &&& cloned(before[handle].1, material)
                &&& r2 == r && g2 == g && b2 == b
            } else {
                action == PartAction::<E, M, V, C, F>::Ignore
            }
        },
        LuaCommand::Despawn { handle } => {
            &&& after == before.remove(handle)
            &&& action == if before.contains_key(handle) {
                PartAction::<E, M, V, C, F>::Remove { entity: before[handle].0 }
            } else {
                PartAction::<E, M, V, C, F>::Ignore
            }
        },
    }
}


/// The handle a command is about.
pub open spec fn spec_command_handle<V, C, F>(cmd: LuaCommand<V, C, F>) -> u64 {
    match cmd {
        LuaCommand::SpawnPart { handle, .. } => handle,
        LuaCommand::SetPosition { handle, .. } => handle,
        LuaCommand::SetSize { handle, .. } => handle,
        LuaCommand::SetColor { handle, .. } => handle,
        LuaCommand::Despawn { handle } => handle,
    }
}

/// Once a handle is bound to an entity and material, the commands for it
/// reach them: moves and resizes go to that entity, recolors to (a clone of)
/// that material, and a despawn removes that entity and unbinds the handle.
pub proof fn law_bound_part_receives_commands<E, M: Clone, V, C, F>(
    table: Map<u64, (E, M)>,
    handle: u64,
    entity: E,
    material: M,
    cmd: LuaCommand<V, C, F>,
    after: Map<u64, (E, M)>,
    action: PartAction<E, M, V, C, F>,
)
    requires
        spec_command_handle(cmd) == handle,
        spec_routes(table.insert(handle, (entity, material)), cmd, after, action),
    ensures
        (cmd matches LuaCommand::SetPosition { value, .. } ==> (action == (PartAction::<E, M, V, C, F>::Place { entity, translation: value }))),
        (cmd matches LuaCommand::SetSize { value, .. } ==> (action == (PartAction::<E, M, V, C, F>::Resize { entity, scale: value }))),
        (cmd matches LuaCommand::SetColor { r, g, b, .. } ==> (action matches PartAction::Recolor { material: m2, r: r2, g: g2, b: b2 }
            && cloned(material, m2) && r2 == r && g2 == g && b2 == b)),
        ((cmd is Despawn) ==> action == (PartAction::<E, M, V, C, F>::Remove { entity }) && !after.contains_key(handle)),
{
}

/// Every spawn command asks the scene for a part with exactly the command's
/// handle, position, size and color, whatever parts already exist, and
/// leaves the table as it is (the new part is bound afterwards).
pub proof fn law_spawn_always_asks_for_part<E, M: Clone, V, C, F>(
    table: Map<u64, (E, M)>,
    handle: u64,
    position: V,
    size: V,
    color: C,
    after: Map<u64, (E, M)>,
    action: PartAction<E, M, V, C, F>,
)
    requires
        spec_routes(table, (LuaCommand::<V, C, F>::SpawnPart { handle, position, size, color }), after, action),
    ensures
        action == (PartAction::<E, M, V, C, F>::Spawn { handle, position, size, color }),
        after == table,
{
}

/// Moves, resizes and recolors never change the table; they reach the bound
/// entity or material when the handle is bound and are ignored otherwise.
/// A despawn of a bound handle removes exactly that entry and asks to remove
/// its entity; of an unbound one, it is ignored.
pub proof fn law_route_reaches_bound_parts<E, M: Clone, V, C, F>(
    table: Map<u64, (E, M)>,
    cmd: LuaCommand<V, C, F>,
    after: Map<u64, (E, M)>,
    action: PartAction<E, M, V, C, F>,
)
    requires
        spec_routes(table, cmd, after, action),
    ensures
        !table.contains_key(spec_command_handle(cmd)) && !(cmd is SpawnPart) ==> (action is Ignore) && after == table,
        (cmd matches LuaCommand::SetPosition { handle, value } ==> (table.contains_key(handle)
            ==> action == (PartAction::<E, M, V, C, F>::Place { entity: table[handle].0, translation: value }))),
        (cmd matches LuaCommand::SetSize { handle, value } ==> (table.contains_key(handle)
            ==> action == (PartAction::<E, M, V, C, F>::Resize { entity: table[handle].0, scale: value }))),
        (cmd matches LuaCommand::SetColor { handle, r, g, b } ==> (table.contains_key(handle)
            ==> (action matches PartAction::Recolor { material, r: r2, g: g2, b: b2 }
            && cloned(table[handle].1, material) && r2 == r && g2 == g && b2 == b))),
        (cmd matches LuaCommand::Despawn { handle } ==> (table.contains_key(handle)
            ==> action == (PartAction::<E, M, V, C, F>::Remove { entity: table[handle].0 })
            && after == table.remove(handle))),
        (cmd is Despawn) ==> !after.contains_key(spec_command_handle(cmd)),
        !(cmd is Despawn) ==> after == table,
{
}

/// Each call of `next_handle` hands out a handle one above the previous one,
/// except that the handle after `u64::MAX` is 0.
pub proof fn law_next_handle_is_one_more(counter: u64)
    ensures
        counter < u64::MAX ==> spec_next_counter(counter) == counter + 1,
        counter == u64::MAX ==> spec_next_counter(counter) == 0,
        spec_next_counter(counter) != counter,
{
}

/// After a part is despawned, the commands that still name its handle are
/// ignored and leave the table as it is, until the handle is bound again.
pub proof fn law_despawned_handle_is_ignored<E, M: Clone, V, C, F>(
    table: Map<u64, (E, M)>,
    handle: u64,
    after_despawn: Map<u64, (E, M)>,
    despawn_action: PartAction<E, M, V, C, F>,
    cmd: LuaCommand<V, C, F>,
    after: Map<u64, (E, M)>,
    action: PartAction<E, M, V, C, F>,
)
    requires
        spec_routes(table, (LuaCommand::<V, C, F>::Despawn { handle }), after_despawn, despawn_action),
        spec_routes(after_despawn, cmd, after, action),
        spec_command_handle(cmd) == handle,
        !(cmd is SpawnPart),
    ensures
        action == PartAction::<E, M, V, C, F>::Ignore,
        after == after_despawn,
{
}

/// Routing a command leaves the entries of every other handle as they were,
/// and only a despawn changes the table at all.
pub proof fn law_routing_touches_only_its_handle<E, M: Clone, V, C, F>(
    table: Map<u64, (E, M)>,
    cmd: LuaCommand<V, C, F>,
    after: Map<u64, (E, M)>,
    action: PartAction<E, M, V, C, F>,
    other: u64,
)
    requires
        spec_routes(table, cmd, after, action),
        other != spec_command_handle(cmd),
    ensures
        after.contains_key(other) == table.contains_key(other),
        table.contains_key(other) ==> after[other] == table[other],
        (!(cmd is Despawn) ==> after == table),
{
}

impl<E: Copy, M: Clone> HandleMap<E, M> {
    /// An empty table.
    pub fn new() -> (map: Self)
        ensures
            map@ == Map::<u64, (E, M)>::empty(),
    {
        HandleMap(HashMap::new())
    }

    /// Ties `handle` to the entity and material just made for it, replacing
    /// what it was tied to before.
    pub fn bind(&mut self, handle: u64, entity: E, material: M)
        ensures
            final(self)@ == old(self)@.insert(handle, (entity, material)),
    {
        self.0.insert(handle, (entity, material));
    }

    /// The entity that `handle` is tied to, if any.
    pub fn entity_of(&self, handle: u64) -> (entity: Option<E>)
        ensures
            entity == (if self@.contains_key(handle) { Some(self@[handle].0) } else { None::<E> }),
    {
        match self.0.get(&handle) {
            Some(pair) => Some(pair.0),
            None => None,
        }
    }

    /// Routes one command: says what the scene must do for it, and forgets
    /// the handle of a despawned part. Commands for handles that are not
    /// bound are ignored.
    pub fn route<V, C, F>(&mut self, cmd: LuaCommand<V, C, F>) -> (action: PartAction<E, M, V, C, F>)
        ensures
            spec_routes(old(self)@, cmd, final(self)@, action),
    {
        match cmd {
            LuaCommand::SpawnPart { handle, position, size, color } => {
                PartAction::Spawn { handle, position, size, color }
            },
            LuaCommand::SetPosition { handle, value } => {
                match self.entity_of(handle) {
                    Some(entity) => PartAction::Place { entity, translation: value },
                    None => PartAction::Ignore,
                }
            },
            LuaCommand::SetSize { handle, value } => {
                match self.entity_of(handle) {
                    Some(entity) => PartAction::Resize { entity, scale: value },
                    None => PartAction::Ignore,
                }
            },
            LuaCommand::SetColor { handle, r, g, b } => {
                match self.0.get(&handle) {
                    Some(pair) => PartAction::Recolor { material: pair.1.clone(), r, g, b },
                    None => PartAction::Ignore,
                }
            },
            LuaCommand::Despawn { handle } => {
                match self.0.remove(&handle) {
                    Some(pair) => PartAction::Remove { entity: pair.0 },
                    None => PartAction::Ignore,
                }
            },
        }
    }
}

} // verus!
