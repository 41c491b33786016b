//! Routing of model writes between the main database and the key-value
//! store, and the run-time write settings that steer it.
use vstd::prelude::*;
use crate::text::{join_with, push_str};

verus! {

/// Where model data is written.
#[derive(Clone, Copy, Debug, PartialEq, Eq, Structural)]
pub enum ModelWriteMode {
    /// Only the main database.
    SurrealOnly,
    /// The main database, mirrored to the key-value store when it is connected.
    Dual,
    /// The key-value store first, mirrored to the main database.
    KvOnly,
}

/// One database that a model write goes to.
#[derive(Clone, Copy, Debug, PartialEq, Eq, Structural)]
pub enum ModelWriteTarget {
    Surreal,
    Kv,
}

/// The byte that stores a mode.
pub open spec fn mode_code(mode: ModelWriteMode) -> u8 {
    match mode {
        ModelWriteMode::SurrealOnly => 0,
        ModelWriteMode::Dual => 1,
        ModelWriteMode::KvOnly => 2,
    }
}

/// The mode that a stored byte denotes; unknown bytes denote `SurrealOnly`.
pub open spec fn mode_of_code(raw: u8) -> ModelWriteMode {
    if raw == 1 {
        ModelWriteMode::Dual
    } else if raw == 2 {
        ModelWriteMode::KvOnly
    } else {
        ModelWriteMode::SurrealOnly
    }
}

impl ModelWriteMode {
    /// The byte that stores this mode.
    pub fn to_u8(self) -> (r: u8)
        ensures
            r == mode_code(self),
    {
        match self {
            ModelWriteMode::SurrealOnly => 0,
            ModelWriteMode::Dual => 1,
            ModelWriteMode::KvOnly => 2,
        }
    }

    /// The name of the mode in settings and messages.
    pub fn as_str(self) -> (r: &'static str)
        ensures
            r@ == (match self {
                ModelWriteMode::SurrealOnly => "surreal_only"@,
                ModelWriteMode::Dual => "dual"@,
                ModelWriteMode::KvOnly => "kv_only"@,
            }),
    {
        match self {
            ModelWriteMode::SurrealOnly => "surreal_only",
            ModelWriteMode::Dual => "dual",
            ModelWriteMode::KvOnly => "kv_only",
        }
    }
}

/// The mode that a stored byte denotes; unknown bytes fall back to
/// `SurrealOnly`.
pub fn model_write_mode_from_u8(raw: u8) -> (mode: ModelWriteMode)
    ensures
        mode == mode_of_code(raw),
{
    if raw == 1 {
        ModelWriteMode::Dual
    } else if raw == 2 {
        ModelWriteMode::KvOnly
    } else {
        ModelWriteMode::SurrealOnly
    }
}

/// The databases a model write goes to, primary first.
pub open spec fn write_targets(mode: ModelWriteMode, kv_enabled: bool) -> Seq<ModelWriteTarget> {
    match mode {
        ModelWriteMode::SurrealOnly => seq![ModelWriteTarget::Surreal],
        ModelWriteMode::Dual => if kv_enabled {
            seq![ModelWriteTarget::Surreal, ModelWriteTarget::Kv]
        } else {
            seq![ModelWriteTarget::Surreal]
        },
        ModelWriteMode::KvOnly => if kv_enabled {
            seq![ModelWriteTarget::Kv, ModelWriteTarget::Surreal]
        } else {
            seq![ModelWriteTarget::Surreal]
        },
    }
}

/// The databases a model write goes to in `mode`, the first being the one
/// whose answer counts; the key-value store takes part only when it is
/// connected, and in `KvOnly` mode the main database is kept as a mirror.
pub fn resolve_model_write_targets(mode: ModelWriteMode, kv_enabled: bool) -> (targets: Vec<
    ModelWriteTarget,
>)
    ensures
        targets@ == write_targets(mode, kv_enabled),
{
    let mut targets: Vec<ModelWriteTarget> = Vec::new();
    match mode {
        ModelWriteMode::SurrealOnly => {
            targets.push(ModelWriteTarget::Surreal);
        },
        ModelWriteMode::Dual => {
            targets.push(ModelWriteTarget::Surreal);
            if kv_enabled {
                targets.push(ModelWriteTarget::Kv);
            }
        },
        ModelWriteMode::KvOnly => {
            if kv_enabled {
                targets.push(ModelWriteTarget::Kv);
            }
            targets.push(ModelWriteTarget::Surreal);
        },
    }
    targets
}

/// The primary target and the mirrors of a target list; none for an
/// empty list.
pub fn split_primary(targets: &Vec<ModelWriteTarget>) -> (r: Option<
    (ModelWriteTarget, Vec<ModelWriteTarget>),
>)
    ensures
        targets@.len() == 0 ==> r is None,
        targets@.len() > 0 ==> (r matches Some((p, mirrors)) && p == targets@[0] && mirrors@
            == targets@.drop_first()),
{
    if targets.len() == 0 {
        return None;
    }
    let mut mirrors: Vec<ModelWriteTarget> = Vec::new();
    let mut i: usize = 1;
    while i < targets.len()
        invariant
            1 <= i <= targets.len(),
            mirrors@ == targets@.subrange(1, i as int),
        decreases targets.len() - i,
    {
        mirrors.push(targets[i]);
        assert(targets@.subrange(1, i + 1) =~= targets@.subrange(1, i as int).push(targets@[i as int]));
        i = i + 1;
    }
    assert(mirrors@ =~= targets@.drop_first());
    Some((targets[0], mirrors))
}

/// The run-time write settings: the current mode and whether the key-value
/// store is connected.
pub struct ModelWriteRegistry {
    mode_code: u8,
    kv_enabled: bool,
}

impl ModelWriteRegistry {
    /// The stored mode byte.
    pub closed spec fn stored_code(self) -> u8 {
        self.mode_code
    }

    /// Whether the key-value store is connected.
    pub closed spec fn kv_connected(self) -> bool {
        self.kv_enabled
    }

    /// Settings at start-up: `SurrealOnly`, key-value store not connected.
    pub fn new() -> (r: Self)
        ensures
            mode_of_code(r.stored_code()) == ModelWriteMode::SurrealOnly,
            !r.kv_connected(),
    {
        ModelWriteRegistry { mode_code: 0, kv_enabled: false }
    }

    /// Records that the key-value store has been connected.
    pub fn mark_kv_enabled(&mut self)
        ensures
            final(self).kv_connected(),
            final(self).stored_code() == old(self).stored_code(),
            op_result(*old(self), *final(self), RegistryOp::MarkKvEnabled),
    {
        self.kv_enabled = true;
    }
}

/// The current write mode.
pub fn current_model_write_mode(registry: &ModelWriteRegistry) -> (mode: ModelWriteMode)
    ensures
        mode == mode_of_code(registry.stored_code()),
{
    model_write_mode_from_u8(registry.mode_code)
}

/// Sets the write mode.
pub fn set_model_write_mode(registry: &mut ModelWriteRegistry, mode: ModelWriteMode)
    ensures
        final(registry).stored_code() == mode_code(mode),
        final(registry).kv_connected() == old(registry).kv_connected(),
        op_result(*old(registry), *final(registry), RegistryOp::SetMode(mode)),
{
    registry.mode_code = mode.to_u8();
}

/// Whether the key-value store is connected.
pub fn is_model_kv_enabled(registry: &ModelWriteRegistry) -> (r: bool)
    ensures
        r == registry.kv_connected(),
{
    registry.kv_enabled
}

/// The targets of a write in `mode` under the current settings.
pub fn resolve_runtime_model_write_targets(registry: &ModelWriteRegistry, mode: ModelWriteMode) -> (targets: Vec<ModelWriteTarget>)
    ensures
        targets@ == write_targets(mode, registry.kv_connected()),
{
    resolve_model_write_targets(mode, is_model_kv_enabled(registry))
}

/// Whether a statement is also sent to the key-value store as a dual write:
/// only when it is connected and the mode is `Dual`.
pub fn should_dual_write(registry: &ModelWriteRegistry) -> (r: bool)
    ensures
        r == (registry.kv_connected() && mode_of_code(registry.stored_code())
            == ModelWriteMode::Dual),
{
    is_model_kv_enabled(registry) && current_model_write_mode(registry) == ModelWriteMode::Dual
}

/// A change made to the run-time write settings: marking the key-value
/// store connected, or storing a write mode.
#[derive(Clone, Copy, Debug, PartialEq, Eq, Structural)]
pub enum RegistryOp {
    MarkKvEnabled,
    SetMode(ModelWriteMode),
}

/// `after` is `before` changed by `op`, as `mark_kv_enabled` and
/// `set_model_write_mode` state it.
pub open spec fn op_result(before: ModelWriteRegistry, after: ModelWriteRegistry, op: RegistryOp) -> bool {
    match op {
        RegistryOp::MarkKvEnabled => after.kv_connected() && after.stored_code()
            == before.stored_code(),
        RegistryOp::SetMode(mode) => after.stored_code() == mode_code(mode) && after.kv_connected()
            == before.kv_connected(),
    }
}

/// The settings run through `ops`: `states[k + 1]` is `states[k]` changed
/// by `ops[k]`.
pub open spec fn is_run(states: Seq<ModelWriteRegistry>, ops: Seq<RegistryOp>) -> bool {
    &&& states.len() == ops.len() + 1
    &&& forall|k: int| 0 <= k < ops.len() ==> op_result(#[trigger] states[k], states[k + 1], ops[k])
}

/// Once the key-value store is marked connected it stays so: no change of
/// the settings resets the mark. And a run that starts unmarked stays
/// unmarked until some change marks it.
pub proof fn lemma_kv_enabled_never_reset(
    states: Seq<ModelWriteRegistry>,
    ops: Seq<RegistryOp>,
    i: int,
    j: int,
)
    requires
        is_run(states, ops),
        0 <= i <= j < states.len(),
    ensures
        states[i].kv_connected() ==> states[j].kv_connected(),
        (!states[i].kv_connected() && forall|k: int| i <= k < j ==> ops[k] != RegistryOp::MarkKvEnabled)
            ==> !states[j].kv_connected(),
    decreases j - i,
{
    if i < j {
        lemma_kv_enabled_never_reset(states, ops, i, j - 1);
        assert(op_result(states[j - 1], states[j], ops[j - 1]));
    }
}

/// Every mode survives its stored byte.
pub proof fn lemma_mode_code_roundtrip(mode: ModelWriteMode)
    ensures
        mode_of_code(mode_code(mode)) == mode,
{
}

/// The main database always receives model writes; the key-value store
/// receives them exactly when it is connected and the mode is not
/// `SurrealOnly`; it is the primary exactly in `KvOnly` mode with the store
/// connected; no target appears twice.
pub proof fn lemma_write_targets_shape(mode: ModelWriteMode, kv_enabled: bool)
    ensures
        write_targets(mode, kv_enabled).len() >= 1,
        write_targets(mode, kv_enabled).contains(ModelWriteTarget::Surreal),
        write_targets(mode, kv_enabled).contains(ModelWriteTarget::Kv) <==> (kv_enabled && mode
            != ModelWriteMode::SurrealOnly),
        (write_targets(mode, kv_enabled)[0] == ModelWriteTarget::Kv) <==> (kv_enabled && mode
            == ModelWriteMode::KvOnly),
        write_targets(mode, kv_enabled).no_duplicates(),
{
    let t = write_targets(mode, kv_enabled);
    if kv_enabled && mode != ModelWriteMode::SurrealOnly {
        assert(t.len() == 2);
        if mode == ModelWriteMode::Dual {
            assert(t[0] == ModelWriteTarget::Surreal);
            assert(t[1] == ModelWriteTarget::Kv);
        } else {
            assert(t[0] == ModelWriteTarget::Kv);
            assert(t[1] == ModelWriteTarget::Surreal);
        }
    } else {
        assert(t.len() == 1);
        assert(t[0] == ModelWriteTarget::Surreal);
        assert(!t.contains(ModelWriteTarget::Kv)) by {
            if t.contains(ModelWriteTarget::Kv) {
                let k = choose|k: int| 0 <= k < t.len() && t[k] == ModelWriteTarget::Kv;
                assert(k == 0);
            }
        }
    }
}

/// The nouns, each in single quotes, separated by commas.
pub open spec fn quoted_list(nouns: Seq<Seq<char>>) -> Seq<char> {
    join_with(nouns.map_values(|s: Seq<char>| "'"@ + s + "'"@), ","@)
}

/// The SurrealQL list body `'A','B',...` for the given nouns.
pub fn convert_to_sql_str_array(nouns: &[&str]) -> (r: String)
    ensures
        r@ == quoted_list(nouns@.map_values(|s: &str| s@)),
{
    let ghost views = nouns@.map_values(|s: &str| s@);
    let ghost items = views.map_values(|s: Seq<char>| "'"@ + s + "'"@);
    let mut r = String::new();
    let mut i: usize = 0;
    while i < nouns.len()
        invariant
            i <= nouns.len(),
            views == nouns@.map_values(|s: &str| s@),
            items == views.map_values(|s: Seq<char>| "'"@ + s + "'"@),
            r@ == join_with(items.take(i as int), ","@),
        decreases nouns.len() - i,
    {
        assert(items.take(i + 1).drop_last() =~= items.take(i as int));
        if i > 0 {
            push_str(&mut r, ",");
        }
        let ghost before = r@;
        push_str(&mut r, "'");
        push_str(&mut r, nouns[i]);
        push_str(&mut r, "'");
        assert(r@ =~= before + items[i as int]);
        i = i + 1;
    }
    assert(items.take(nouns.len() as int) =~= items);
    r
}

} // verus!
