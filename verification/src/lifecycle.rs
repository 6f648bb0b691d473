//! Lifecycle Orchestrator: the decisions and action plans behind each
//! lifecycle command. Every command is decided here from plain observed
//! values; the surrounding binary performs the adapter calls in the order a
//! plan gives and never reorders them.
use crate::text::str_eq;
use crate::ServiceError;
use vstd::prelude::*;
use vstd::string::*;

verus! {

broadcast use vstd::string::group_string_axioms;

/// The manager's live run-state of a unit. Only a few values are
/// contractually significant; everything else is kept verbatim.
#[derive(Debug, Clone, PartialEq, Eq)]
pub enum ActiveState {
    Active,
    Reloading,
    Failed,
    /// The sentinel for a unit the manager does not know.
    InvalidUnitPath,
    Unknown(String),
}

/// Whether a unit is persisted to start at boot.
#[derive(Debug, Clone, PartialEq, Eq)]
pub enum UnitFileState {
    Enabled,
    EnabledRuntime,
    InvalidUnitPath,
    Unknown(String),
}

/// The manager's load-state of a unit; significant only for telling a
/// known unit from an unknown one.
#[derive(Debug, Clone, PartialEq, Eq)]
pub enum LoadState {
    NotFound,
    InvalidUnitPath,
    Unknown(String),
}

/// Classifies the manager's active-state string.
pub fn parse_active_state(s: &str) -> (r: ActiveState)
    ensures
        r is Active <==> s@ == "active"@,
        r is Reloading <==> s@ == "reloading"@,
        r is Failed <==> s@ == "failed"@,
        r is InvalidUnitPath <==> s@ == "invalid-unit-path"@,
        r matches ActiveState::Unknown(raw) ==> raw@ == s@,
{
    proof {
        reveal_strlit("active");
        reveal_strlit("reloading");
        reveal_strlit("failed");
        reveal_strlit("invalid-unit-path");
        assert("active"@.len() == 6 && "reloading"@.len() == 9 && "failed"@.len() == 6
            && "invalid-unit-path"@.len() == 17);
        assert("active"@[0] == 'a' && "failed"@[0] == 'f');
        assert("active"@ != "failed"@);
    }
    if str_eq(s, "active") {
        ActiveState::Active
    } else if str_eq(s, "reloading") {
        ActiveState::Reloading
    } else if str_eq(s, "failed") {
        ActiveState::Failed
    } else if str_eq(s, "invalid-unit-path") {
        ActiveState::InvalidUnitPath
    } else {
        ActiveState::Unknown(String::from_str(s))
    }
}

/// Classifies the manager's unit-file-state string.
pub fn parse_unit_file_state(s: &str) -> (r: UnitFileState)
    ensures
        r is Enabled <==> s@ == "enabled"@,
        r is EnabledRuntime <==> s@ == "enabled-runtime"@,
        r is InvalidUnitPath <==> s@ == "invalid-unit-path"@,
        r matches UnitFileState::Unknown(raw) ==> raw@ == s@,
{
    proof {
        reveal_strlit("enabled");
        reveal_strlit("enabled-runtime");
        reveal_strlit("invalid-unit-path");
        assert("enabled"@.len() == 7 && "enabled-runtime"@.len() == 15
            && "invalid-unit-path"@.len() == 17);
    }
    if str_eq(s, "enabled") {
        UnitFileState::Enabled
    } else if str_eq(s, "enabled-runtime") {
        UnitFileState::EnabledRuntime
    } else if str_eq(s, "invalid-unit-path") {
        UnitFileState::InvalidUnitPath
    } else {
        UnitFileState::Unknown(String::from_str(s))
    }
}

/// Classifies the manager's load-state string.
pub fn parse_load_state(s: &str) -> (r: LoadState)
    ensures
        r is NotFound <==> s@ == "not-found"@,
        r is InvalidUnitPath <==> s@ == "invalid-unit-path"@,
        r matches LoadState::Unknown(raw) ==> raw@ == s@,
{
    proof {
        reveal_strlit("not-found");
        reveal_strlit("invalid-unit-path");
        assert("not-found"@.len() == 9 && "invalid-unit-path"@.len() == 17);
    }
    if str_eq(s, "not-found") {
        LoadState::NotFound
    } else if str_eq(s, "invalid-unit-path") {
        LoadState::InvalidUnitPath
    } else {
        LoadState::Unknown(String::from_str(s))
    }
}

/// A unit is persisted to start at boot exactly when its unit-file state
/// is `enabled` or `enabled-runtime`.
pub fn enabled_on_boot(state: &UnitFileState) -> (r: bool)
    ensures
        r == (state is Enabled || state is EnabledRuntime),
{
    match state {
        UnitFileState::Enabled => true,
        UnitFileState::EnabledRuntime => true,
        _ => false,
    }
}

/// The manager knows the unit: its load-state is neither the unknown-unit
/// sentinel nor `not-found`.
pub fn names_existing_unit(load: &LoadState) -> (r: bool)
    ensures
        r == !(load is NotFound || load is InvalidUnitPath),
{
    match load {
        LoadState::NotFound => false,
        LoadState::InvalidUnitPath => false,
        _ => true,
    }
}

/// One adapter or file-system action of a lifecycle plan, on a full unit
/// name. The executor performs them in plan order.
#[derive(Debug, Clone, PartialEq, Eq)]
pub enum Action {
    StartUnit(String),
    StopUnit(String),
    EnableUnit(String),
    DisableUnit(String),
    ReloadUnit(String),
    /// Reload of the manager's own unit-file cache, owed after every
    /// enable or disable.
    ReloadManager,
    CopyUnitFile(String, String),
    RemoveUnitFile(String),
}

/// The mathematical shadow of an action, over character sequences.
pub enum ActionModel {
    StartUnit(Seq<char>),
    StopUnit(Seq<char>),
    EnableUnit(Seq<char>),
    DisableUnit(Seq<char>),
    ReloadUnit(Seq<char>),
    ReloadManager,
    CopyUnitFile(Seq<char>, Seq<char>),
    RemoveUnitFile(Seq<char>),
}

impl View for Action {
    type V = ActionModel;

    open spec fn view(&self) -> ActionModel {
        match self {
            Action::StartUnit(u) => ActionModel::StartUnit(u@),
            Action::StopUnit(u) => ActionModel::StopUnit(u@),
            Action::EnableUnit(u) => ActionModel::EnableUnit(u@),
            Action::DisableUnit(u) => ActionModel::DisableUnit(u@),
            Action::ReloadUnit(u) => ActionModel::ReloadUnit(u@),
            Action::ReloadManager => ActionModel::ReloadManager,
            Action::CopyUnitFile(a, b) => ActionModel::CopyUnitFile(a@, b@),
            Action::RemoveUnitFile(u) => ActionModel::RemoveUnitFile(u@),
        }
    }
}

impl DeepView for Action {
    type V = ActionModel;

    open spec fn deep_view(&self) -> ActionModel {
        self.view()
    }
}

/// Start is issued only when the unit is neither already active nor
/// reloading; otherwise the command is a reported no-op, and no adapter
/// start call is made.
pub fn start_decision(active: &ActiveState) -> (issue: bool)
    ensures
        issue == !(active is Active || active is Reloading),
{
    match active {
        ActiveState::Active => false,
        ActiveState::Reloading => false,
        _ => true,
    }
}

/// Reload is forwarded to the adapter only for a unit in the `failed`
/// state; for every other state it is refused without an adapter call.
pub fn reload_decision(active: &ActiveState) -> (forward: bool)
    ensures
        forward <==> active is Failed,
{
    match active {
        ActiveState::Failed => true,
        _ => false,
    }
}

/// Create is rejected when a unit file already exists at the target path
/// and no overwrite was requested; it proceeds otherwise.
pub fn create_decision(unit_file_exists: bool, overwrite: bool) -> (r: Result<(), ServiceError>)
    ensures
        r is Ok <==> (!unit_file_exists || overwrite),
        r is Err ==> r == Err::<(), ServiceError>(ServiceError::AlreadyExists),
{
    if unit_file_exists && !overwrite {
        Err(ServiceError::AlreadyExists)
    } else {
        Ok(())
    }
}

/// An overwriting start aborts when the unit is currently active or
/// reloading and no force was given.
pub fn overwrite_abort_decision(active: &ActiveState, force: bool) -> (proceed: bool)
    ensures
        proceed == !((active is Active || active is Reloading) && !force),
{
    let busy = match active {
        ActiveState::Active => true,
        ActiveState::Reloading => true,
        _ => false,
    };
    !busy || force
}

/// The plan of a start command: the start call when one is owed, then
/// boot persistence when asked for and not already in place.
pub open spec fn spec_start_plan(
    unit: Seq<char>,
    active: ActiveState,
    want_enable: bool,
    already_enabled: bool,
) -> Seq<ActionModel> {
    let start_part: Seq<ActionModel> = if !(active is Active || active is Reloading) {
        seq![ActionModel::StartUnit(unit)]
    } else {
        Seq::empty()
    };
    let enable_part: Seq<ActionModel> = if want_enable && !already_enabled {
        seq![ActionModel::EnableUnit(unit), ActionModel::ReloadManager]
    } else {
        Seq::empty()
    };
    start_part + enable_part
}

/// Builds the start plan from the observed state.
pub fn start_plan(full_name: &str, active: &ActiveState, want_enable: bool, already_enabled: bool)
    -> (r: Vec<Action>)
    ensures
        r.deep_view() == spec_start_plan(full_name@, *active, want_enable, already_enabled),
{
    let mut out: Vec<Action> = Vec::new();
    if start_decision(active) {
        out.push(Action::StartUnit(String::from_str(full_name)));
    }
    if want_enable && !already_enabled {
        out.push(Action::EnableUnit(String::from_str(full_name)));
        out.push(Action::ReloadManager);
    }
    proof {
        assert(out.deep_view() =~= spec_start_plan(full_name@, *active, want_enable, already_enabled));
    }
    out
}

/// The plan of a stop command: one unconditional stop request, whatever
/// the current state; the adapter treats stopping an inactive unit as
/// idempotent.
pub open spec fn spec_stop_plan(unit: Seq<char>) -> Seq<ActionModel> {
    seq![ActionModel::StopUnit(unit)]
}

/// Builds the stop plan.
pub fn stop_plan(full_name: &str) -> (r: Vec<Action>)
    ensures
        r.deep_view() == spec_stop_plan(full_name@),
{
    let mut out: Vec<Action> = Vec::new();
    out.push(Action::StopUnit(String::from_str(full_name)));
    proof {
        assert(out.deep_view() =~= spec_stop_plan(full_name@));
    }
    out
}

/// The plan of an enable command: the enable call, then exactly one reload
/// of the manager's unit-file cache, without which the manager would not
/// observe the persisted change.
pub open spec fn spec_enable_plan(unit: Seq<char>) -> Seq<ActionModel> {
    seq![ActionModel::EnableUnit(unit), ActionModel::ReloadManager]
}

/// Builds the enable plan.
pub fn enable_plan(full_name: &str) -> (r: Vec<Action>)
    ensures
        r.deep_view() == spec_enable_plan(full_name@),
{
    let mut out: Vec<Action> = Vec::new();
    out.push(Action::EnableUnit(String::from_str(full_name)));
    out.push(Action::ReloadManager);
    proof {
        assert(out.deep_view() =~= spec_enable_plan(full_name@));
    }
    out
}

/// The plan of a disable command: the disable call, then exactly one
/// manager-cache reload, as for enable.
pub open spec fn spec_disable_plan(unit: Seq<char>) -> Seq<ActionModel> {
    seq![ActionModel::DisableUnit(unit), ActionModel::ReloadManager]
}

/// Builds the disable plan.
pub fn disable_plan(full_name: &str) -> (r: Vec<Action>)
    ensures
        r.deep_view() == spec_disable_plan(full_name@),
{
    let mut out: Vec<Action> = Vec::new();
    out.push(Action::DisableUnit(String::from_str(full_name)));
    out.push(Action::ReloadManager);
    proof {
        assert(out.deep_view() =~= spec_disable_plan(full_name@));
    }
    out
}

/// The plan of a delete command: stop, disable (with its owed reload),
/// then remove the unit file, in that order. Every step is attempted even
/// when an earlier one was a no-op.
pub open spec fn spec_delete_plan(unit: Seq<char>) -> Seq<ActionModel> {
    seq![
        ActionModel::StopUnit(unit),
        ActionModel::DisableUnit(unit),
        ActionModel::ReloadManager,
        ActionModel::RemoveUnitFile(unit),
    ]
}

/// Builds the delete plan.
pub fn delete_plan(full_name: &str) -> (r: Vec<Action>)
    ensures
        r.deep_view() == spec_delete_plan(full_name@),
{
    let mut out: Vec<Action> = Vec::new();
    out.push(Action::StopUnit(String::from_str(full_name)));
    out.push(Action::DisableUnit(String::from_str(full_name)));
    out.push(Action::ReloadManager);
    out.push(Action::RemoveUnitFile(String::from_str(full_name)));
    proof {
        assert(out.deep_view() =~= spec_delete_plan(full_name@));
    }
    out
}

/// The plan of a rename: duplicate the unit file first, then delete the
/// old unit, then replay the state captured *before* any mutation onto the
/// new unit. Capturing after deletion is impossible, and deleting before
/// duplicating would destroy the source, so this order is load-bearing.
pub open spec fn spec_rename_plan(
    old_unit: Seq<char>,
    new_unit: Seq<char>,
    was_active: bool,
    was_enabled: bool,
) -> Seq<ActionModel> {
    let start_part: Seq<ActionModel> = if was_active {
        seq![ActionModel::StartUnit(new_unit)]
    } else {
        Seq::empty()
    };
    let enable_part: Seq<ActionModel> = if was_enabled {
        seq![ActionModel::EnableUnit(new_unit), ActionModel::ReloadManager]
    } else {
        Seq::empty()
    };
    seq![ActionModel::CopyUnitFile(old_unit, new_unit)] + spec_delete_plan(old_unit) + start_part
        + enable_part
}

/// Builds the rename plan from the state captured before any mutation.
pub fn rename_plan(old_full_name: &str, new_full_name: &str, was_active: bool, was_enabled: bool)
    -> (r: Vec<Action>)
    ensures
        r.deep_view() == spec_rename_plan(old_full_name@, new_full_name@, was_active, was_enabled),
{
    let mut out: Vec<Action> = Vec::new();
    out.push(
        Action::CopyUnitFile(String::from_str(old_full_name), String::from_str(new_full_name)),
    );
    out.push(Action::StopUnit(String::from_str(old_full_name)));
    out.push(Action::DisableUnit(String::from_str(old_full_name)));
    out.push(Action::ReloadManager);
    out.push(Action::RemoveUnitFile(String::from_str(old_full_name)));
    if was_active {
        out.push(Action::StartUnit(String::from_str(new_full_name)));
    }
    if was_enabled {
        out.push(Action::EnableUnit(String::from_str(new_full_name)));
        out.push(Action::ReloadManager);
    }
    proof {
        assert(out.deep_view() =~= spec_rename_plan(
            old_full_name@,
            new_full_name@,
            was_active,
            was_enabled,
        ));
    }
    out
}

/// A command that reads a service's unit file requires the file to exist.
pub fn require_unit_file(unit_file_exists: bool) -> (r: Result<(), ServiceError>)
    ensures
        r is Ok <==> unit_file_exists,
        r is Err ==> r == Err::<(), ServiceError>(ServiceError::NotFound),
{
    if unit_file_exists {
        Ok(())
    } else {
        Err(ServiceError::NotFound)
    }
}

/// The outcome of a delete: a stop or disable the adapter rejected is an
/// adapter error; a file removal that failed after those steps succeeded
/// is a partial failure, because the manager's registration has already
/// changed and there is no safe rollback.
pub fn delete_outcome(stop_ok: bool, disable_ok: bool, remove_ok: bool) -> (r: Result<
    (),
    ServiceError,
>)
    ensures
        r is Ok <==> (stop_ok && disable_ok && remove_ok),
        (!stop_ok || !disable_ok) ==> r == Err::<(), ServiceError>(ServiceError::AdapterError),
        (stop_ok && disable_ok && !remove_ok) ==> r == Err::<(), ServiceError>(
            ServiceError::PartialFailure,
        ),
{
    if !stop_ok || !disable_ok {
        Err(ServiceError::AdapterError)
    } else if !remove_ok {
        Err(ServiceError::PartialFailure)
    } else {
        Ok(())
    }
}

/// How many times a plan reloads the manager's unit-file cache.
pub open spec fn spec_count_manager_reloads(p: Seq<ActionModel>) -> nat
    decreases p.len(),
{
    if p.len() == 0 {
        0
    } else {
        spec_count_manager_reloads(p.drop_last()) + (if p.last() is ReloadManager {
            1nat
        } else {
            0nat
        })
    }
}

/// How many start calls a plan makes.
pub open spec fn spec_count_starts(p: Seq<ActionModel>) -> nat
    decreases p.len(),
{
    if p.len() == 0 {
        0
    } else {
        spec_count_starts(p.drop_last()) + (if p.last() is StartUnit {
            1nat
        } else {
            0nat
        })
    }
}

/// Enable and disable each trigger exactly one manager-cache reload per
/// invocation.
pub proof fn lemma_enable_disable_reload_once(unit: Seq<char>)
    ensures
        spec_count_manager_reloads(spec_enable_plan(unit)) == 1,
        spec_count_manager_reloads(spec_disable_plan(unit)) == 1,
{
    reveal_with_fuel(spec_count_manager_reloads, 4);
    let e = spec_enable_plan(unit);
    assert(e.drop_last() =~= seq![ActionModel::EnableUnit(unit)]);
    assert(e.drop_last().drop_last() =~= Seq::<ActionModel>::empty());
    let d = spec_disable_plan(unit);
    assert(d.drop_last() =~= seq![ActionModel::DisableUnit(unit)]);
    assert(d.drop_last().drop_last() =~= Seq::<ActionModel>::empty());
}

/// A start command against a unit that is already active or reloading
/// issues no start call at all.
pub proof fn lemma_start_noop_when_running(
    unit: Seq<char>,
    active: ActiveState,
    want_enable: bool,
    already_enabled: bool,
)
    requires
        active is Active || active is Reloading,
    ensures
        spec_count_starts(spec_start_plan(unit, active, want_enable, already_enabled)) == 0,
{
    reveal_with_fuel(spec_count_starts, 4);
    let p = spec_start_plan(unit, active, want_enable, already_enabled);
    if want_enable && !already_enabled {
        assert(p =~= seq![ActionModel::EnableUnit(unit), ActionModel::ReloadManager]);
        assert(p.drop_last() =~= seq![ActionModel::EnableUnit(unit)]);
        assert(p.drop_last().drop_last() =~= Seq::<ActionModel>::empty());
    } else {
        assert(p =~= Seq::<ActionModel>::empty());
    }
}

/// The model of one unit as the manager and the file system hold it.
pub struct UnitModel {
    pub file_exists: bool,
    pub active: bool,
    pub enabled: bool,
}

/// How one action changes the modelled units. Start and enable take
/// effect only on a unit whose file exists; copying duplicates the file
/// under the new name; removal erases the file.
pub open spec fn spec_apply_action(
    m: Map<Seq<char>, UnitModel>,
    a: ActionModel,
) -> Map<Seq<char>, UnitModel> {
    match a {
        ActionModel::StartUnit(u) => {
            if m.dom().contains(u) && m[u].file_exists {
                m.insert(u, UnitModel { active: true, ..m[u] })
            } else {
                m
            }
        },
        ActionModel::StopUnit(u) => {
            if m.dom().contains(u) {
                m.insert(u, UnitModel { active: false, ..m[u] })
            } else {
                m
            }
        },
        ActionModel::EnableUnit(u) => {
            if m.dom().contains(u) && m[u].file_exists {
                m.insert(u, UnitModel { enabled: true, ..m[u] })
            } else {
                m
            }
        },
        ActionModel::DisableUnit(u) => {
            if m.dom().contains(u) {
                m.insert(u, UnitModel { enabled: false, ..m[u] })
            } else {
                m
            }
        },
        ActionModel::ReloadUnit(_) => m,
        ActionModel::ReloadManager => m,
        ActionModel::CopyUnitFile(old_name, new_name) => {
            if m.dom().contains(old_name) && m[old_name].file_exists && m.dom().contains(new_name) {
                m.insert(new_name, UnitModel { file_exists: true, ..m[new_name] })
            } else {
                m
            }
        },
        ActionModel::RemoveUnitFile(u) => {
            if m.dom().contains(u) {
                m.insert(u, UnitModel { file_exists: false, ..m[u] })
            } else {
                m
            }
        },
    }
}

/// A plan applied in order, first action first.
pub open spec fn spec_apply_plan(
    m: Map<Seq<char>, UnitModel>,
    p: Seq<ActionModel>,
) -> Map<Seq<char>, UnitModel>
    decreases p.len(),
{
    if p.len() == 0 {
        m
    } else {
        spec_apply_plan(spec_apply_action(m, p.first()), p.drop_first())
    }
}

/// Renaming an active, enabled unit leaves the new unit active and
/// enabled and the old unit gone: no file, not active, not enabled.
pub proof fn lemma_rename_replays_state(
    m: Map<Seq<char>, UnitModel>,
    old_name: Seq<char>,
    new_name: Seq<char>,
)
    requires
        old_name != new_name,
        m.dom().contains(old_name),
        m.dom().contains(new_name),
        m[old_name].file_exists,
        m[old_name].active,
        m[old_name].enabled,
    ensures
        ({
            let end = spec_apply_plan(m, spec_rename_plan(old_name, new_name, true, true));
            &&& end[new_name].file_exists
            &&& end[new_name].active
            &&& end[new_name].enabled
            &&& !end[old_name].file_exists
            &&& !end[old_name].active
            &&& !end[old_name].enabled
        }),
{
    reveal_with_fuel(spec_apply_plan, 10);
    let p = spec_rename_plan(old_name, new_name, true, true);
    let a0 = ActionModel::CopyUnitFile(old_name, new_name);
    let a1 = ActionModel::StopUnit(old_name);
    let a2 = ActionModel::DisableUnit(old_name);
    let a3 = ActionModel::ReloadManager;
    let a4 = ActionModel::RemoveUnitFile(old_name);
    let a5 = ActionModel::StartUnit(new_name);
    let a6 = ActionModel::EnableUnit(new_name);
    let a7 = ActionModel::ReloadManager;
    assert(p =~= seq![a0, a1, a2, a3, a4, a5, a6, a7]);
    let m0 = spec_apply_action(m, a0);
    let m1 = spec_apply_action(m0, a1);
    let m2 = spec_apply_action(m1, a2);
    let m3 = spec_apply_action(m2, a3);
    let m4 = spec_apply_action(m3, a4);
    let m5 = spec_apply_action(m4, a5);
    let m6 = spec_apply_action(m5, a6);
    let m7 = spec_apply_action(m6, a7);
    assert(p.drop_first() =~= seq![a1, a2, a3, a4, a5, a6, a7]);
    assert(p.drop_first().drop_first() =~= seq![a2, a3, a4, a5, a6, a7]);
    assert(p.drop_first().drop_first().drop_first() =~= seq![a3, a4, a5, a6, a7]);
    assert(p.drop_first().drop_first().drop_first().drop_first() =~= seq![a4, a5, a6, a7]);
    assert(p.drop_first().drop_first().drop_first().drop_first().drop_first() =~= seq![
        a5,
        a6,
        a7,
    ]);
    assert(p.drop_first().drop_first().drop_first().drop_first().drop_first().drop_first() =~= seq![
        a6,
        a7,
    ]);
    assert(p.drop_first().drop_first().drop_first().drop_first().drop_first().drop_first()
        .drop_first() =~= seq![a7]);
    assert(p.drop_first().drop_first().drop_first().drop_first().drop_first().drop_first()
        .drop_first().drop_first() =~= Seq::<ActionModel>::empty());
    assert(spec_apply_plan(m, p) == m7);
    assert(m0[new_name].file_exists);
    assert(m4[new_name].file_exists && !m4[old_name].file_exists && !m4[old_name].active
        && !m4[old_name].enabled);
    assert(m5[new_name].active && m5[new_name].file_exists);
    assert(m6[new_name].enabled && m6[new_name].active && m6[new_name].file_exists);
}

} // verus!
