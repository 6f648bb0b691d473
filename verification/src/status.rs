//! Status Aggregator assembly: one consistent snapshot row per discovered
//! unit, plus the small derivations around the report — file paths of a
//! unit, the log command's arguments, the resolved path of an executable
//! found on the user's search path, and the outcome test of a manual edit.
use crate::lifecycle::{enabled_on_boot, ActiveState, UnitFileState};
use crate::service_names::{get_service_file_path, spec_config_dir};
use crate::text::{spec_dec_digits, spec_trim_end, trim_end_ws, u64_to_dec_string};
use crate::unit_path::{get_unit_path, spec_unit_path};
use crate::ServiceError;
use vstd::prelude::*;
use vstd::string::*;

verus! {

broadcast use vstd::string::group_string_axioms;

/// One row of the status report. The process id, CPU share and memory are
/// zero for a unit that is not active.
#[derive(Debug, Clone)]
pub struct ServiceStatusSnapshot {
    /// The short service name.
    pub name: String,
    /// The main process id; zero when inactive.
    pub pid: u32,
    /// Whether the unit's run-state is `active`.
    pub is_active: bool,
    /// Whether the unit starts at boot.
    pub is_enabled_on_boot: bool,
    /// CPU usage in percent over the sampling window; zero when inactive.
    pub cpu_percent: u64,
    /// Resident memory in kilobytes; zero when inactive.
    pub memory_kb: u64,
}

/// Assembles one snapshot row from the queried values. The resource fields
/// pass through only for an active unit: an inactive or failed unit
/// reports zeros, never stale readings.
pub fn build_snapshot(
    short_name: String,
    active: &ActiveState,
    unit_file_state: &UnitFileState,
    pid: u32,
    cpu_percent: u64,
    memory_kb: u64,
) -> (r: ServiceStatusSnapshot)
    ensures
        r.name == short_name,
        r.is_active == (active is Active),
        r.is_enabled_on_boot == (unit_file_state is Enabled || unit_file_state is EnabledRuntime),
        active is Active ==> (r.pid == pid && r.cpu_percent == cpu_percent && r.memory_kb
            == memory_kb),
        !(active is Active) ==> (r.pid == 0 && r.cpu_percent == 0 && r.memory_kb == 0),
{
    let is_active = match active {
        ActiveState::Active => true,
        _ => false,
    };
    let boot = enabled_on_boot(unit_file_state);
    if is_active {
        ServiceStatusSnapshot {
            name: short_name,
            pid,
            is_active: true,
            is_enabled_on_boot: boot,
            cpu_percent,
            memory_kb,
        }
    } else {
        ServiceStatusSnapshot {
            name: short_name,
            pid: 0,
            is_active: false,
            is_enabled_on_boot: boot,
            cpu_percent: 0,
            memory_kb: 0,
        }
    }
}

/// What `bytesize` renders a byte count as. The rendering depends on the
/// count alone.
pub uninterp spec fn byte_size_display(bytes: u64) -> Seq<char>;

/// Relies on `bytesize::ByteSize`'s display: a human-readable rendering of
/// a byte count, a pure function of the count, never empty (a count below
/// one thousand renders as the count and `B`).
#[verifier::external_body]
pub fn format_byte_size(bytes: u64) -> (r: String)
    ensures
        r@ == byte_size_display(bytes),
        r@.len() > 0,
{
    bytesize::ByteSize(bytes).to_string()
}

/// A human-readable rendering of a snapshot's memory column.
pub fn memory_display(snapshot: &ServiceStatusSnapshot) -> (r: String)
    ensures
        snapshot.memory_kb <= 0xFFFF_FFFF_FFFF ==> r@ == byte_size_display(
            (snapshot.memory_kb * 1024) as u64,
        ),
        r@.len() > 0,
{
    if snapshot.memory_kb <= 0xFFFF_FFFF_FFFF {
        format_byte_size(snapshot.memory_kb * 1024)
    } else {
        format_byte_size(u64::MAX)
    }
}

/// One named file path of a service, a row of the path report.
#[derive(Debug, Clone)]
pub struct PathStatus {
    /// What the path is.
    pub name: String,
    /// The path itself.
    pub path: String,
}

/// The two paths a service lives at: its unit file in the configuration
/// directory, and its object path under the manager's unit namespace.
pub fn path_rows(full_service_name: &str) -> (r: Vec<PathStatus>)
    ensures
        r.len() == 2,
        r[0].name@ == "Service file"@,
        r[0].path@ == spec_config_dir() + full_service_name@,
        r[1].name@ == "Unit file"@,
        r[1].path@ == spec_unit_path(full_service_name@),
{
    let mut out: Vec<PathStatus> = Vec::new();
    out.push(
        PathStatus {
            name: String::from_str("Service file"),
            path: get_service_file_path(full_service_name),
        },
    );
    out.push(
        PathStatus {
            name: String::from_str("Unit file"),
            path: get_unit_path(full_service_name),
        },
    );
    out
}

/// The arguments handed to the journal reader: the unit, the line count,
/// and the follow flag when asked for.
pub open spec fn spec_journalctl_args(
    full_name: Seq<char>,
    lines: nat,
    follow: bool,
) -> Seq<Seq<char>> {
    let base = seq!["-u"@, full_name, "-n"@, spec_dec_digits(lines)];
    if follow {
        base.push("--follow"@)
    } else {
        base
    }
}

/// Builds the journal reader's argument list for a unit.
pub fn journalctl_args(full_service_name: &str, lines: u32, follow: bool) -> (r: Vec<String>)
    ensures
        r.deep_view() == spec_journalctl_args(full_service_name@, lines as nat, follow),
{
    let mut out: Vec<String> = Vec::new();
    out.push(String::from_str("-u"));
    out.push(String::from_str(full_service_name));
    out.push(String::from_str("-n"));
    out.push(u64_to_dec_string(lines as u64));
    if follow {
        out.push(String::from_str("--follow"));
    }
    proof {
        assert(out.deep_view() =~= spec_journalctl_args(full_service_name@, lines as nat, follow));
    }
    out
}

/// Reads the path printed by the executable-lookup subprocess run on the
/// unprivileged user's search path: the output with its trailing newline
/// removed. A failed lookup, or an empty one, means the interpreter cannot
/// be found.
pub fn parse_which_output(stdout: &str, lookup_succeeded: bool) -> (r: Result<String, ServiceError>)
    ensures
        r is Ok <==> (lookup_succeeded && spec_trim_end(stdout@).len() > 0),
        r matches Ok(path) ==> path@ == spec_trim_end(stdout@),
        r matches Err(e) ==> e == ServiceError::InterpreterNotFound,
{
    if !lookup_succeeded {
        return Err(ServiceError::InterpreterNotFound);
    }
    let trimmed = trim_end_ws(stdout);
    if trimmed.as_str().is_empty() {
        Err(ServiceError::InterpreterNotFound)
    } else {
        Ok(trimmed)
    }
}

/// A manual edit took effect exactly when the editor exited successfully
/// and the file's modification time moved.
pub fn edit_applied(editor_exit_success: bool, modified_time_changed: bool) -> (r: bool)
    ensures
        r == (editor_exit_success && modified_time_changed),
{
    editor_exit_success && modified_time_changed
}

} // verus!
