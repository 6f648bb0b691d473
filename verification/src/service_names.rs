//! Naming resolver: the bidirectional mapping between user-facing short
//! service names and the manager's full unit names.
//!
//! A full name is the short name followed by the fixed tool suffix
//! `.ser.service`. The suffix is the sole marker distinguishing units this
//! tool manages from every other unit on the host.
use crate::text::{ends_with_str, spec_ends_with};
use crate::ServiceError;
use vstd::prelude::*;
use vstd::string::*;

verus! {

/// The fixed tool suffix that every managed unit name carries.
pub open spec fn spec_suffix() -> Seq<char> {
    ".ser.service"@
}

/// The fixed configuration directory that unit files are written to.
pub open spec fn spec_config_dir() -> Seq<char> {
    "/etc/systemd/system/"@
}

/// The full unit name derived from a short name.
pub open spec fn spec_full_name(short: Seq<char>) -> Seq<char> {
    short + spec_suffix()
}

/// The short name obtained by stripping the tool suffix once; meaningful
/// only when the suffix is present.
pub open spec fn spec_short_name(full: Seq<char>) -> Seq<char> {
    full.subrange(0, full.len() - spec_suffix().len())
}

/// The tool suffix as a string slice.
pub fn service_suffix() -> (r: &'static str)
    ensures
        r@ == spec_suffix(),
{
    ".ser.service"
}

/// Returns the full unit name: the short name with the tool suffix
/// appended. Deterministic, never fails.
pub fn get_full_service_name(short_name: &str) -> (r: String)
    ensures
        r@ == spec_full_name(short_name@),
{
    let s = String::from_str(short_name);
    s.concat(service_suffix())
}

/// Whether `name` is a full unit name, that is, carries the tool suffix.
pub fn is_full_name(name: &str) -> (r: bool)
    ensures
        r == spec_ends_with(name@, spec_suffix()),
{
    ends_with_str(name, service_suffix())
}

/// Strips the tool suffix from a full unit name. Rejects a name that does
/// not carry the suffix with `InvalidName`.
pub fn get_short_service_name(full_service_name: &str) -> (r: Result<String, ServiceError>)
    ensures
        r is Ok <==> spec_ends_with(full_service_name@, spec_suffix()),
        r matches Ok(short) ==> short@ == spec_short_name(full_service_name@),
        r matches Err(e) ==> e == ServiceError::InvalidName,
{
    let suffix = service_suffix();
    if ends_with_str(full_service_name, suffix) {
        let len = full_service_name.unicode_len();
        let suffix_len = suffix.unicode_len();
        let short = full_service_name.substring_char(0, len - suffix_len);
        Ok(String::from_str(short))
    } else {
        Err(ServiceError::InvalidName)
    }
}

/// Accepts either a short or a fully qualified name at a command site: a
/// name that already carries the tool suffix passes through; any other
/// name is taken as short and qualified.
pub fn accept_service_name(name: &str) -> (r: String)
    ensures
        spec_ends_with(name@, spec_suffix()) ==> r@ == name@,
        !spec_ends_with(name@, spec_suffix()) ==> r@ == spec_full_name(name@),
{
    if is_full_name(name) {
        String::from_str(name)
    } else {
        get_full_service_name(name)
    }
}

/// The path of the unit file for a full unit name: a deterministic join
/// with the fixed configuration directory.
pub fn get_service_file_path(full_service_name: &str) -> (r: String)
    ensures
        r@ == spec_config_dir() + full_service_name@,
{
    let dir = String::from_str("/etc/systemd/system/");
    proof {
        assert("/etc/systemd/system/"@ == spec_config_dir());
    }
    dir.concat(full_service_name)
}

/// Keeps exactly the names that carry the tool suffix, in their input
/// order: the discovery filter over a directory listing.
pub fn filter_service_names(names: &Vec<String>) -> (r: Vec<String>)
    ensures
        r.deep_view() == names.deep_view().filter(|n: Seq<char>| spec_ends_with(n, spec_suffix())),
{
    let mut out: Vec<String> = Vec::new();
    let mut i: usize = 0;
    proof {
        reveal(Seq::filter);
        assert(names.deep_view().take(0) =~= Seq::<Seq<char>>::empty());
        assert(out.deep_view() =~= names.deep_view().take(0).filter(
            |n: Seq<char>| spec_ends_with(n, spec_suffix()),
        ));
    }
    while i < names.len()
        invariant
            i <= names.len(),
            names.deep_view().len() == names.len(),
            out.deep_view() == names.deep_view().take(i as int).filter(
                |n: Seq<char>| spec_ends_with(n, spec_suffix()),
            ),
        decreases names.len() - i,
    {
        let ghost pred = |n: Seq<char>| spec_ends_with(n, spec_suffix());
        let ghost prefix = names.deep_view().take(i as int);
        let ghost out_before = out.deep_view();
        let name = &names[i];
        if is_full_name(name.as_str()) {
            out.push(name.clone());
            proof {
                assert(out.deep_view() =~= out_before.push(name@));
            }
        }
        proof {
            assert(names.deep_view().take(i + 1) =~= prefix.push(name@));
            prefix.lemma_filter_push(name@, pred);
            assert(out.deep_view() =~= names.deep_view().take(i + 1).filter(pred));
        }
        i = i + 1;
    }
    proof {
        assert(names.deep_view().take(names.len() as int) =~= names.deep_view());
    }
    out
}

/// Naming round trip: stripping the suffix from a freshly built full name
/// gives the short name back, for every short name.
pub proof fn lemma_naming_round_trip(short: Seq<char>)
    ensures
        spec_ends_with(spec_full_name(short), spec_suffix()),
        spec_short_name(spec_full_name(short)) == short,
{
    let full = spec_full_name(short);
    assert(full.subrange(full.len() - spec_suffix().len(), full.len() as int) =~= spec_suffix());
    assert(spec_short_name(full) =~= short);
}

/// A freshly built full name always passes the full-name test; a name
/// without the suffix never does (the latter is the very meaning of the
/// test, restated here as the law's second half).
pub proof fn lemma_full_name_test(short: Seq<char>, name: Seq<char>)
    ensures
        spec_ends_with(spec_full_name(short), spec_suffix()),
        !spec_ends_with(name, spec_suffix()) ==> !(exists|s: Seq<char>| spec_full_name(s) == name),
{
    lemma_naming_round_trip(short);
    if !spec_ends_with(name, spec_suffix()) {
        assert forall|s: Seq<char>| spec_full_name(s) != name by {
            lemma_naming_round_trip(s);
        }
    }
}

} // verus!
