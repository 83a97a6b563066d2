//! Discovery of helper executables.
//!
//! The tunnel engine needs a vpnc-script and, when the gateway demands a
//! compliance report, a HIP-report wrapper. Each is probed from a fixed
//! ordered list of install locations, the first executable match winning; a
//! caller-supplied override wins over the list when it names an executable
//! file. What is on disk is outside this crate: the probes state only what
//! holds of every outcome.

use vstd::prelude::*;
use vstd::string::*;

verus! {

/// The fixed ordered list of vpnc-script install locations.
pub open spec fn vpnc_script_locations_spec() -> Seq<Seq<char>> {
    seq![
        "/usr/local/share/vpnc-scripts/vpnc-script"@,
        "/usr/local/sbin/vpnc-script"@,
        "/usr/share/vpnc-scripts/vpnc-script"@,
        "/usr/sbin/vpnc-script"@,
        "/etc/vpnc/vpnc-script"@,
        "/etc/openconnect/vpnc-script"@,
        "/usr/libexec/vpnc-scripts/vpnc-script"@,
    ]
}

/// The fixed ordered list of HIP-report wrapper install locations.
pub open spec fn csd_wrapper_locations_spec() -> Seq<Seq<char>> {
    seq![
        "/usr/libexec/gpclient/hipreport.sh"@,
        "/usr/lib/x86_64-linux-gnu/openconnect/hipreport.sh"@,
        "/usr/lib/aarch64-linux-gnu/openconnect/hipreport.sh"@,
        "/usr/lib/openconnect/hipreport.sh"@,
        "/usr/libexec/openconnect/hipreport.sh"@,
    ]
}

/// The vpnc-script locations, in probe order.
pub fn vpnc_script_locations() -> (r: Vec<&'static str>)
    ensures
        r.deep_view() == vpnc_script_locations_spec(),
{
    let r = vec![
        "/usr/local/share/vpnc-scripts/vpnc-script",
        "/usr/local/sbin/vpnc-script",
        "/usr/share/vpnc-scripts/vpnc-script",
        "/usr/sbin/vpnc-script",
        "/etc/vpnc/vpnc-script",
        "/etc/openconnect/vpnc-script",
        "/usr/libexec/vpnc-scripts/vpnc-script",
    ];
    proof {
        assert(r.deep_view() =~~= vpnc_script_locations_spec());
    }
    r
}

/// The HIP-report wrapper locations, in probe order.
pub fn csd_wrapper_locations() -> (r: Vec<&'static str>)
    ensures
        r.deep_view() == csd_wrapper_locations_spec(),
{
    let r = vec![
        "/usr/libexec/gpclient/hipreport.sh",
        "/usr/lib/x86_64-linux-gnu/openconnect/hipreport.sh",
        "/usr/lib/aarch64-linux-gnu/openconnect/hipreport.sh",
        "/usr/lib/openconnect/hipreport.sh",
        "/usr/libexec/openconnect/hipreport.sh",
    ];
    proof {
        assert(r.deep_view() =~~= csd_wrapper_locations_spec());
    }
    r
}

/// Relies on `is_executable::is_executable`: true exactly when a file exists
/// at the path and is executable by the current user. The answer depends on
/// what is on disk, so nothing is promised of it.
#[verifier::external_body]
pub(crate) fn is_executable_file(path: &str) -> bool {
    is_executable::is_executable(path)
}

/// Relies on std's `Path::exists`: whether the path points at an existing
/// entity on disk. The answer depends on what is on disk, so nothing is
/// promised of it.
#[verifier::external_body]
fn path_exists(path: &str) -> bool {
    std::path::Path::new(path).exists()
}

/// Ask the disk, through the executability wrapper, about each location in
/// order. The answers are the disk's; only their number is fixed.
fn probe_locations(locations: &Vec<&'static str>) -> (r: Vec<bool>)
    ensures
        r@.len() == locations@.len(),
{
    let mut flags: Vec<bool> = Vec::new();
    let mut i: usize = 0;
    while i < locations.len()
        invariant
            i <= locations@.len(),
            flags@.len() == i,
        decreases locations@.len() - i,
    {
        flags.push(is_executable_file(locations[i]));
        i = i + 1;
    }
    flags
}

/// The choice over the probe outcomes: the location at the first set flag —
/// the first executable match wins — and nothing exactly when no flag is set.
pub fn choose_first(flags: &Vec<bool>, locations: &Vec<&'static str>) -> (r: Option<
    &'static str,
>)
    requires
        flags@.len() == locations@.len(),
    ensures
        match r {
            Some(p) => exists|i: int|
                0 <= i < flags@.len() && flags@[i] && locations@[i]@ == p@ && (forall|j: int|
                    0 <= j < i ==> !flags@[j]),
            None => forall|i: int| 0 <= i < flags@.len() ==> !flags@[i],
        },
{
    let mut i: usize = 0;
    while i < flags.len()
        invariant
            i <= flags@.len(),
            flags@.len() == locations@.len(),
            forall|j: int| 0 <= j < i ==> !flags@[j],
        decreases flags@.len() - i,
    {
        if flags[i] {
            return Some(locations[i]);
        }
        i = i + 1;
    }
    None
}

/// Probe the locations in order for an executable file; `choose_first` fixes
/// the choice over the probe outcomes. Whatever is on disk, a found path is
/// one of the probed locations.
pub fn find_executable(locations: &Vec<&'static str>) -> (r: Option<&'static str>)
    ensures
        r matches Some(p) ==> exists|i: int|
            0 <= i < locations@.len() && locations@[i]@ == p@,
{
    let flags = probe_locations(locations);
    choose_first(&flags, locations)
}

/// Probe the default install locations for a vpnc-script.
pub fn find_vpnc_script() -> (r: Option<&'static str>)
    ensures
        r matches Some(p) ==> exists|i: int|
            0 <= i < vpnc_script_locations_spec().len() && vpnc_script_locations_spec()[i] == p@,
{
    let locations = vpnc_script_locations();
    let found = find_executable(&locations);
    proof {
        if let Some(p) = found {
            let i = choose|i: int|
                0 <= i < locations@.len() && locations@[i]@ == p@;
            assert(locations.deep_view()[i] == locations@[i]@);
            assert(vpnc_script_locations_spec()[i] == p@);
        }
    }
    found
}

/// The choice over the probe outcomes of the HIP-report wrapper: a non-empty
/// override whose probe succeeded always wins; otherwise the location at the
/// first set flag wins, and nothing comes back exactly when no flag is set.
pub fn resolve_csd_decision(
    override_path: Option<&str>,
    override_ok: bool,
    flags: &Vec<bool>,
    locations: &Vec<&'static str>,
) -> (r: Option<String>)
    requires
        flags@.len() == locations@.len(),
    ensures
        (match override_path {
            Some(o) => (o@.len() > 0 && override_ok) ==> (r matches Some(p) && p@ == o@),
            None => true,
        }),
        ((match override_path {
            Some(o) => !(o@.len() > 0 && override_ok),
            None => true,
        }) ==> (match r {
            Some(p) => exists|i: int|
                0 <= i < flags@.len() && flags@[i] && locations@[i]@ == p@ && (forall|j: int|
                    0 <= j < i ==> !flags@[j]),
            None => forall|i: int| 0 <= i < flags@.len() ==> !flags@[i],
        })),
{
    if let Some(path) = override_path {
        if !path.is_empty() && override_ok {
            return Some(String::from_str(path));
        }
    }
    match choose_first(flags, locations) {
        Some(found) => Some(String::from_str(found)),
        None => None,
    }
}

/// Resolve the HIP-report wrapper: probe the override and the locations, and
/// let `resolve_csd_decision` fix the choice over the probe outcomes.
/// Whatever is on disk, a found path is the override or one of the locations.
pub fn resolve_csd_wrapper(override_path: Option<&str>, locations: &Vec<&'static str>) -> (r:
    Option<String>)
    ensures
        r matches Some(p) ==> ((override_path matches Some(o) && o@ == p@ && o@.len() > 0)
            || exists|i: int| 0 <= i < locations@.len() && locations@[i]@ == p@),
{
    let override_ok = match override_path {
        Some(path) => is_executable_file(path),
        None => false,
    };
    let flags = probe_locations(locations);
    resolve_csd_decision(override_path, override_ok, &flags, locations)
}

/// The decision behind `check_executable`, over the two probe outcomes:
/// refused exactly when the file exists and is not executable, with a
/// message naming the file.
pub fn check_decision(exists: bool, executable: bool, file: &str) -> (r: Result<(), String>)
    ensures
        (r is Err) <==> (exists && !executable),
        r matches Err(m) ==> m@ == file@ + " is not executable"@,
{
    if exists && !executable {
        let mut message = String::from_str(file);
        message.append(" is not executable");
        return Err(message);
    }
    Ok(())
}

/// If a file exists at the path, demand that it is executable: an existing
/// non-executable file is refused with a message naming it. The two probes
/// are the disk's; `check_decision` fixes the outcome over them.
pub fn check_executable(file: &str) -> (r: Result<(), String>)
    ensures
        r matches Err(m) ==> m@ == file@ + " is not executable"@,
{
    let exists = path_exists(file);
    let executable = is_executable_file(file);
    check_decision(exists, executable, file)
}

} // verus!
