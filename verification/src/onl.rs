//! The top-level controller.
//!
//! `Onl` validates its interface at construction and owns the detector's
//! configuration. Activating the data path — attaching kernel
//! classifiers or opening a raw capture — and spawning the workers is
//! left to the embedding daemon; the policy those workers follow (which
//! start-sequence failures are fatal, how kernel map reads degrade, how
//! the loop keeps cadence) is decided here.

use vstd::prelude::*;

use crate::config::Config;
use crate::errors::OnlError;

verus! {

/// Relies on `pnet::datalink::interfaces`: the names of the host's
/// network interfaces. Which names come back depends on the machine, so
/// nothing is assumed of the result.
#[verifier::external_body]
fn interface_names() -> (r: Vec<String>) {
    pnet::datalink::interfaces().into_iter().map(|i| i.name).collect()
}

/// Whether a name is among the known interface names.
pub open spec fn spec_name_known(names: Seq<String>, target: Seq<char>) -> bool {
    exists|i: int| 0 <= i < names.len() && names[i]@ == target
}

/// Linear search for an interface name.
fn name_known(names: &Vec<String>, target: &String) -> (r: bool)
    ensures
        r == spec_name_known(names@, target@),
{
    let mut i: usize = 0;
    while i < names.len()
        invariant
            i <= names@.len(),
            forall|j: int| 0 <= j < i ==> names@[j]@ != target@,
        decreases names@.len() - i,
    {
        let name = &names[i];
        if name.eq(target) {
            return true;
        }
        i = i + 1;
    }
    false
}

/// The outage notifier: a validated interface name and the detector's
/// configuration. Constructing it activates nothing.
#[derive(Debug)]
pub struct Onl {
    pub iface_name: String,
    pub config: Config,
}

impl Onl {
    /// Build a controller against an explicit list of interface names:
    /// succeeds exactly when the requested name is among them, and fails
    /// with `InterfaceNotFound` otherwise. An absent configuration means
    /// the defaults.
    pub fn with_interfaces(iface_name: String, config: Option<Config>, names: &Vec<String>) -> (r:
        Result<Onl, OnlError>)
        ensures
            r is Ok <==> spec_name_known(names@, iface_name@),
            r matches Ok(onl) ==> {
                &&& onl.iface_name == iface_name
                &&& match config {
                    Some(c) => onl.config == c,
                    None => {
                        &&& onl.config.rxtx_threshold == crate::config::DEFAULT_RXTX_THRESHOLD_MS
                        &&& onl.config.icmp_targets is None
                        &&& onl.config.icmp_interval is None
                    },
                }
            },
            r matches Err(e) ==> e == OnlError::InterfaceNotFound,
    {
        if !name_known(names, &iface_name) {
            return Err(OnlError::InterfaceNotFound);
        }
        let config = match config {
            Some(c) => c,
            None => Default::default(),
        };
        Ok(Onl { iface_name, config })
    }

    /// Build a controller for the named interface, validating the name
    /// against the host's interfaces. Whatever the host reports: success
    /// stores the name and the given (or default) configuration, and the
    /// only possible failure is `InterfaceNotFound`.
    pub fn new(iface_name: String, config: Option<Config>) -> (r: Result<Onl, OnlError>)
        ensures
            r matches Ok(onl) ==> {
                &&& onl.iface_name == iface_name
                &&& match config {
                    Some(c) => onl.config == c,
                    None => {
                        &&& onl.config.rxtx_threshold == crate::config::DEFAULT_RXTX_THRESHOLD_MS
                        &&& onl.config.icmp_targets is None
                        &&& onl.config.icmp_interval is None
                    },
                }
            },
            r matches Err(e) ==> e == OnlError::InterfaceNotFound,
    {
        let names = interface_names();
        Onl::with_interfaces(iface_name, config, &names)
    }
}

/// The steps of the kernel data-path start sequence, in order.
#[derive(Clone, Copy, Debug, PartialEq, Eq, Structural)]
pub enum StartStep {
    RaiseMemlock,
    LoadArtifact,
    InitLogger,
    EnsureQdisc,
    AttachEgress,
    AttachIngress,
    OpenMap,
}

/// Which start-sequence steps must succeed: loading the classifier,
/// attaching it in both directions, and opening the shared map.
pub open spec fn spec_step_fatal(step: StartStep) -> bool {
    match step {
        StartStep::RaiseMemlock => false,
        StartStep::LoadArtifact => true,
        StartStep::InitLogger => false,
        StartStep::EnsureQdisc => false,
        StartStep::AttachEgress => true,
        StartStep::AttachIngress => true,
        StartStep::OpenMap => true,
    }
}

/// What a failure at one start-sequence step means: a failed rlimit
/// raise, logger init or qdisc add is only warned about; a failure to
/// load or attach a classifier, or to open the map, deterministically
/// fails the whole start with `AttachFailed`.
pub fn start_failure(step: StartStep) -> (r: Option<OnlError>)
    ensures
        spec_step_fatal(step) ==> r == Some(OnlError::AttachFailed),
        !spec_step_fatal(step) ==> r is None,
{
    match step {
        StartStep::LoadArtifact | StartStep::AttachEgress | StartStep::AttachIngress
            | StartStep::OpenMap => Some(OnlError::AttachFailed),
        StartStep::RaiseMemlock | StartStep::InitLogger | StartStep::EnsureQdisc => None,
    }
}

/// A kernel map read that found no value reads as zero; an unreadable
/// map degrades instead of failing the loop.
pub fn map_value_or_zero(value: Option<u64>) -> (r: u64)
    ensures
        value matches Some(v) ==> r == v,
        value is None ==> r == 0,
{
    match value {
        Some(v) => v,
        None => 0,
    }
}

/// How long the decision loop still sleeps after an iteration that took
/// `elapsed` of its period, clamped at zero so a slow iteration never
/// panics the loop.
pub fn remaining_sleep_ms(period: u64, elapsed: u64) -> (r: u64)
    ensures
        elapsed >= period ==> r == 0,
        elapsed < period ==> r == period - elapsed,
{
    if elapsed >= period {
        0
    } else {
        period - elapsed
    }
}

} // verus!
