//! Detector configuration.

use vstd::prelude::*;
use vstd::string::StringExecFns;

verus! {

/// The default skew threshold, in milliseconds.
pub const DEFAULT_RXTX_THRESHOLD_MS: u64 = 1500;

/// Recognized options of the detector.
#[derive(Debug, Clone)]
pub struct Config {
    /// Path to the compiled kernel classifier artifact; only meaningful
    /// for the kernel data path.
    pub ebpf_prog_path: String,
    /// The maximum tolerated skew in ms between RX/TX packets before
    /// declaring an outage.
    pub rxtx_threshold: u64,
    /// Anchor addresses for the active prober; empty or absent disables
    /// probing.
    pub icmp_targets: Option<Vec<String>>,
    /// Active-probe cadence in ms.
    pub icmp_interval: Option<u64>,
}

/// Whether a configuration asks for the active prober: at least one
/// anchor address.
pub open spec fn spec_probe_enabled(c: &Config) -> bool {
    match c.icmp_targets {
        Some(targets) => targets.len() > 0,
        None => false,
    }
}

/// Ceiling of `t / 3`: the decision loop samples three times per
/// threshold so an outage is never detected a whole threshold late.
pub open spec fn spec_poll_period_ms(t: u64) -> u64 {
    ((t + 2) / 3) as u64
}

impl Config {
    /// Whether the active prober should run.
    pub fn probe_enabled(&self) -> (r: bool)
        ensures
            r == spec_probe_enabled(self),
    {
        match &self.icmp_targets {
            Some(targets) => targets.len() > 0,
            None => false,
        }
    }

    /// The decision loop's polling period: a third of the threshold,
    /// rounded up.
    pub fn poll_period_ms(&self) -> (r: u64)
        requires
            self.rxtx_threshold <= u64::MAX - 2,
        ensures
            r == spec_poll_period_ms(self.rxtx_threshold),
    {
        (self.rxtx_threshold + 2) / 3
    }

    /// How long the decision loop waits before its first sample: one
    /// full threshold, giving the data path time to populate the store.
    pub fn initial_delay_ms(&self) -> (r: u64)
        ensures
            r == self.rxtx_threshold,
    {
        self.rxtx_threshold
    }

    /// The threshold scaled to the microsecond store of the userspace
    /// data path.
    pub fn threshold_us(&self) -> (r: u64)
        requires
            self.rxtx_threshold * 1000 <= u64::MAX,
        ensures
            r == self.rxtx_threshold * 1000,
    {
        self.rxtx_threshold * 1000
    }

    /// The threshold scaled to the nanosecond store of the kernel data
    /// path.
    pub fn threshold_ns(&self) -> (r: u64)
        requires
            self.rxtx_threshold * 1000000 <= u64::MAX,
        ensures
            r == self.rxtx_threshold * 1000000,
    {
        self.rxtx_threshold * 1000000
    }
}

impl Default for Config {
    /// The defaults: 1500 ms threshold, no probing, and the kernel
    /// classifier artifact where its build drops it.
    fn default() -> (r: Config)
        ensures
            r.rxtx_threshold == DEFAULT_RXTX_THRESHOLD_MS,
            r.icmp_targets is None,
            r.icmp_interval is None,
            r.ebpf_prog_path@ == "./target/bpfel-unknown-none/release/n-rt-onl-ebpf"@,
    {
        Config {
            ebpf_prog_path: String::from_str("./target/bpfel-unknown-none/release/n-rt-onl-ebpf"),
            rxtx_threshold: DEFAULT_RXTX_THRESHOLD_MS,
            icmp_targets: None,
            icmp_interval: None,
        }
    }
}

} // verus!
