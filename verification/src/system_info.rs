//! The system metrics tracker.
//!
//! [`SystemInfo`] owns a snapshot of processor load, memory and battery. It
//! samples memory itself. Per-core load and the power report are handed to
//! it, because reading them takes floating point and the file system.
use crate::battery::{
    lemma_level_is_percentage, read_battery, reading_of, PowerReport, PowerReportView,
};
use crate::cpu::{aggregate_load, lemma_mean_load_bounded, mean_load};
use crate::percent::FULL_SCALE;
use sysinfo::System;
use vstd::prelude::*;

verus! {

/// `sysinfo::System`, the handle that samples the machine. It is carried
/// as it is; nothing inside it is looked at.
#[verifier::external_type_specification]
#[verifier::external_body]
pub struct ExSystem(sysinfo::System);

/// The size of the machine's memory, in bytes, as `system` last sampled it.
pub uninterp spec fn total_memory_of(system: System) -> u64;

/// The memory available for use, in bytes, as `system` last sampled it.
pub uninterp spec fn available_memory_of(system: System) -> u64;

/// The memory in use, in bytes, as `system` last sampled it.
pub uninterp spec fn used_memory_of(system: System) -> u64;

/// `System::new` makes a handle with nothing sampled yet. Nothing is
/// claimed of it.
pub assume_specification[ System::new ]() -> (system: System)
;

/// `System::refresh_all` samples the machine anew. Nothing is claimed of
/// what the handle holds afterwards.
pub assume_specification[ System::refresh_all ](system: &mut System)
;

/// `System::total_memory` returns a figure that the handle stores: the
/// same handle gives the same figure until it is refreshed.
pub assume_specification[ System::total_memory ](system: &System) -> (bytes: u64)
    ensures
        bytes == total_memory_of(*system),
;

/// `System::available_memory` returns a figure that the handle stores.
pub assume_specification[ System::available_memory ](system: &System) -> (bytes: u64)
    ensures
        bytes == available_memory_of(*system),
;

/// `System::used_memory` returns a figure derived from what the handle
/// stores. On some platforms it is the total less the available memory by
/// plain subtraction, so the call is made only where the available memory
/// does not exceed the total.
pub assume_specification[ System::used_memory ](system: &System) -> (bytes: u64)
    requires
        available_memory_of(*system) <= total_memory_of(*system),
    ensures
        bytes == used_memory_of(*system),
;

/// A copy of the tracked metrics. Percentages are in hundredths of a
/// percent, memory in bytes.
#[derive(Clone, Copy, Debug, PartialEq, Eq, Structural)]
pub struct MetricsSnapshot {
    pub cpu_usage: u32,
    pub memory_used: u64,
    pub memory_total: u64,
    pub battery_level: u32,
    pub battery_charging: bool,
}

/// One sample of memory use, in bytes.
#[derive(Clone, Copy, Debug, PartialEq, Eq, Structural)]
pub struct MemorySample {
    pub used: u64,
    pub total: u64,
}

/// The snapshot of a tracker that has been told nothing yet: no load, no
/// memory figures, a full battery that is not charging.
pub open spec fn blank_metrics() -> MetricsSnapshot {
    MetricsSnapshot {
        cpu_usage: 0,
        memory_used: 0,
        memory_total: 0,
        battery_level: FULL_SCALE,
        battery_charging: false,
    }
}

/// What every tracker's snapshot satisfies: memory in use is within the
/// total, and the battery level is a percentage.
pub open spec fn well_formed(snapshot: MetricsSnapshot) -> bool {
    &&& snapshot.memory_used <= snapshot.memory_total
    &&& snapshot.battery_level <= FULL_SCALE
}

/// A sample that can be taken over: it does not claim more memory in use
/// than there is.
pub open spec fn is_sound(sample: MemorySample) -> bool {
    sample.used <= sample.total
}

/// The snapshot after a memory sample: the sample's figures where there is
/// a sound one, the former figures where there is none or where it claims
/// more memory in use than there is.
pub open spec fn with_memory(
    snapshot: MetricsSnapshot,
    sample: Option<MemorySample>,
) -> MetricsSnapshot {
    match sample {
        Some(sample) => if is_sound(sample) {
            MetricsSnapshot { memory_used: sample.used, memory_total: sample.total, ..snapshot }
        } else {
            snapshot
        },
        None => snapshot,
    }
}

/// The snapshot after per-core loads and a power report have been handed
/// in: the load is their mean, the battery fields are what the report
/// amounts to, memory stays.
pub open spec fn with_observation(
    snapshot: MetricsSnapshot,
    core_loads: Seq<u32>,
    power: PowerReportView,
) -> MetricsSnapshot {
    MetricsSnapshot {
        cpu_usage: mean_load(core_loads) as u32,
        battery_level: reading_of(power).level,
        battery_charging: reading_of(power).charging,
        ..snapshot
    }
}

/// The memory sample that a handle yields: its figures where they can be
/// read, nothing where it claims more memory available than there is.
pub open spec fn sample_of(system: System) -> Option<MemorySample> {
    if available_memory_of(system) <= total_memory_of(system) {
        Some(MemorySample { used: used_memory_of(system), total: total_memory_of(system) })
    } else {
        None
    }
}

/// What one poll of the tracker leaves: a memory sample taken over, then
/// loads and power report taken over.
pub open spec fn polled(
    snapshot: MetricsSnapshot,
    sample: Option<MemorySample>,
    core_loads: Seq<u32>,
    power: PowerReportView,
) -> MetricsSnapshot {
    with_observation(with_memory(snapshot, sample), core_loads, power)
}

/// Memory in use stays within the total, whatever sample comes in.
pub proof fn lemma_memory_within_total(snapshot: MetricsSnapshot, sample: Option<MemorySample>)
    requires
        snapshot.memory_used <= snapshot.memory_total,
    ensures
        with_memory(snapshot, sample).memory_used <= with_memory(snapshot, sample).memory_total,
{
}

/// A poll keeps the snapshot well formed, and makes it so where the
/// memory figures already were: memory in use is within the total and the
/// battery level is a percentage, whatever the provider answers.
pub proof fn lemma_poll_is_well_formed(
    snapshot: MetricsSnapshot,
    sample: Option<MemorySample>,
    core_loads: Seq<u32>,
    power: PowerReportView,
)
    requires
        snapshot.memory_used <= snapshot.memory_total,
    ensures
        well_formed(polled(snapshot, sample, core_loads, power)),
        well_formed(with_observation(snapshot, core_loads, power)),
{
    lemma_level_is_percentage(power);
}

/// The load that an observation leaves is the mean of the loads handed
/// in.
pub proof fn lemma_observed_load_is_mean(
    snapshot: MetricsSnapshot,
    core_loads: Seq<u32>,
    power: PowerReportView,
)
    ensures
        with_observation(snapshot, core_loads, power).cpu_usage == mean_load(core_loads),
{
    lemma_mean_load_bounded(core_loads, u32::MAX as nat);
}

/// Polling twice while the provider answers the same leaves the same
/// snapshot as polling once.
pub proof fn lemma_poll_is_idempotent(
    snapshot: MetricsSnapshot,
    sample: Option<MemorySample>,
    core_loads: Seq<u32>,
    power: PowerReportView,
)
    ensures
        polled(polled(snapshot, sample, core_loads, power), sample, core_loads, power) == polled(
            snapshot,
            sample,
            core_loads,
            power,
        ),
{
}

/// Where the provider has a sound memory sample, what a poll leaves
/// depends on the provider's answers alone, not on what the tracker held
/// before.
pub proof fn lemma_poll_forgets(
    first: MetricsSnapshot,
    second: MetricsSnapshot,
    sample: MemorySample,
    core_loads: Seq<u32>,
    power: PowerReportView,
)
    requires
        is_sound(sample),
    ensures
        polled(first, Some(sample), core_loads, power) == polled(
            second,
            Some(sample),
            core_loads,
            power,
        ),
{
}

/// A snapshot that is known to be well formed.
struct SoundMetrics {
    snapshot: MetricsSnapshot,
}

impl SoundMetrics {
    #[verifier::type_invariant]
    spec fn holds_well_formed(self) -> bool {
        well_formed(self.snapshot)
    }

    fn new(snapshot: MetricsSnapshot) -> (sound: Self)
        requires
            well_formed(snapshot),
        ensures
            sound.snapshot == snapshot,
    {
        SoundMetrics { snapshot }
    }

    fn get(&self) -> (snapshot: MetricsSnapshot)
        ensures
            snapshot == self.snapshot,
            well_formed(snapshot),
    {
        proof {
            use_type_invariant(self);
        }
        self.snapshot
    }
}

/// Tracks processor load, memory and battery.
pub struct SystemInfo {
    system: System,
    metrics: SoundMetrics,
}

impl View for SystemInfo {
    type V = MetricsSnapshot;

    closed spec fn view(&self) -> MetricsSnapshot {
        self.metrics.snapshot
    }
}

impl SystemInfo {
    /// The handle through which the tracker samples the machine.
    pub closed spec fn provider(&self) -> System {
        self.system
    }

    /// A tracker that has sampled memory once.
    pub fn new() -> (tracker: Self)
        ensures
            tracker@ == with_memory(blank_metrics(), sample_of(tracker.provider())),
            well_formed(tracker@),
    {
        let mut tracker = SystemInfo {
            system: System::new(),
            metrics: SoundMetrics::new(
                MetricsSnapshot {
                    cpu_usage: 0,
                    memory_used: 0,
                    memory_total: 0,
                    battery_level: FULL_SCALE,
                    battery_charging: false,
                },
            ),
        };
        tracker.refresh();
        tracker
    }

    /// Samples the machine anew and takes over its memory figures, unless
    /// they claim more memory in use than there is. Load and battery change
    /// only through [`SystemInfo::observe`].
    pub fn refresh(&mut self)
        ensures
            final(self)@ == with_memory(old(self)@, sample_of(final(self).provider())),
            well_formed(final(self)@),
    {
        self.system.refresh_all();
        let sample = sample_memory(&self.system);
        self.record_memory(sample);
    }

    /// Takes over a memory sample. The former figures stay where there is
    /// no sample and where the sample claims more memory in use than there
    /// is.
    pub fn record_memory(&mut self, sample: Option<MemorySample>)
        ensures
            final(self)@ == with_memory(old(self)@, sample),
            final(self).provider() == old(self).provider(),
            well_formed(final(self)@),
    {
        let current = self.metrics.get();
        if let Some(sample) = sample {
            if sample.used <= sample.total {
                self.metrics = SoundMetrics::new(
                    MetricsSnapshot {
                        cpu_usage: current.cpu_usage,
                        memory_used: sample.used,
                        memory_total: sample.total,
                        battery_level: current.battery_level,
                        battery_charging: current.battery_charging,
                    },
                );
            }
        }
    }

    /// Takes over per-core loads, in hundredths of a percent, and a power
    /// report.
    pub fn observe(&mut self, core_loads: &Vec<u32>, power: &PowerReport)
        ensures
            final(self)@ == with_observation(old(self)@, core_loads@, power.deep_view()),
            final(self)@.cpu_usage == mean_load(core_loads@),
            final(self).provider() == old(self).provider(),
            well_formed(final(self)@),
    {
        let current = self.metrics.get();
        let battery = read_battery(power);
        self.metrics = SoundMetrics::new(
            MetricsSnapshot {
                cpu_usage: aggregate_load(core_loads),
                memory_used: current.memory_used,
                memory_total: current.memory_total,
                battery_level: battery.level,
                battery_charging: battery.charging,
            },
        );
    }

    /// The handle, for reading what this tracker does not read itself.
    pub fn system(&self) -> (system: &System)
        ensures
            *system == self.provider(),
    {
        &self.system
    }

    /// A copy of the tracked state.
    pub fn snapshot(&self) -> (copy: MetricsSnapshot)
        ensures
            copy == self@,
            well_formed(copy),
    {
        self.metrics.get()
    }

    /// Aggregate processor load, in hundredths of a percent.
    pub fn cpu_usage(&self) -> (usage: u32)
        ensures
            usage == self@.cpu_usage,
    {
        self.metrics.get().cpu_usage
    }

    /// Memory in use, in bytes; never more than the total.
    pub fn memory_used(&self) -> (bytes: u64)
        ensures
            bytes == self@.memory_used,
            bytes <= self@.memory_total,
    {
        self.metrics.get().memory_used
    }

    /// Size of the memory, in bytes; never less than the memory in use.
    pub fn memory_total(&self) -> (bytes: u64)
        ensures
            bytes == self@.memory_total,
            self@.memory_used <= bytes,
    {
        self.metrics.get().memory_total
    }

    /// Battery level, in hundredths of a percent; never more than 100 %.
    pub fn battery_level(&self) -> (level: u32)
        ensures
            level == self@.battery_level,
            level <= FULL_SCALE,
    {
        self.metrics.get().battery_level
    }

    pub fn battery_is_charging(&self) -> (charging: bool)
        ensures
            charging == self@.battery_charging,
    {
        self.metrics.get().battery_charging
    }
}

/// Reads the memory figures of a handle, provided they are sound.
pub fn sample_memory(system: &System) -> (sample: Option<MemorySample>)
    ensures
        sample == sample_of(*system),
{
    let total = system.total_memory();
    let available = system.available_memory();
    if available <= total {
        Some(MemorySample { used: system.used_memory(), total })
    } else {
        None
    }
}

} // verus!
