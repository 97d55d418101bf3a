//! Limits and permits that all streams of a process share.
use super::producer::CpuScheduler;
use super::timing::{
    capped_percentile, RuntimePerformanceCounters, RuntimeTimingCounter, RuntimeTimingSnapshot,
};
use crate::error::MusicStreamError;
use crate::text::{decimal, decimal_text};
use std::sync::Arc;
use tokio::sync::{OwnedSemaphorePermit, Semaphore};
use vstd::prelude::*;
use vstd::string::*;

verus! {

pub const MAX_STREAMS: usize = 1_024;

pub const MAX_CONCURRENT_HTTP_DOWNLOADS: usize = 8;

pub const MAX_CONCURRENT_LIVE_STREAMS: usize = 64;

pub const MAX_LIVE_BUFFERED_BYTES: usize = 67_108_864;

pub const MAX_TEMPFILE_BYTES: u64 = 1_073_741_824;

pub const TEMPFILE_QUOTA_BYTES: u64 = 1_048_576;

pub const MIN_BLOCKING_PRODUCERS: usize = 64;

pub const MAX_BLOCKING_PRODUCERS: usize = 256;

pub const SYSTEM_CPU_HEADROOM: usize = 1;

/// A counting semaphore that streams share.
#[verifier::external_type_specification]
#[verifier::external_body]
pub struct ExSemaphore(Semaphore);

/// One permit, given back when it is dropped.
#[verifier::external_type_specification]
#[verifier::external_body]
pub struct ExOwnedSemaphorePermit(OwnedSemaphorePermit);

/// How many permits a semaphore was made with.
pub uninterp spec fn initial_permits(semaphore: Semaphore) -> nat;

/// The most permits that a semaphore can hold.
pub open spec fn most_permits() -> int {
    usize::MAX as int / 8
}

/// `Semaphore::MAX_PERMITS` is the largest `usize` shifted right by three bits.
#[verifier::external_body]
fn max_permits() -> (permits: usize)
    ensures
        permits == most_permits(),
{
    Semaphore::MAX_PERMITS
}

/// `Semaphore::new` makes a semaphore with the given number of permits; it panics
/// beyond `Semaphore::MAX_PERMITS`.
#[verifier::external_body]
fn semaphore_of(permits: usize) -> (semaphore: Semaphore)
    requires
        permits <= most_permits(),
    ensures
        initial_permits(semaphore) == permits,
{
    Semaphore::new(permits)
}

/// The semaphore that a permit was taken from.
pub uninterp spec fn permit_semaphore(permit: OwnedSemaphorePermit) -> Semaphore;

/// How many permits of its semaphore a permit stands for.
pub uninterp spec fn permits_held(permit: OwnedSemaphorePermit) -> nat;

/// `Semaphore::try_acquire_owned` takes one permit of the semaphore if one is
/// free. Whether one is depends on who else holds permits.
#[verifier::external_body]
fn try_permit(semaphore: &Arc<Semaphore>) -> (permit: Option<OwnedSemaphorePermit>)
    ensures
        permit matches Some(permit) ==> permit_semaphore(permit) == **semaphore && permits_held(
            permit,
        ) == 1,
{
    Arc::clone(semaphore).try_acquire_owned().ok()
}

/// `Semaphore::available_permits` counts the permits that are free at this
/// moment.
#[verifier::external_body]
fn free_permits(semaphore: &Arc<Semaphore>) -> (permits: usize) {
    semaphore.available_permits()
}

/// A permit of `semaphore` was asked for, and `permit` is what came back.
pub closed spec fn asked_permit(
    semaphore: &Arc<Semaphore>,
    permit: Option<OwnedSemaphorePermit>,
) -> bool {
    call_ensures(try_permit, (semaphore,), permit)
}

/// The free permits of `semaphore` were counted, and there were `permits`.
pub closed spec fn counted(semaphore: &Arc<Semaphore>, permits: usize) -> bool {
    call_ensures(free_permits, (semaphore,), permits)
}

#[derive(Clone, Copy, Debug, PartialEq, Eq, Structural)]
pub struct RuntimeResourceLimits {
    pub max_streams: usize,
    pub max_cpu_workers: usize,
    pub max_blocking_producers: usize,
    pub max_blocking_preloads: usize,
    pub max_concurrent_http_downloads: usize,
    pub max_concurrent_live_streams: usize,
    pub max_live_buffered_bytes: usize,
    pub max_tempfile_bytes: u64,
}

pub open spec fn clamped(value: int, low: int, high: int) -> int {
    if value < low {
        low
    } else if value > high {
        high
    } else {
        value
    }
}

/// How many CPU workers run by default: all processors but one, which is left
/// to the rest of the system.
pub fn default_max_cpu_workers(available_parallelism: usize) -> (workers: usize)
    ensures
        workers == clamped(
            available_parallelism - SYSTEM_CPU_HEADROOM,
            1,
            MAX_BLOCKING_PRODUCERS as int,
        ),
{
    let workers: usize = available_parallelism.saturating_sub(SYSTEM_CPU_HEADROOM);
    if workers < 1 {
        1
    } else if workers > MAX_BLOCKING_PRODUCERS {
        MAX_BLOCKING_PRODUCERS
    } else {
        workers
    }
}

/// Four producers for each CPU worker, within bounds.
pub open spec fn default_producers(max_cpu_workers: usize) -> int {
    clamped(
        max_cpu_workers * 4,
        MIN_BLOCKING_PRODUCERS as int,
        MAX_BLOCKING_PRODUCERS as int,
    )
}

/// A quarter of the producers may preload, and at least one.
pub open spec fn default_preloads(producers: int) -> int {
    if producers / 4 < 1 {
        1
    } else {
        producers / 4
    }
}

impl RuntimeResourceLimits {
    /// The limits that suit a machine with so many processors.
    #[must_use]
    pub fn for_parallelism(available_parallelism: usize) -> (limits: Self)
        ensures
            limits.max_streams == MAX_STREAMS,
            limits.max_cpu_workers == clamped(
                available_parallelism - SYSTEM_CPU_HEADROOM,
                1,
                MAX_BLOCKING_PRODUCERS as int,
            ),
            limits.max_blocking_producers == default_producers(limits.max_cpu_workers),
            limits.max_blocking_preloads == default_preloads(limits.max_blocking_producers as int),
            limits.max_concurrent_http_downloads == MAX_CONCURRENT_HTTP_DOWNLOADS,
            limits.max_concurrent_live_streams == MAX_CONCURRENT_LIVE_STREAMS,
            limits.max_live_buffered_bytes == MAX_LIVE_BUFFERED_BYTES,
            limits.max_tempfile_bytes == MAX_TEMPFILE_BYTES,
    {
        let max_cpu_workers: usize = default_max_cpu_workers(available_parallelism);
        let (max_blocking_producers, max_blocking_preloads): (usize, usize) =
            RuntimeResourceLimits::blocking_defaults(max_cpu_workers);
        RuntimeResourceLimits {
            max_streams: MAX_STREAMS,
            max_cpu_workers,
            max_blocking_producers,
            max_blocking_preloads,
            max_concurrent_http_downloads: MAX_CONCURRENT_HTTP_DOWNLOADS,
            max_concurrent_live_streams: MAX_CONCURRENT_LIVE_STREAMS,
            max_live_buffered_bytes: MAX_LIVE_BUFFERED_BYTES,
            max_tempfile_bytes: MAX_TEMPFILE_BYTES,
        }
    }

    /// Producer and preload limits for so many CPU workers.
    pub fn blocking_defaults(max_cpu_workers: usize) -> (defaults: (usize, usize))
        ensures
            defaults.0 == default_producers(max_cpu_workers),
            defaults.1 == default_preloads(defaults.0 as int),
    {
        let wanted: usize = match max_cpu_workers.checked_mul(4) {
            Some(wanted) => wanted,
            None => usize::MAX,
        };
        let producers: usize = if wanted < MIN_BLOCKING_PRODUCERS {
            MIN_BLOCKING_PRODUCERS
        } else if wanted > MAX_BLOCKING_PRODUCERS {
            MAX_BLOCKING_PRODUCERS
        } else {
            wanted
        };
        let preloads: usize = if producers / 4 < 1 {
            1
        } else {
            producers / 4
        };
        (producers, preloads)
    }

    /// Updates the CPU limit and recomputes blocking defaults that depend on it.
    pub fn set_max_cpu_workers_with_blocking_defaults(&mut self, max_cpu_workers: usize)
        ensures
            *final(self) == (RuntimeResourceLimits {
                max_cpu_workers,
                max_blocking_producers: default_producers(max_cpu_workers) as usize,
                max_blocking_preloads: default_preloads(
                    default_producers(max_cpu_workers),
                ) as usize,
                ..*old(self)
            }),
    {
        self.max_cpu_workers = max_cpu_workers;
        let (producers, preloads): (usize, usize) = RuntimeResourceLimits::blocking_defaults(
            max_cpu_workers,
        );
        self.max_blocking_producers = producers;
        self.max_blocking_preloads = preloads;
    }

    /// Updates the blocking producer limit and resets its preload sub-limit to one quarter.
    pub fn set_max_blocking_producers_with_preload_default(
        &mut self,
        max_blocking_producers: usize,
    )
        ensures
            *final(self) == (RuntimeResourceLimits {
                max_blocking_producers,
                max_blocking_preloads: default_preloads(max_blocking_producers as int) as usize,
                ..*old(self)
            }),
    {
        self.max_blocking_producers = max_blocking_producers;
        self.max_blocking_preloads = if max_blocking_producers / 4 < 1 {
            1
        } else {
            max_blocking_producers / 4
        };
    }

    /// Whether the limits can be put into force.
    pub open spec fn is_valid(self) -> bool {
        &&& 1 <= self.max_streams <= most_permits()
        &&& 1 <= self.max_cpu_workers <= self.max_blocking_producers
        &&& 1 <= self.max_blocking_preloads < self.max_blocking_producers
        &&& self.max_blocking_producers <= most_permits()
        &&& 2 <= self.max_concurrent_http_downloads <= most_permits()
        &&& 1 <= self.max_concurrent_live_streams <= most_permits()
        &&& 1 <= self.max_live_buffered_bytes <= u32::MAX
        &&& self.max_live_buffered_bytes <= most_permits()
        &&& self.max_tempfile_bytes >= TEMPFILE_QUOTA_BYTES * 2
        &&& self.max_tempfile_bytes / TEMPFILE_QUOTA_BYTES <= most_permits()
    }

    pub fn validate(&self) -> (result: Result<(), MusicStreamError>)
        ensures
            result is Ok <==> self.is_valid(),
            result matches Err(error) ==> error matches MusicStreamError::InvalidConfig(text)
                && text@
                == "stream, CPU, blocking producer, HTTP/live connection, live byte, and tempfile limits are invalid"@,
    {
        let most: usize = max_permits();
        if self.max_streams == 0 || self.max_streams > most || self.max_cpu_workers == 0
            || self.max_blocking_producers == 0 || self.max_cpu_workers
            > self.max_blocking_producers || self.max_blocking_preloads == 0
            || self.max_blocking_preloads >= self.max_blocking_producers
            || self.max_blocking_producers > most || self.max_blocking_preloads > most
            || self.max_concurrent_http_downloads < 2 || self.max_concurrent_http_downloads > most
            || self.max_concurrent_live_streams == 0 || self.max_concurrent_live_streams > most
            || self.max_live_buffered_bytes == 0 || self.max_live_buffered_bytes as u64
            > u32::MAX as u64 || self.max_live_buffered_bytes > most || self.max_tempfile_bytes
            < TEMPFILE_QUOTA_BYTES * 2 || self.max_tempfile_bytes / TEMPFILE_QUOTA_BYTES
            > most as u64 {
            return Err(
                MusicStreamError::InvalidConfig(
                    "stream, CPU, blocking producer, HTTP/live connection, live byte, and tempfile limits are invalid".to_owned(),
                ),
            );
        }
        Ok(())
    }
}

/// The permits from which admission is granted.
#[derive(Debug)]
pub struct RuntimeResources {
    pub limits: RuntimeResourceLimits,
    pub cpu_parallelism: usize,
    pub streams: Arc<Semaphore>,
    pub http_downloads: Arc<Semaphore>,
    pub http_preloads: Arc<Semaphore>,
    pub live_streams: Arc<Semaphore>,
    pub tempfile_budget: Arc<Semaphore>,
    pub tempfile_preloads: Arc<Semaphore>,
    pub blocking_producers: Arc<Semaphore>,
    pub blocking_preloads: Arc<Semaphore>,
}

/// Counts from the source layer that belong into a snapshot.
#[derive(Clone, Copy, Debug, PartialEq, Eq, Structural)]
pub struct SourceDiagnostics {
    pub live_bytes_available: usize,
    pub artifact_cache_entries: usize,
    pub artifact_cache_retained_quota_bytes: u64,
    pub download_registry_entries: usize,
    pub live_download_flights: usize,
}

/// On-demand resource accounting for diagnosing admission stalls. Reading this snapshot does not
/// touch sender/producer hot loops and does not reveal source URLs or headers.
#[derive(Clone, Copy, Debug, PartialEq, Eq)]
pub struct RuntimeResourceSnapshot {
    pub streams_available: usize,
    pub http_downloads_available: usize,
    pub http_preloads_available: usize,
    pub live_streams_available: usize,
    pub live_bytes_available: usize,
    pub tempfile_quota_units_available: usize,
    pub tempfile_preload_units_available: usize,
    pub blocking_producers_available: usize,
    pub blocking_preloads_available: usize,
    pub cpu_active: usize,
    pub cpu_parallelism: usize,
    pub cpu_workers_maximum: usize,
    pub cpu_system_headroom: usize,
    pub cpu_current_waiters: usize,
    pub cpu_next_waiters: usize,
    pub blocking_current_admission_wait: RuntimeTimingSnapshot,
    pub blocking_next_admission_wait: RuntimeTimingSnapshot,
    pub blocking_start_wait: RuntimeTimingSnapshot,
    pub cpu_current_wait: RuntimeTimingSnapshot,
    pub cpu_next_wait: RuntimeTimingSnapshot,
    pub cpu_current_hold: RuntimeTimingSnapshot,
    pub cpu_next_hold: RuntimeTimingSnapshot,
    pub source_wait: RuntimeTimingSnapshot,
    pub output_wait: RuntimeTimingSnapshot,
    pub artifact_cache_entries: usize,
    pub artifact_cache_retained_quota_bytes: u64,
    pub download_registry_entries: usize,
    pub live_download_flights: usize,
}

/// `snapshot` is what `counter` reports.
pub open spec fn summarizes(snapshot: RuntimeTimingSnapshot, counter: RuntimeTimingCounter) -> bool {
    &&& snapshot.samples == counter.samples
    &&& snapshot.total_us == counter.total_us
    &&& snapshot.max_us == counter.max_us
    &&& capped_percentile(counter.buckets@, 50, counter.max_us, snapshot.p50_us)
    &&& capped_percentile(counter.buckets@, 95, counter.max_us, snapshot.p95_us)
    &&& capped_percentile(counter.buckets@, 99, counter.max_us, snapshot.p99_us)
}

/// The stream that asked for admission gets it with the permit, or is refused.
pub fn admission(
    permit: Option<OwnedSemaphorePermit>,
    max_streams: usize,
) -> (result: Result<OwnedSemaphorePermit, MusicStreamError>)
    ensures
        match permit {
            Some(permit) => result == Ok::<_, MusicStreamError>(permit),
            None => result matches Err(error) && (error matches MusicStreamError::Busy(text)
                && text@ == "stream limit "@ + decimal(max_streams as nat) + " is exhausted"@),
        },
{
    match permit {
        Some(permit) => Ok(permit),
        None => Err(
            MusicStreamError::Busy(
                "stream limit ".to_owned().concat(
                    decimal_text(max_streams as u64).as_str(),
                ).concat(" is exhausted"),
            ),
        ),
    }
}

impl RuntimeResources {
    /// Every semaphore was made with what the limits grant.
    pub open spec fn grants_limits(self) -> bool {
        let units = self.limits.max_tempfile_bytes / TEMPFILE_QUOTA_BYTES;
        &&& initial_permits(*self.streams) == self.limits.max_streams
        &&& initial_permits(*self.http_downloads) == self.limits.max_concurrent_http_downloads
        &&& initial_permits(*self.http_preloads) == self.limits.max_concurrent_http_downloads - 1
        &&& initial_permits(*self.live_streams) == self.limits.max_concurrent_live_streams
        &&& initial_permits(*self.tempfile_budget) == units
        &&& initial_permits(*self.tempfile_preloads) == default_preloads(units as int)
        &&& initial_permits(*self.blocking_producers) == self.limits.max_blocking_producers
        &&& initial_permits(*self.blocking_preloads) == self.limits.max_blocking_preloads
    }

    /// Puts limits into force on a machine with so many processors.
    pub fn new(limits: RuntimeResourceLimits, cpu_parallelism: usize) -> (result: Result<
        Self,
        MusicStreamError,
    >)
        ensures
            result is Ok <==> limits.is_valid(),
            match result {
                Ok(resources) => {
                    &&& resources.limits == limits
                    &&& resources.cpu_parallelism == cpu_parallelism
                    &&& resources.grants_limits()
                },
                Err(error) => error matches MusicStreamError::InvalidConfig(text) && text@
                    == "stream, CPU, blocking producer, HTTP/live connection, live byte, and tempfile limits are invalid"@,
            },
    {
        match limits.validate() {
            Ok(()) => {},
            Err(error) => {
                return Err(error);
            },
        }
        let units: usize = (limits.max_tempfile_bytes / TEMPFILE_QUOTA_BYTES) as usize;
        let preload_units: usize = if units / 4 < 1 {
            1
        } else {
            units / 4
        };
        Ok(
            RuntimeResources {
                limits,
                cpu_parallelism,
                streams: Arc::new(semaphore_of(limits.max_streams)),
                http_downloads: Arc::new(semaphore_of(limits.max_concurrent_http_downloads)),
                http_preloads: Arc::new(semaphore_of(limits.max_concurrent_http_downloads - 1)),
                live_streams: Arc::new(semaphore_of(limits.max_concurrent_live_streams)),
                tempfile_budget: Arc::new(semaphore_of(units)),
                tempfile_preloads: Arc::new(semaphore_of(preload_units)),
                blocking_producers: Arc::new(semaphore_of(limits.max_blocking_producers)),
                blocking_preloads: Arc::new(semaphore_of(limits.max_blocking_preloads)),
            },
        )
    }

    #[must_use]
    pub fn limits(&self) -> (limits: &RuntimeResourceLimits)
        ensures
            *limits == self.limits,
    {
        &self.limits
    }

    /// Admits one more stream while the limit allows it: the permit is one of
    /// those for streams. A refusal names the limit.
    pub fn admit_stream(&self) -> (result: Result<OwnedSemaphorePermit, MusicStreamError>)
        ensures
            match result {
                Ok(permit) => {
                    &&& asked_permit(&self.streams, Some(permit))
                    &&& permit_semaphore(permit) == *self.streams
                    &&& permits_held(permit) == 1
                },
                Err(error) => {
                    &&& asked_permit(&self.streams, None)
                    &&& error matches MusicStreamError::Busy(text) && text@ == "stream limit "@
                        + decimal(self.limits.max_streams as nat) + " is exhausted"@
                },
            },
    {
        admission(try_permit(&self.streams), self.limits.max_streams)
    }

    /// Reports what is free and what was measured.
    pub fn snapshot(
        &self,
        performance: &RuntimePerformanceCounters,
        cpu: &CpuScheduler,
        source: SourceDiagnostics,
    ) -> (snapshot: RuntimeResourceSnapshot)
        requires
            performance.wf(),
        ensures
            counted(&self.streams, snapshot.streams_available),
            counted(&self.http_downloads, snapshot.http_downloads_available),
            counted(&self.http_preloads, snapshot.http_preloads_available),
            counted(&self.live_streams, snapshot.live_streams_available),
            counted(&self.tempfile_budget, snapshot.tempfile_quota_units_available),
            counted(&self.tempfile_preloads, snapshot.tempfile_preload_units_available),
            counted(&self.blocking_producers, snapshot.blocking_producers_available),
            counted(&self.blocking_preloads, snapshot.blocking_preloads_available),
            snapshot.live_bytes_available == source.live_bytes_available,
            snapshot.cpu_active == cpu.active,
            snapshot.cpu_parallelism == self.cpu_parallelism,
            snapshot.cpu_workers_maximum == self.limits.max_cpu_workers,
            snapshot.cpu_system_headroom == if self.cpu_parallelism > self.limits.max_cpu_workers {
                self.cpu_parallelism - self.limits.max_cpu_workers
            } else {
                0
            },
            snapshot.cpu_current_waiters == cpu.current_waiters,
            snapshot.cpu_next_waiters == cpu.next_waiters,
            summarizes(
                snapshot.blocking_current_admission_wait,
                performance.blocking_current_admission_wait,
            ),
            summarizes(
                snapshot.blocking_next_admission_wait,
                performance.blocking_next_admission_wait,
            ),
            summarizes(snapshot.blocking_start_wait, performance.blocking_start_wait),
            summarizes(snapshot.cpu_current_wait, performance.cpu_current_wait),
            summarizes(snapshot.cpu_next_wait, performance.cpu_next_wait),
            summarizes(snapshot.cpu_current_hold, performance.cpu_current_hold),
            summarizes(snapshot.cpu_next_hold, performance.cpu_next_hold),
            summarizes(snapshot.source_wait, performance.source_wait),
            summarizes(snapshot.output_wait, performance.output_wait),
            snapshot.artifact_cache_entries == source.artifact_cache_entries,
            snapshot.artifact_cache_retained_quota_bytes
                == source.artifact_cache_retained_quota_bytes,
            snapshot.download_registry_entries == source.download_registry_entries,
            snapshot.live_download_flights == source.live_download_flights,
    {
        RuntimeResourceSnapshot {
            streams_available: free_permits(&self.streams),
            http_downloads_available: free_permits(&self.http_downloads),
            http_preloads_available: free_permits(&self.http_preloads),
            live_streams_available: free_permits(&self.live_streams),
            live_bytes_available: source.live_bytes_available,
            tempfile_quota_units_available: free_permits(&self.tempfile_budget),
            tempfile_preload_units_available: free_permits(&self.tempfile_preloads),
            blocking_producers_available: free_permits(&self.blocking_producers),
            blocking_preloads_available: free_permits(&self.blocking_preloads),
            cpu_active: cpu.active,
            cpu_parallelism: self.cpu_parallelism,
            cpu_workers_maximum: self.limits.max_cpu_workers,
            cpu_system_headroom: self.cpu_parallelism.saturating_sub(self.limits.max_cpu_workers),
            cpu_current_waiters: cpu.current_waiters,
            cpu_next_waiters: cpu.next_waiters,
            blocking_current_admission_wait: performance.blocking_current_admission_wait.snapshot(),
            blocking_next_admission_wait: performance.blocking_next_admission_wait.snapshot(),
            blocking_start_wait: performance.blocking_start_wait.snapshot(),
            cpu_current_wait: performance.cpu_current_wait.snapshot(),
            cpu_next_wait: performance.cpu_next_wait.snapshot(),
            cpu_current_hold: performance.cpu_current_hold.snapshot(),
            cpu_next_hold: performance.cpu_next_hold.snapshot(),
            source_wait: performance.source_wait.snapshot(),
            output_wait: performance.output_wait.snapshot(),
            artifact_cache_entries: source.artifact_cache_entries,
            artifact_cache_retained_quota_bytes: source.artifact_cache_retained_quota_bytes,
            download_registry_entries: source.download_registry_entries,
            live_download_flights: source.live_download_flights,
        }
    }
}

/// The default limits are valid, whatever the machine.
pub proof fn default_limits_are_valid(limits: RuntimeResourceLimits)
    requires
        limits.max_streams == MAX_STREAMS,
        1 <= limits.max_cpu_workers <= MAX_BLOCKING_PRODUCERS,
        limits.max_blocking_producers == default_producers(limits.max_cpu_workers),
        limits.max_blocking_preloads == default_preloads(limits.max_blocking_producers as int),
        limits.max_concurrent_http_downloads == MAX_CONCURRENT_HTTP_DOWNLOADS,
        limits.max_concurrent_live_streams == MAX_CONCURRENT_LIVE_STREAMS,
        limits.max_live_buffered_bytes == MAX_LIVE_BUFFERED_BYTES,
        limits.max_tempfile_bytes == MAX_TEMPFILE_BYTES,
    ensures
        limits.is_valid(),
{
}

/// Preloads never take everything: under valid limits at least one producer, one
/// download and one unit of temporary storage are left for a current track.
pub proof fn preloads_leave_room_for_current(limits: RuntimeResourceLimits)
    requires
        limits.is_valid(),
    ensures
        limits.max_blocking_preloads < limits.max_blocking_producers,
        1 <= limits.max_concurrent_http_downloads - 1 < limits.max_concurrent_http_downloads,
        1 <= default_preloads((limits.max_tempfile_bytes / TEMPFILE_QUOTA_BYTES) as int)
            < limits.max_tempfile_bytes / TEMPFILE_QUOTA_BYTES,
{
}

/// One processor is left to the rest of the system, and at least one worker runs.
pub proof fn one_processor_is_left(available_parallelism: usize, workers: usize)
    requires
        call_ensures(default_max_cpu_workers, (available_parallelism,), workers),
    ensures
        1 <= workers <= 256,
        2 <= available_parallelism <= 257 ==> workers == available_parallelism - 1,
        available_parallelism > 257 ==> workers == 256,
        available_parallelism < 2 ==> workers == 1,
{
}

/// Four producers are allowed for each worker, never less than 64 and never more
/// than 256 in all.
pub proof fn producers_grow_with_workers(workers: usize)
    ensures
        64 <= default_producers(workers) <= 256,
        16 <= workers <= 64 ==> default_producers(workers) == 4 * workers,
        workers < 16 ==> default_producers(workers) == 64,
        workers > 64 ==> default_producers(workers) == 256,
{
}

/// A quarter may be used for preloading, and always something.
pub proof fn a_quarter_may_preload(producers: int)
    requires
        producers >= 0,
    ensures
        default_preloads(producers) >= 1,
        producers >= 4 ==> 4 * default_preloads(producers) <= producers < 4 * (default_preloads(
            producers,
        ) + 1),
        producers < 4 ==> default_preloads(producers) == 1,
{
}

/// Which limits can be put into force: each grants something, no more permits than
/// can be counted, workers and preloads within the producers, a download and storage
/// beside those for preloads, and live buffers that a 32 bit count can hold.
pub proof fn valid_limits_grant_something(limits: RuntimeResourceLimits)
    ensures
        limits.is_valid() <==> {
            let most = usize::MAX as int / 8;
            &&& 0 < limits.max_streams <= most
            &&& 0 < limits.max_cpu_workers <= limits.max_blocking_producers <= most
            &&& 0 < limits.max_blocking_preloads < limits.max_blocking_producers
            &&& 1 < limits.max_concurrent_http_downloads <= most
            &&& 0 < limits.max_concurrent_live_streams <= most
            &&& 0 < limits.max_live_buffered_bytes <= most
            &&& limits.max_live_buffered_bytes <= 4_294_967_295
            &&& limits.max_tempfile_bytes >= 2_097_152
            &&& limits.max_tempfile_bytes as int / 1_048_576 <= most
        },
{
}

/// A value is kept within its bounds and otherwise left alone.
pub proof fn bounds_are_kept(value: int, low: int, high: int)
    requires
        low <= high,
    ensures
        low <= clamped(value, low, high) <= high,
        low <= value <= high ==> clamped(value, low, high) == value,
        value < low ==> clamped(value, low, high) == low,
        value > high ==> clamped(value, low, high) == high,
{
}

/// What is put into force is what the limits grant: preloads get one download less
/// than there are and a quarter of the storage, and everything else is granted whole.
pub proof fn limits_are_granted(resources: RuntimeResources)
    requires
        resources.limits.is_valid(),
        resources.grants_limits(),
    ensures
        initial_permits(*resources.streams) == resources.limits.max_streams,
        initial_permits(*resources.http_downloads)
            == resources.limits.max_concurrent_http_downloads,
        initial_permits(*resources.http_preloads) + 1 == initial_permits(
            *resources.http_downloads,
        ),
        initial_permits(*resources.live_streams) == resources.limits.max_concurrent_live_streams,
        initial_permits(*resources.tempfile_budget) * 1_048_576
            <= resources.limits.max_tempfile_bytes,
        resources.limits.max_tempfile_bytes < (initial_permits(*resources.tempfile_budget) + 1)
            * 1_048_576,
        1 <= initial_permits(*resources.tempfile_preloads) < initial_permits(
            *resources.tempfile_budget,
        ),
        initial_permits(*resources.tempfile_budget) >= 4 ==> 4 * initial_permits(
            *resources.tempfile_preloads,
        ) <= initial_permits(*resources.tempfile_budget) < 4 * (initial_permits(
            *resources.tempfile_preloads,
        ) + 1),
        initial_permits(*resources.blocking_producers) == resources.limits.max_blocking_producers,
        initial_permits(*resources.blocking_preloads) == resources.limits.max_blocking_preloads,
        initial_permits(*resources.blocking_preloads) < initial_permits(
            *resources.blocking_producers,
        ),
{
}

/// A stream is admitted with the permit it got, and refused without one.
pub proof fn permits_admit_streams(
    permit: Option<OwnedSemaphorePermit>,
    max_streams: usize,
    result: Result<OwnedSemaphorePermit, MusicStreamError>,
)
    requires
        call_ensures(admission, (permit, max_streams), result),
    ensures
        permit is Some <==> result is Ok,
        permit matches Some(got) ==> result->Ok_0 == got,
        result matches Err(error) ==> error is Busy,
{
}

} // verus!
