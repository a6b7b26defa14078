//! Shared application state: the dictation phase, the download in flight, the
//! latency samples and the snapshot the UI and tray render from.
use vstd::prelude::*;
use std::collections::VecDeque;
use std::sync::Arc;
use std::sync::atomic::AtomicBool;
use crate::model::{clamp, parse_trimmed_u64, parsed_trimmed};
use crate::stats::{
    max_of, max_u64, mean_of, mean_u64, p50_of, p50_u64, p95_of, p95_u64,
};
use crate::text::{chars_of, str_eq, trim, trim_vec};

verus! {

/// Where the dictation loop currently is. Drives the tray icon and the UI.
#[derive(Debug, Clone, Copy, PartialEq, Eq, Structural)]
pub enum Phase {
    Idle,
    Recording,
    Transcribing,
    Inserting,
    Error,
}

pub struct StatusState {
    pub phase: Phase,
    pub message: Option<String>,
    /// Last auto-paste needed Accessibility permission that wasn't granted.
    pub needs_accessibility: bool,
}

impl Default for StatusState {
    fn default() -> (r: Self)
        ensures
            r.phase == Phase::Idle,
            r.message is None,
            !r.needs_accessibility,
    {
        StatusState { phase: Phase::Idle, message: None, needs_accessibility: false }
    }
}

impl StatusState {
    /// Move to `phase` with `message`; the accessibility flag stays.
    pub fn set_phase(&mut self, phase: Phase, message: Option<String>)
        ensures
            final(self).phase == phase,
            final(self).message == message,
            final(self).needs_accessibility == old(self).needs_accessibility,
    {
        self.phase = phase;
        self.message = message;
    }
}

/// The model download in flight, if any.
pub struct DownloadState {
    pub active: bool,
    pub model_id: Option<String>,
    pub downloaded: u64,
    pub total: Option<u64>,
    pub cancel: Arc<AtomicBool>,
}

impl Default for DownloadState {
    fn default() -> (r: Self)
        ensures
            !r.active,
            r.model_id is None,
            r.downloaded == 0,
            r.total is None,
    {
        DownloadState {
            active: false,
            model_id: None,
            downloaded: 0,
            total: None,
            cancel: Arc::new(AtomicBool::new(false)),
        }
    }
}

/// Why a new download cannot start while one is in flight.
pub open spec fn busy_message() -> Seq<char> {
    "A download is already in progress."@
}

impl DownloadState {
    /// Claim the download slot for `model_id`: refused while another download
    /// is in flight; otherwise progress starts over with a fresh cancellation flag.
    pub fn begin(&mut self, model_id: &str) -> (r: Result<(), String>)
        ensures
            old(self).active ==> (r matches Err(m) && m@ == busy_message()) && final(self).active
                && final(self).model_id == old(self).model_id && final(self).downloaded == old(
                self,
            ).downloaded && final(self).total == old(self).total,
            !old(self).active ==> r is Ok && final(self).active && (final(self).model_id matches Some(
                m,
            ) && m@ == model_id@) && final(self).downloaded == 0 && final(self).total is None,
    {
        if self.active {
            return Err(crate::text::owned("A download is already in progress."));
        }
        self.active = true;
        self.model_id = Some(crate::text::owned(model_id));
        self.downloaded = 0;
        self.total = None;
        self.cancel = Arc::new(AtomicBool::new(false));
        Ok(())
    }

    /// Record progress of the download in flight.
    pub fn record_progress(&mut self, downloaded: u64, total: Option<u64>)
        ensures
            final(self).active == old(self).active,
            final(self).model_id == old(self).model_id,
            final(self).downloaded == downloaded,
            final(self).total == total,
    {
        self.downloaded = downloaded;
        self.total = total;
    }

    /// Release the download slot.
    pub fn finish(&mut self)
        ensures
            !final(self).active,
            final(self).model_id is None,
            final(self).downloaded == old(self).downloaded,
            final(self).total == old(self).total,
    {
        self.active = false;
        self.model_id = None;
    }

    /// Whether `model_id` is the model being downloaded.
    pub fn is_downloading(&self, model_id: &str) -> (r: bool)
        ensures
            r == (self.active && (self.model_id matches Some(m) && m@ == model_id@)),
    {
        if !self.active {
            return false;
        }
        match &self.model_id {
            Some(m) => str_eq(m.as_str(), model_id),
            None => false,
        }
    }
}

/// The sample window never grows past its size; the newest sample is last
/// and the older ones keep their order, the oldest leaving when it is full.
pub proof fn law_window<T>(s: Seq<T>, x: T, cap: nat)
    requires
        s.len() <= cap,
        cap > 0,
    ensures
        windowed(s, x, cap).len() <= cap,
        windowed(s, x, cap).last() == x,
        s.len() < cap ==> windowed(s, x, cap).drop_last() == s,
        s.len() == cap ==> windowed(s, x, cap).drop_last() == s.drop_first(),
{
    assert(s.push(x).drop_last() =~= s);
    if s.len() > 0 {
        assert(s.drop_first().push(x).drop_last() =~= s.drop_first());
    }
}

/// One dictation, timed.
#[derive(Debug, Clone)]
pub struct PerfSample {
    pub wall_time_ms: u64,
    pub capture_ms: u64,
    pub transcribe_ms: u64,
    pub insert_ms: u64,
    pub total_ms: u64,
    pub audio_samples: usize,
    pub text_chars: usize,
    pub outcome: String,
}

/// One model download, timed.
#[derive(Debug, Clone)]
pub struct DownloadPerfSample {
    pub wall_time_ms: u64,
    pub total_ms: u64,
    pub downloaded_bytes: u64,
    pub expected_bytes: Option<u64>,
    pub outcome: String,
}

#[derive(Debug, Clone)]
pub struct PerfSnapshot {
    pub enabled: bool,
    pub budget_ms: u64,
    pub sample_count: usize,
    pub average_total_ms: u64,
    pub p50_total_ms: u64,
    pub p95_total_ms: u64,
    pub max_total_ms: u64,
    pub over_budget_count: usize,
    pub average_capture_ms: u64,
    pub average_transcribe_ms: u64,
    pub average_insert_ms: u64,
    pub pasted_count: usize,
    pub clipboard_only_count: usize,
    pub insert_error_count: usize,
    pub download_sample_count: usize,
    pub average_download_ms: u64,
    pub p95_download_ms: u64,
    pub max_download_ms: u64,
    pub last: Option<PerfSample>,
    pub last_download: Option<DownloadPerfSample>,
}

/// How many dictation samples are kept.
pub const SAMPLE_WINDOW: usize = 128;

/// How many download samples are kept.
pub const DOWNLOAD_WINDOW: usize = 64;

/// The four timings of a dictation sample, by number: total, capture,
/// transcribe, insert.
pub open spec fn timing(x: PerfSample, which: u8) -> u64 {
    if which == 0 {
        x.total_ms
    } else if which == 1 {
        x.capture_ms
    } else if which == 2 {
        x.transcribe_ms
    } else {
        x.insert_ms
    }
}

pub open spec fn timings(s: Seq<PerfSample>, which: u8) -> Seq<u64> {
    s.map_values(|x: PerfSample| timing(x, which))
}

pub open spec fn download_totals(s: Seq<DownloadPerfSample>) -> Seq<u64> {
    s.map_values(|x: DownloadPerfSample| x.total_ms)
}

/// How many samples took longer than `budget`.
pub open spec fn count_over(s: Seq<PerfSample>, budget: u64) -> nat
    decreases s.len(),
{
    if s.len() == 0 {
        0
    } else {
        count_over(s.drop_last(), budget) + if s.last().total_ms > budget {
            1nat
        } else {
            0nat
        }
    }
}

/// How many samples ended with `outcome`.
pub open spec fn count_outcome(s: Seq<PerfSample>, outcome: Seq<char>) -> nat
    decreases s.len(),
{
    if s.len() == 0 {
        0
    } else {
        count_outcome(s.drop_last(), outcome) + if s.last().outcome@ == outcome {
            1nat
        } else {
            0nat
        }
    }
}

/// The sample as stored: a missing wall time (0) is filled with `now_ms`.
pub open spec fn stamped(x: PerfSample, now_ms: u64) -> PerfSample {
    if x.wall_time_ms == 0 {
        PerfSample { wall_time_ms: now_ms, ..x }
    } else {
        x
    }
}

pub open spec fn stamped_download(x: DownloadPerfSample, now_ms: u64) -> DownloadPerfSample {
    if x.wall_time_ms == 0 {
        DownloadPerfSample { wall_time_ms: now_ms, ..x }
    } else {
        x
    }
}

/// A window of at most `cap` items after `x` arrives: the oldest leaves when full.
pub open spec fn windowed<T>(s: Seq<T>, x: T, cap: nat) -> Seq<T> {
    if s.len() >= cap {
        s.drop_first().push(x)
    } else {
        s.push(x)
    }
}

/// Whether the profiling switch is on: `1`, `true`, `TRUE`, `yes` or `YES`,
/// around whitespace.
pub open spec fn profile_switch_on(raw: Option<&str>) -> bool {
    match raw {
        Some(v) => {
            let t = trim(v@);
            t == "1"@ || t == "true"@ || t == "TRUE"@ || t == "yes"@ || t == "YES"@
        },
        None => false,
    }
}

/// The latency budget: the parsed milliseconds kept within 500 ..= 120000, or 8000.
pub open spec fn budget_from(raw: Option<&str>) -> nat {
    match parsed_trimmed(raw, u64::MAX as nat) {
        Some(v) => clamp(v, 500, 120_000),
        None => 8_000,
    }
}

/// Latency samples kept for the profiling view.
pub struct PerfState {
    enabled: bool,
    budget_ms: u64,
    samples: VecDeque<PerfSample>,
    download_samples: VecDeque<DownloadPerfSample>,
}

impl PerfState {
    #[verifier::type_invariant]
    spec fn windows_bounded(self) -> bool {
        &&& self.samples.len() <= SAMPLE_WINDOW
        &&& self.download_samples.len() <= DOWNLOAD_WINDOW
    }

    pub closed spec fn is_enabled(&self) -> bool {
        self.enabled
    }

    pub closed spec fn budget(&self) -> u64 {
        self.budget_ms
    }

    /// The dictation samples kept, oldest first.
    pub closed spec fn samples_kept(&self) -> Seq<PerfSample> {
        self.samples@
    }

    /// The download samples kept, oldest first.
    pub closed spec fn downloads_kept(&self) -> Seq<DownloadPerfSample> {
        self.download_samples@
    }

    /// Profiling state from the two switches `SPIEL_PROFILE` and
    /// `SPIEL_LATENCY_BUDGET_MS` (their values, when set).
    pub fn new(profile: Option<&str>, budget: Option<&str>) -> (r: Self)
        ensures
            r.is_enabled() == profile_switch_on(profile),
            r.budget() == budget_from(budget),
            r.samples_kept().len() == 0,
            r.downloads_kept().len() == 0,
    {
        let enabled = match profile {
            Some(v) => {
                let t = trim_vec(&chars_of(v));
                let s = crate::text::string_of(&t);
                let s = s.as_str();
                str_eq(s, "1") || str_eq(s, "true") || str_eq(s, "TRUE") || str_eq(s, "yes")
                    || str_eq(s, "YES")
            },
            None => false,
        };
        let budget_ms = match parse_trimmed_u64(budget) {
            Some(v) => if v < 500 {
                500
            } else if v > 120_000 {
                120_000
            } else {
                v
            },
            None => 8_000,
        };
        PerfState {
            enabled,
            budget_ms,
            samples: VecDeque::with_capacity(SAMPLE_WINDOW),
            download_samples: VecDeque::with_capacity(DOWNLOAD_WINDOW),
        }
    }

    /// Keep a dictation sample stamped with `now_ms` when it has no wall time;
    /// nothing is kept while profiling is off. Returns whether the sample went
    /// over the latency budget (and so deserves a log line).
    pub fn record_perf_sample_at(&mut self, sample: PerfSample, now_ms: u64) -> (over: bool)
        ensures
            over == (old(self).is_enabled() && sample.total_ms > old(self).budget()),
            final(self).is_enabled() == old(self).is_enabled(),
            final(self).budget() == old(self).budget(),
            final(self).downloads_kept() == old(self).downloads_kept(),
            final(self).samples_kept() == if old(self).is_enabled() {
                windowed(old(self).samples_kept(), stamped(sample, now_ms), SAMPLE_WINDOW as nat)
            } else {
                old(self).samples_kept()
            },
    {
        proof {
            use_type_invariant(&*self);
        }
        if !self.enabled {
            return false;
        }
        let mut sample = sample;
        if sample.wall_time_ms == 0 {
            sample.wall_time_ms = now_ms;
        }
        let over = sample.total_ms > self.budget_ms;
        let mut kept: VecDeque<PerfSample> = VecDeque::new();
        std::mem::swap(&mut kept, &mut self.samples);
        if kept.len() >= SAMPLE_WINDOW {
            kept.pop_front();
        }
        kept.push_back(sample);
        self.samples = kept;
        over
    }

    /// Keep a dictation sample, stamping a missing wall time with the clock.
    pub fn record_perf_sample(&mut self, sample: PerfSample) -> (over: bool)
        ensures
            over == (old(self).is_enabled() && sample.total_ms > old(self).budget()),
            final(self).is_enabled() == old(self).is_enabled(),
            final(self).budget() == old(self).budget(),
            final(self).downloads_kept() == old(self).downloads_kept(),
            old(self).is_enabled() ==> exists|now: u64|
                #![trigger stamped(sample, now)]
                final(self).samples_kept() == windowed(
                    old(self).samples_kept(),
                    stamped(sample, now),
                    SAMPLE_WINDOW as nat,
                ),
            !old(self).is_enabled() ==> final(self).samples_kept() == old(self).samples_kept(),
    {
        let now = crate::clock::unix_time_ms();
        self.record_perf_sample_at(sample, now)
    }

    /// Keep a download sample stamped with `now_ms` when it has no wall time;
    /// nothing is kept while profiling is off.
    pub fn record_download_sample_at(&mut self, sample: DownloadPerfSample, now_ms: u64)
        ensures
            final(self).is_enabled() == old(self).is_enabled(),
            final(self).budget() == old(self).budget(),
            final(self).samples_kept() == old(self).samples_kept(),
            final(self).downloads_kept() == if old(self).is_enabled() {
                windowed(
                    old(self).downloads_kept(),
                    stamped_download(sample, now_ms),
                    DOWNLOAD_WINDOW as nat,
                )
            } else {
                old(self).downloads_kept()
            },
    {
        proof {
            use_type_invariant(&*self);
        }
        if !self.enabled {
            return;
        }
        let mut sample = sample;
        if sample.wall_time_ms == 0 {
            sample.wall_time_ms = now_ms;
        }
        let mut kept: VecDeque<DownloadPerfSample> = VecDeque::new();
        std::mem::swap(&mut kept, &mut self.download_samples);
        if kept.len() >= DOWNLOAD_WINDOW {
            kept.pop_front();
        }
        kept.push_back(sample);
        self.download_samples = kept;
    }

    /// Keep a download sample, stamping a missing wall time with the clock.
    pub fn record_download_sample(&mut self, sample: DownloadPerfSample)
        ensures
            final(self).is_enabled() == old(self).is_enabled(),
            final(self).budget() == old(self).budget(),
            final(self).samples_kept() == old(self).samples_kept(),
            old(self).is_enabled() ==> exists|now: u64|
                #![trigger stamped_download(sample, now)]
                final(self).downloads_kept() == windowed(
                    old(self).downloads_kept(),
                    stamped_download(sample, now),
                    DOWNLOAD_WINDOW as nat,
                ),
            !old(self).is_enabled() ==> final(self).downloads_kept() == old(self).downloads_kept(),
    {
        let now = crate::clock::unix_time_ms();
        self.record_download_sample_at(sample, now)
    }

    /// Forget every sample; the switches stay.
    pub fn clear_perf_samples(&mut self)
        ensures
            final(self).is_enabled() == old(self).is_enabled(),
            final(self).budget() == old(self).budget(),
            final(self).samples_kept().len() == 0,
            final(self).downloads_kept().len() == 0,
    {
        proof {
            use_type_invariant(&*self);
        }
        self.samples = VecDeque::new();
        self.download_samples = VecDeque::new();
    }
}


/// The timing column `which` of the samples.
fn timing_column(v: &VecDeque<PerfSample>, which: u8) -> (r: Vec<u64>)
    ensures
        r@ == timings(v@, which),
{
    let mut out: Vec<u64> = Vec::new();
    let mut i: usize = 0;
    while i < v.len()
        invariant
            i <= v.len(),
            out@ == timings(v@.take(i as int), which),
        decreases v.len() - i,
    {
        let x = &v[i];
        let t = if which == 0 {
            x.total_ms
        } else if which == 1 {
            x.capture_ms
        } else if which == 2 {
            x.transcribe_ms
        } else {
            x.insert_ms
        };
        out.push(t);
        assert(timings(v@.take(i as int + 1), which) =~= timings(v@.take(i as int), which).push(t));
        i += 1;
    }
    assert(v@.take(v.len() as int) =~= v@);
    out
}

/// The total times of the download samples.
fn download_column(v: &VecDeque<DownloadPerfSample>) -> (r: Vec<u64>)
    ensures
        r@ == download_totals(v@),
{
    let mut out: Vec<u64> = Vec::new();
    let mut i: usize = 0;
    while i < v.len()
        invariant
            i <= v.len(),
            out@ == download_totals(v@.take(i as int)),
        decreases v.len() - i,
    {
        out.push(v[i].total_ms);
        assert(download_totals(v@.take(i as int + 1)) =~= download_totals(v@.take(i as int)).push(
            v@[i as int].total_ms,
        ));
        i += 1;
    }
    assert(v@.take(v.len() as int) =~= v@);
    out
}

fn count_over_budget(v: &VecDeque<PerfSample>, budget: u64) -> (r: usize)
    ensures
        r == count_over(v@, budget),
{
    let mut n: usize = 0;
    let mut i: usize = 0;
    while i < v.len()
        invariant
            i <= v.len(),
            n == count_over(v@.take(i as int), budget),
            n <= i,
        decreases v.len() - i,
    {
        assert(v@.take(i as int + 1).drop_last() =~= v@.take(i as int));
        if v[i].total_ms > budget {
            n += 1;
        }
        i += 1;
    }
    assert(v@.take(v.len() as int) =~= v@);
    n
}

fn count_with_outcome(v: &VecDeque<PerfSample>, outcome: &str) -> (r: usize)
    ensures
        r == count_outcome(v@, outcome@),
{
    let mut n: usize = 0;
    let mut i: usize = 0;
    while i < v.len()
        invariant
            i <= v.len(),
            n == count_outcome(v@.take(i as int), outcome@),
            n <= i,
        decreases v.len() - i,
    {
        assert(v@.take(i as int + 1).drop_last() =~= v@.take(i as int));
        if str_eq(v[i].outcome.as_str(), outcome) {
            n += 1;
        }
        i += 1;
    }
    assert(v@.take(v.len() as int) =~= v@);
    n
}

fn copy_sample(x: &PerfSample) -> (r: PerfSample)
    ensures
        r == *x,
{
    PerfSample {
        wall_time_ms: x.wall_time_ms,
        capture_ms: x.capture_ms,
        transcribe_ms: x.transcribe_ms,
        insert_ms: x.insert_ms,
        total_ms: x.total_ms,
        audio_samples: x.audio_samples,
        text_chars: x.text_chars,
        outcome: x.outcome.clone(),
    }
}

fn copy_download_sample(x: &DownloadPerfSample) -> (r: DownloadPerfSample)
    ensures
        r == *x,
{
    DownloadPerfSample {
        wall_time_ms: x.wall_time_ms,
        total_ms: x.total_ms,
        downloaded_bytes: x.downloaded_bytes,
        expected_bytes: x.expected_bytes,
        outcome: x.outcome.clone(),
    }
}

/// The last item of `s`, if any.
pub open spec fn last_of<T>(s: Seq<T>) -> Option<T> {
    if s.len() == 0 {
        None
    } else {
        Some(s.last())
    }
}

/// Everything the profiling view shows about `samples` and `downloads`.
pub open spec fn describes_perf(
    r: PerfSnapshot,
    enabled: bool,
    budget: u64,
    samples: Seq<PerfSample>,
    downloads: Seq<DownloadPerfSample>,
) -> bool {
    &&& r.enabled == enabled
    &&& r.budget_ms == budget
    &&& r.sample_count == samples.len()
    &&& r.average_total_ms == mean_u64(timings(samples, 0))
    &&& r.p50_total_ms == p50_u64(timings(samples, 0))
    &&& r.p95_total_ms == p95_u64(timings(samples, 0))
    &&& r.max_total_ms == max_u64(timings(samples, 0))
    &&& r.over_budget_count == count_over(samples, budget)
    &&& r.average_capture_ms == mean_u64(timings(samples, 1))
    &&& r.average_transcribe_ms == mean_u64(timings(samples, 2))
    &&& r.average_insert_ms == mean_u64(timings(samples, 3))
    &&& r.pasted_count == count_outcome(samples, "pasted"@)
    &&& r.clipboard_only_count == count_outcome(samples, "clipboard_only"@)
    &&& r.insert_error_count == count_outcome(samples, "insert_error"@)
    &&& r.download_sample_count == downloads.len()
    &&& r.average_download_ms == mean_u64(download_totals(downloads))
    &&& r.p95_download_ms == p95_u64(download_totals(downloads))
    &&& r.max_download_ms == max_u64(download_totals(downloads))
    &&& r.last == last_of(samples)
    &&& r.last_download == last_of(downloads)
}

impl PerfState {
    /// Averages, percentiles, maxima and outcome counts over the kept samples.
    pub fn perf_snapshot(&self) -> (r: PerfSnapshot)
        ensures
            describes_perf(
                r,
                self.is_enabled(),
                self.budget(),
                self.samples_kept(),
                self.downloads_kept(),
            ),
    {
        proof {
            use_type_invariant(self);
        }
        let totals = timing_column(&self.samples, 0);
        let captures = timing_column(&self.samples, 1);
        let transcribes = timing_column(&self.samples, 2);
        let inserts = timing_column(&self.samples, 3);
        let downloads = download_column(&self.download_samples);
        let n = self.samples.len();
        let dn = self.download_samples.len();
        PerfSnapshot {
            enabled: self.enabled,
            budget_ms: self.budget_ms,
            sample_count: n,
            average_total_ms: mean_of(&totals),
            p50_total_ms: p50_of(&totals),
            p95_total_ms: p95_of(&totals),
            max_total_ms: max_of(&totals),
            over_budget_count: count_over_budget(&self.samples, self.budget_ms),
            average_capture_ms: mean_of(&captures),
            average_transcribe_ms: mean_of(&transcribes),
            average_insert_ms: mean_of(&inserts),
            pasted_count: count_with_outcome(&self.samples, "pasted"),
            clipboard_only_count: count_with_outcome(&self.samples, "clipboard_only"),
            insert_error_count: count_with_outcome(&self.samples, "insert_error"),
            download_sample_count: dn,
            average_download_ms: mean_of(&downloads),
            p95_download_ms: p95_of(&downloads),
            max_download_ms: max_of(&downloads),
            last: if n == 0 {
                None
            } else {
                Some(copy_sample(&self.samples[n - 1]))
            },
            last_download: if dn == 0 {
                None
            } else {
                Some(copy_download_sample(&self.download_samples[dn - 1]))
            },
        }
    }
}

/// Everything the frontend and the tray need in one shot.
#[derive(Debug, Clone)]
pub struct StatusSnapshot {
    pub phase: Phase,
    pub message: Option<String>,
    pub needs_accessibility: bool,
    pub recording_elapsed_ms: u64,
    pub model_id: String,
    pub model_installed: bool,
    pub accessibility_trusted: bool,
    pub accessibility_supported: bool,
}

/// A copy of an optional message.
pub fn copy_message(m: &Option<String>) -> (r: Option<String>)
    ensures
        r == *m,
{
    match m {
        Some(s) => Some(s.clone()),
        None => None,
    }
}

/// The snapshot of `status` for the current model, given whether the
/// platform has an Accessibility permission and whether the app holds it:
/// the accessibility prompt is only still needed while the permission is
/// missing.
pub fn status_snapshot(
    status: &StatusState,
    recording_elapsed_ms: u64,
    model_id: String,
    model_installed: bool,
    accessibility_supported: bool,
    accessibility_trusted: bool,
) -> (r: StatusSnapshot)
    ensures
        r.phase == status.phase,
        r.message == status.message,
        r.needs_accessibility == (status.needs_accessibility && !accessibility_trusted),
        r.recording_elapsed_ms == recording_elapsed_ms,
        r.model_id == model_id,
        r.model_installed == model_installed,
        r.accessibility_trusted == (accessibility_supported && accessibility_trusted),
        r.accessibility_supported == accessibility_supported,
{
    StatusSnapshot {
        phase: status.phase,
        message: copy_message(&status.message),
        needs_accessibility: status.needs_accessibility && !accessibility_trusted,
        recording_elapsed_ms,
        model_id,
        model_installed,
        accessibility_trusted: accessibility_supported && accessibility_trusted,
        accessibility_supported,
    }
}

} // verus!
