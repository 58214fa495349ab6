//! The status bar's state and its once-a-second refresh.
use vstd::prelude::*;
use crate::clock::{
    clock_text, clock_text_spec, elapsed_millis, instant_now, is_clock_text, local_now,
    refresh_due, ClockReading, REFRESH_INTERVAL_MS,
};
use crate::workspace::{workspace_id_from_output, workspace_id_of_output};
use std::time::Instant;

verus! {

/// A percentage of one hundred per cent, in hundredths of a per cent.
pub const FULL_HUNDREDTHS: u64 = 10000;

/// What the status bar shows, and when it last refreshed.
pub struct App {
    /// Whether the driver should keep running.
    pub running: bool,
    /// The local time at the last refresh, as `HH:MM:SS DD/MM/YYYY`.
    pub current_time: String,
    /// Monotonic clock reading at the last refresh.
    pub last_tick: Instant,
    /// CPU load, in hundredths of a per cent.
    pub cpu_usage: u64,
    /// Share of memory in use, in hundredths of a per cent.
    pub ram_usage: u64,
    /// The focused workspace, when the last query named one.
    pub active_workspace_id: Option<u32>,
}

/// The fields of an [`App`] as values.
pub struct AppView {
    pub running: bool,
    pub current_time: Seq<char>,
    pub last_tick: Instant,
    pub cpu_usage: u64,
    pub ram_usage: u64,
    pub active_workspace_id: Option<u32>,
}

impl View for App {
    type V = AppView;

    open spec fn view(&self) -> AppView {
        AppView {
            running: self.running,
            current_time: self.current_time@,
            last_tick: self.last_tick,
            cpu_usage: self.cpu_usage,
            ram_usage: self.ram_usage,
            active_workspace_id: self.active_workspace_id,
        }
    }
}

/// One reading of the system's load, taken when a refresh is due.
pub struct Sample {
    /// CPU load over all cores, in hundredths of a per cent.
    pub cpu_usage: u64,
    /// Memory in use.
    pub used_memory: u64,
    /// All memory; zero when the system did not report it.
    pub total_memory: u64,
    /// What the window manager printed when asked for the active workspace,
    /// or `None` when it could not be asked.
    pub workspace_output: Option<Vec<u8>>,
}

/// `used` over `total` in hundredths of a per cent, rounded to nearest with
/// halves up, and capped at `u64::MAX`.
pub open spec fn ram_hundredths(used: nat, total: nat) -> u64
    recommends
        total > 0,
{
    let p = (used * 10000 + total / 2) / total;
    if p > u64::MAX {
        u64::MAX
    } else {
        p as u64
    }
}

/// The memory usage that `used` and `total` give; none when `total` is zero.
pub open spec fn ram_usage_spec(used: nat, total: nat) -> Option<u64> {
    if total == 0 {
        None
    } else {
        Some(ram_hundredths(used, total))
    }
}

/// The state after a tick that finds `elapsed_ms` milliseconds gone since the
/// last refresh, with `now` and `clock` read when the refresh happens.
pub open spec fn ticked(a: AppView, elapsed_ms: u128, now: Instant, clock: ClockReading) -> AppView {
    if elapsed_ms >= REFRESH_INTERVAL_MS {
        AppView { current_time: clock_text_spec(clock), last_tick: now, ..a }
    } else {
        a
    }
}

/// The workspace number that an optional window-manager output gives.
pub open spec fn sampled_workspace(output: Option<Vec<u8>>) -> Option<u32> {
    match output {
        Some(b) => workspace_id_of_output(b@),
        None => None,
    }
}

/// A CPU load held to the range of a percentage.
pub open spec fn cpu_share(hundredths: u64) -> u64 {
    if hundredths > FULL_HUNDREDTHS {
        FULL_HUNDREDTHS
    } else {
        hundredths
    }
}

/// The state after taking in `s`: CPU load held to at most one hundred per
/// cent, and memory usage as it was when the total is zero.
pub open spec fn sampled(a: AppView, s: Sample) -> AppView {
    AppView {
        cpu_usage: cpu_share(s.cpu_usage),
        ram_usage: match ram_usage_spec(s.used_memory as nat, s.total_memory as nat) {
            Some(p) => p,
            None => a.ram_usage,
        },
        active_workspace_id: sampled_workspace(s.workspace_output),
        ..a
    }
}

/// The state at start-up, stamped with `clock` and with `now` as the last
/// refresh.
pub open spec fn started(now: Instant, clock: ClockReading) -> AppView {
    AppView {
        running: true,
        current_time: clock_text_spec(clock),
        last_tick: now,
        cpu_usage: 0,
        ram_usage: 0,
        active_workspace_id: None,
    }
}

/// The state after `quit`.
pub open spec fn quitted(a: AppView) -> AppView {
    AppView { running: false, ..a }
}

/// Memory usage in hundredths of a per cent; `None` when `total` is zero,
/// where no share can be given.
pub fn ram_usage_of(used: u64, total: u64) -> (r: Option<u64>)
    ensures
        r == ram_usage_spec(used as nat, total as nat),
{
    if total == 0 {
        return None;
    }
    let p: u128 = ((used as u128) * 10000 + (total as u128) / 2) / (total as u128);
    if p > u64::MAX as u128 {
        Some(u64::MAX)
    } else {
        Some(p as u64)
    }
}

impl App {
    /// A running state stamped with `clock`, with `now` as the last refresh,
    /// and no load and no workspace known yet.
    pub fn new_at(now: Instant, clock: &ClockReading) -> (r: App)
        ensures
            r@ == started(now, *clock),
    {
        App {
            running: true,
            current_time: clock_text(clock),
            last_tick: now,
            cpu_usage: 0,
            ram_usage: 0,
            active_workspace_id: None,
        }
    }

    /// A running state stamped with the current time, with no load and no
    /// workspace known yet.
    pub fn new() -> (r: App)
        ensures
            exists|n: Instant, c: ClockReading| c.wf() && r@ == #[trigger] started(n, c),
            r.running,
            is_clock_text(r.current_time@),
            r.cpu_usage == 0,
            r.ram_usage == 0,
            r.active_workspace_id is None,
    {
        let clock = local_now();
        let r = App::new_at(instant_now(), &clock);
        assert(clock.wf() && r.current_time@ == clock_text_spec(clock));
        r
    }

    /// A tick that finds `elapsed_ms` milliseconds gone since the last
    /// refresh: when a second or more has gone, the time is restamped from
    /// `clock` and `now` becomes the last refresh. Returns whether it
    /// refreshed.
    pub fn tick_at(&mut self, elapsed_ms: u128, now: Instant, clock: &ClockReading) -> (r: bool)
        ensures
            r == (elapsed_ms >= REFRESH_INTERVAL_MS),
            final(self)@ == ticked(old(self)@, elapsed_ms, now, *clock),
    {
        if refresh_due(elapsed_ms) {
            self.current_time = clock_text(clock);
            self.last_tick = now;
            true
        } else {
            false
        }
    }

    /// Refreshes the time when a second or more has passed since the last
    /// refresh, and does nothing otherwise. Returns whether it refreshed: the
    /// driver then takes a [`Sample`] for [`App::refresh_metrics`].
    pub fn tick(&mut self) -> (r: bool)
        ensures
            !r ==> final(self)@ == old(self)@,
            r ==> exists|e: u128, n: Instant, c: ClockReading|
                c.wf() && e >= REFRESH_INTERVAL_MS && final(self)@ == #[trigger] ticked(
                    old(self)@,
                    e,
                    n,
                    c,
                ),
    {
        let elapsed = elapsed_millis(&self.last_tick);
        if refresh_due(elapsed) {
            let clock = local_now();
            let now = instant_now();
            self.tick_at(elapsed, now, &clock)
        } else {
            false
        }
    }

    /// Takes in a load reading: CPU load as given but at most one hundred per
    /// cent, memory usage from used
    /// over total (kept as it was when the total is zero), and the workspace
    /// from the window manager's output (`None` when it gives none).
    pub fn refresh_metrics(&mut self, sample: Sample)
        ensures
            final(self)@ == sampled(old(self)@, sample),
            final(self).cpu_usage <= FULL_HUNDREDTHS,
    {
        self.cpu_usage = if sample.cpu_usage > FULL_HUNDREDTHS {
            FULL_HUNDREDTHS
        } else {
            sample.cpu_usage
        };
        match ram_usage_of(sample.used_memory, sample.total_memory) {
            Some(p) => {
                self.ram_usage = p;
            },
            None => {},
        }
        self.active_workspace_id = match &sample.workspace_output {
            Some(b) => workspace_id_from_output(b.as_slice()),
            None => None,
        };
    }

    /// Stops the driver; nothing sets `running` again.
    pub fn quit(&mut self)
        ensures
            final(self)@ == quitted(old(self)@),
    {
        self.running = false;
    }
}

impl Default for App {
    fn default() -> (r: App)
        ensures
            r.running,
            is_clock_text(r.current_time@),
            r.cpu_usage == 0,
            r.ram_usage == 0,
            r.active_workspace_id is None,
    {
        App::new()
    }
}

/// A call that the driver makes on the state after start-up.
pub enum DriverCall {
    Tick { elapsed_ms: u128, now: Instant, clock: ClockReading },
    RefreshMetrics { sample: Sample },
    /// Drawing reads the state and leaves it as it is.
    Render,
}

/// The state after the driver's `calls`, in order.
pub open spec fn after_calls(a: AppView, calls: Seq<DriverCall>) -> AppView
    decreases calls.len(),
{
    if calls.len() == 0 {
        a
    } else {
        let b = match calls[0] {
            DriverCall::Tick { elapsed_ms, now, clock } => ticked(a, elapsed_ms, now, clock),
            DriverCall::RefreshMetrics { sample } => sampled(a, sample),
            DriverCall::Render => a,
        };
        after_calls(b, calls.drop_first())
    }
}

/// A tick that comes within a second of the previous one's refresh changes
/// nothing: ticking twice within a second leaves the state the first tick
/// made.
pub proof fn lemma_tick_within_interval(
    a: AppView,
    first_ms: u128,
    first_now: Instant,
    first_clock: ClockReading,
    second_ms: u128,
    second_now: Instant,
    second_clock: ClockReading,
)
    requires
        second_ms < REFRESH_INTERVAL_MS,
    ensures
        ticked(ticked(a, first_ms, first_now, first_clock), second_ms, second_now, second_clock)
            == ticked(a, first_ms, first_now, first_clock),
{
}

/// When `total` is not zero the memory usage is `used / total * 100` per
/// cent, to the nearest hundredth (within half a hundredth of the exact
/// share, scaled by `total`); it is at most one hundred per cent when
/// `used` does not exceed `total`.
pub proof fn lemma_ram_usage_exact(used: u64, total: u64)
    requires
        total > 0,
    ensures
        ram_usage_spec(used as nat, total as nat) is Some,
        used <= total ==> ram_hundredths(used as nat, total as nat) <= FULL_HUNDREDTHS,
        (used * 10000 + total / 2) / (total as int) <= u64::MAX ==> {
            let p = ram_hundredths(used as nat, total as nat) as int;
            p * total <= used * 10000 + total / 2 < p * total + total
        },
{
    let u = used as int;
    let t = total as int;
    let q = (u * 10000 + t / 2) / t;
    assert(q * t <= u * 10000 + t / 2 < q * t + t) by (nonlinear_arith)
        requires
            t > 0,
            q == (u * 10000 + t / 2) / t,
            u >= 0,
    ;
    if used <= total {
        assert(q <= 10000) by (nonlinear_arith)
            requires
                t > 0,
                u <= t,
                q * t <= u * 10000 + t / 2,
                t / 2 < t,
        ;
    }
}

/// Memory usage stays as it was when the system reports no total memory, so
/// a zero total never yields a meaningless share.
pub proof fn lemma_zero_total_keeps_ram_usage(a: AppView, s: Sample)
    requires
        s.total_memory == 0,
    ensures
        sampled(a, s).ram_usage == a.ram_usage,
{
}

/// Once quit, the state stays stopped whatever ticks, load readings and
/// redraws follow.
pub proof fn lemma_quit_is_final(a: AppView, calls: Seq<DriverCall>)
    ensures
        !after_calls(quitted(a), calls).running,
    decreases calls.len(),
{
    lemma_stopped_stays_stopped(quitted(a), calls);
}

proof fn lemma_stopped_stays_stopped(a: AppView, calls: Seq<DriverCall>)
    requires
        !a.running,
    ensures
        !after_calls(a, calls).running,
    decreases calls.len(),
{
    if calls.len() > 0 {
        let b = match calls[0] {
            DriverCall::Tick { elapsed_ms, now, clock } => ticked(a, elapsed_ms, now, clock),
            DriverCall::RefreshMetrics { sample } => sampled(a, sample),
            DriverCall::Render => a,
        };
        lemma_stopped_stays_stopped(b, calls.drop_first());
    }
}

/// A refresh (a tick a second or more after the last one, then the load
/// reading it calls for) sets memory usage to `used / total * 100` per cent
/// to the nearest hundredth, when the total is not zero and the share fits.
pub proof fn lemma_refresh_sets_ram_share(
    a: AppView,
    elapsed_ms: u128,
    now: Instant,
    clock: ClockReading,
    s: Sample,
)
    requires
        elapsed_ms >= REFRESH_INTERVAL_MS,
        s.total_memory > 0,
        (s.used_memory * 10000 + s.total_memory / 2) / (s.total_memory as int) <= u64::MAX,
    ensures
        ({
            let p = sampled(ticked(a, elapsed_ms, now, clock), s).ram_usage as int;
            p * s.total_memory <= s.used_memory * 10000 + s.total_memory / 2 < p * s.total_memory
                + s.total_memory
        }),
        s.used_memory <= s.total_memory ==> sampled(
            ticked(a, elapsed_ms, now, clock),
            s,
        ).ram_usage <= FULL_HUNDREDTHS,
        sampled(ticked(a, elapsed_ms, now, clock), s).current_time == clock_text_spec(clock),
{
    lemma_ram_usage_exact(s.used_memory, s.total_memory);
}

} // verus!
