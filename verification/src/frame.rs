//! The record of one frame: what it was drawn with, and what drawing it
//! cost.

use crate::ui::UIEvent;
use vstd::prelude::*;

verus! {

/// A length of time in nanoseconds.
#[derive(Clone, Copy, Debug, PartialEq, Eq, Structural)]
pub struct TimeSpan {
    pub nanos: u128,
}

/// The number of nanoseconds in a second.
pub const NANOS_PER_SEC: u128 = 1_000_000_000;

impl TimeSpan {
    /// The whole seconds of the time and the nanoseconds beyond them, as far
    /// as seconds can be counted in a `u64`; a longer time counts as the
    /// longest that can be told this way.
    pub open spec fn parts(self) -> (u64, u32) {
        if self.nanos / NANOS_PER_SEC <= u64::MAX {
            ((self.nanos / NANOS_PER_SEC) as u64, (self.nanos % NANOS_PER_SEC) as u32)
        } else {
            (u64::MAX, 999_999_999)
        }
    }

    /// The time of `secs` seconds and `nanos` nanoseconds.
    pub open spec fn of_parts(secs: u64, nanos: u32) -> TimeSpan {
        TimeSpan { nanos: (secs * NANOS_PER_SEC + nanos) as u128 }
    }

    /// Puts a time together from seconds and nanoseconds.
    pub fn from_parts(secs: u64, nanos: u32) -> (time: TimeSpan)
        ensures
            time == TimeSpan::of_parts(secs, nanos),
            nanos < NANOS_PER_SEC ==> time.parts() == (secs, nanos),
    {
        assert(secs * NANOS_PER_SEC + nanos <= u128::MAX) by (nonlinear_arith)
            requires
                secs <= u64::MAX,
                nanos <= u32::MAX,
                NANOS_PER_SEC == 1_000_000_000,
        ;
        let total: u128 = (secs as u128) * NANOS_PER_SEC + (nanos as u128);
        assert(nanos < NANOS_PER_SEC ==> total / NANOS_PER_SEC == secs && total % NANOS_PER_SEC
            == nanos) by (nonlinear_arith)
            requires
                total == secs * NANOS_PER_SEC + nanos,
                NANOS_PER_SEC == 1_000_000_000,
                0 <= nanos,
                0 <= secs,
        ;
        TimeSpan { nanos: total }
    }

    /// Takes a time apart into whole seconds and the nanoseconds beyond
    /// them.
    pub fn split(self) -> (parts: (u64, u32))
        ensures
            parts == self.parts(),
            parts.1 < NANOS_PER_SEC,
    {
        let secs: u128 = self.nanos / NANOS_PER_SEC;
        if secs <= u64::MAX as u128 {
            (secs as u64, (self.nanos % NANOS_PER_SEC) as u32)
        } else {
            (u64::MAX, 999_999_999)
        }
    }
}

/// What the renderer counted while it drew one scene.
#[derive(Clone, Copy, Debug, PartialEq, Eq, Structural)]
pub struct RenderStats {
    pub path_count: usize,
    pub fill_count: usize,
    pub alpha_tile_count: usize,
    pub solid_tile_count: usize,
}

/// Counts added up, without a limit.
pub struct StatsTotal {
    pub path_count: int,
    pub fill_count: int,
    pub alpha_tile_count: int,
    pub solid_tile_count: int,
}

impl StatsTotal {
    pub open spec fn zero() -> StatsTotal {
        StatsTotal { path_count: 0, fill_count: 0, alpha_tile_count: 0, solid_tile_count: 0 }
    }

    pub open spec fn plus(self, stats: RenderStats) -> StatsTotal {
        StatsTotal {
            path_count: self.path_count + stats.path_count,
            fill_count: self.fill_count + stats.fill_count,
            alpha_tile_count: self.alpha_tile_count + stats.alpha_tile_count,
            solid_tile_count: self.solid_tile_count + stats.solid_tile_count,
        }
    }

    /// Whether every count can be held in a `usize`.
    pub open spec fn fits(self) -> bool {
        &&& self.path_count <= usize::MAX
        &&& self.fill_count <= usize::MAX
        &&& self.alpha_tile_count <= usize::MAX
        &&& self.solid_tile_count <= usize::MAX
    }

    /// Whether no count of `self` is above that of `other`.
    pub open spec fn within(self, other: StatsTotal) -> bool {
        &&& self.path_count <= other.path_count
        &&& self.fill_count <= other.fill_count
        &&& self.alpha_tile_count <= other.alpha_tile_count
        &&& self.solid_tile_count <= other.solid_tile_count
    }
}

impl RenderStats {
    pub open spec fn as_total(self) -> StatsTotal {
        StatsTotal::zero().plus(self)
    }
}

/// The counts of all of `stats` together.
pub open spec fn total_stats(stats: Seq<RenderStats>) -> StatsTotal
    decreases stats.len(),
{
    if stats.len() == 0 {
        StatsTotal::zero()
    } else {
        total_stats(stats.drop_last()).plus(stats.last())
    }
}

/// The sum of `times` in nanoseconds.
pub open spec fn total_time(times: Seq<TimeSpan>) -> int
    decreases times.len(),
{
    if times.len() == 0 {
        0
    } else {
        total_time(times.drop_last()) + times.last().nanos
    }
}

/// The counts of a part of `stats`, taken from the start, are within those
/// of the whole.
proof fn lemma_total_stats_grows(stats: Seq<RenderStats>, n: int)
    requires
        0 <= n <= stats.len(),
    ensures
        total_stats(stats.take(n)).within(total_stats(stats)),
    decreases stats.len() - n,
{
    if n == stats.len() {
        assert(stats.take(n) =~= stats);
    } else {
        lemma_total_stats_grows(stats, n + 1);
        assert(stats.take(n + 1).drop_last() =~= stats.take(n));
    }
}

/// The sum of a part of `times`, taken from the start, is at most that of the
/// whole.
proof fn lemma_total_time_grows(times: Seq<TimeSpan>, n: int)
    requires
        0 <= n <= times.len(),
    ensures
        total_time(times.take(n)) <= total_time(times),
    decreases times.len() - n,
{
    if n == times.len() {
        assert(times.take(n) =~= times);
    } else {
        lemma_total_time_grows(times, n + 1);
        assert(times.take(n + 1).drop_last() =~= times.take(n));
    }
}

/// Adds up what the renderer counted over the scenes of a frame. There is no
/// sum where a count would not fit.
pub fn aggregate_stats(stats: &Vec<RenderStats>) -> (sum: Option<RenderStats>)
    ensures
        sum is Some <==> total_stats(stats@).fits(),
        sum is Some ==> sum.unwrap().as_total() == total_stats(stats@),
{
    let mut sum = RenderStats {
        path_count: 0,
        fill_count: 0,
        alpha_tile_count: 0,
        solid_tile_count: 0,
    };
    let mut i: usize = 0;
    while i < stats.len()
        invariant
            0 <= i <= stats.len(),
            sum.as_total() == total_stats(stats@.take(i as int)),
        decreases stats.len() - i,
    {
        let item = stats[i];
        proof {
            assert(stats@.take(i + 1).drop_last() =~= stats@.take(i as int));
            lemma_total_stats_grows(stats@, i + 1);
        }
        let path_count = sum.path_count.checked_add(item.path_count);
        let fill_count = sum.fill_count.checked_add(item.fill_count);
        let alpha_tile_count = sum.alpha_tile_count.checked_add(item.alpha_tile_count);
        let solid_tile_count = sum.solid_tile_count.checked_add(item.solid_tile_count);
        match (path_count, fill_count, alpha_tile_count, solid_tile_count) {
            (Some(path_count), Some(fill_count), Some(alpha_tile_count), Some(solid_tile_count)) => {
                sum = RenderStats { path_count, fill_count, alpha_tile_count, solid_tile_count };
            },
            _ => {
                return None;
            },
        }
        i += 1;
    }
    assert(stats@.take(i as int) =~= stats@);
    Some(sum)
}

/// Adds up the times that the scenes of a frame took. There is no sum where
/// it would not fit.
pub fn aggregate_times(times: &Vec<TimeSpan>) -> (sum: Option<TimeSpan>)
    ensures
        sum is Some <==> total_time(times@) <= u128::MAX,
        sum is Some ==> sum.unwrap().nanos == total_time(times@),
{
    let mut nanos: u128 = 0;
    let mut i: usize = 0;
    while i < times.len()
        invariant
            0 <= i <= times.len(),
            nanos == total_time(times@.take(i as int)),
        decreases times.len() - i,
    {
        proof {
            assert(times@.take(i + 1).drop_last() =~= times@.take(i as int));
            lemma_total_time_grows(times@, i + 1);
        }
        match nanos.checked_add(times[i].nanos) {
            Some(longer) => {
                nanos = longer;
            },
            None => {
                return None;
            },
        }
        i += 1;
    }
    assert(times@.take(i as int) =~= times@);
    Some(TimeSpan { nanos })
}

/// The kind of transform that a frame is drawn with. The numbers are the
/// host's.
#[derive(Clone, Copy, Debug, PartialEq, Eq, Structural)]
pub enum RenderTransform {
    Transform2D,
    Perspective,
}

/// A command of the stream that a build of the scene gives, as far as the
/// viewer looks at it.
#[derive(Clone, Copy, Debug, PartialEq, Eq, Structural)]
pub enum RenderCommand {
    /// The last command of a stream. It says how long the build took.
    Finish { build_time: TimeSpan },
    /// Any other command.
    Draw,
}

/// The build time that a stream of commands reports: that of its last
/// `Finish`, or `before` where it has none.
pub open spec fn reported_build_time(
    before: Option<TimeSpan>,
    commands: Seq<RenderCommand>,
) -> Option<TimeSpan>
    decreases commands.len(),
{
    if commands.len() == 0 {
        before
    } else {
        match commands.last() {
            RenderCommand::Finish { build_time } => Some(build_time),
            RenderCommand::Draw => reported_build_time(before, commands.drop_last()),
        }
    }
}

/// Goes through a stream of commands in order and keeps the build time that
/// it reports.
pub fn capture_build_time(before: Option<TimeSpan>, commands: &Vec<RenderCommand>) -> (after: Option<
    TimeSpan,
>)
    ensures
        after == reported_build_time(before, commands@),
{
    let mut build_time = before;
    let mut i: usize = 0;
    while i < commands.len()
        invariant
            0 <= i <= commands.len(),
            build_time == reported_build_time(before, commands@.take(i as int)),
        decreases commands.len() - i,
    {
        assert(commands@.take(i + 1).drop_last() =~= commands@.take(i as int));
        if let RenderCommand::Finish { build_time: reported } = commands[i] {
            build_time = Some(reported);
        }
        i += 1;
    }
    assert(commands@.take(i as int) =~= commands@);
    build_time
}

/// The record of one frame.
#[derive(Debug)]
pub struct Frame {
    pub transform: RenderTransform,
    /// The events that the controls have yet to see.
    pub ui_events: Vec<UIEvent>,
    /// The time that the device took for each scene.
    pub scene_rendering_times: Vec<TimeSpan>,
    /// What the renderer counted for each scene.
    pub scene_stats: Vec<RenderStats>,
}

/// A `Frame` with its lists as sequences.
pub struct FrameView {
    pub transform: RenderTransform,
    pub ui_events: Seq<UIEvent>,
    pub scene_rendering_times: Seq<TimeSpan>,
    pub scene_stats: Seq<RenderStats>,
}

impl View for Frame {
    type V = FrameView;

    open spec fn view(&self) -> FrameView {
        FrameView {
            transform: self.transform,
            ui_events: self.ui_events@,
            scene_rendering_times: self.scene_rendering_times@,
            scene_stats: self.scene_stats@,
        }
    }
}

impl FrameView {
    /// The record that a frame starts with.
    pub open spec fn opened(transform: RenderTransform, ui_events: Seq<UIEvent>) -> FrameView {
        FrameView {
            transform,
            ui_events,
            scene_rendering_times: Seq::empty(),
            scene_stats: Seq::empty(),
        }
    }
}

impl Frame {
    pub fn new(transform: RenderTransform, ui_events: Vec<UIEvent>) -> (frame: Frame)
        ensures
            frame@ == FrameView::opened(transform, ui_events@),
    {
        Frame { transform, ui_events, scene_rendering_times: Vec::new(), scene_stats: Vec::new() }
    }
}

} // verus!
