//! The polling cycle as a machine: it is told what happened and answers
//! with what to do next. Whoever runs it does the fetching, the rating and
//! the writing.

use vstd::prelude::*;
use crate::chart::{chart_of, fingerprint, load_chart, sha1_hex};
use crate::dedupe::{changed, key_view, DedupeKey, KeyView};
use crate::rate::{resolve_rate, resolved_rate};
use crate::score::{document, ComputeError, MsdOut, MsdOutView, SkillsetScores};
use crate::single::{two_decimals, Real32};
use crate::snapshot::{song_text, text_or_empty, JsonV2};

verus! {

/// Interval between two ticks, in milliseconds.
pub const POLL_MS: u64 = 600;

/// The accuracy that a rating is asked for, in percent.
pub const SCORE_GOAL_PERCENT: u8 = 93;

/// What a cycle takes from the snapshot: the labels and the rate.
#[derive(Clone, Debug)]
pub struct Plan {
    pub song: String,
    pub diff: String,
    pub rate: Real32,
    pub rate_text: String,
}

/// What a plan holds.
pub struct PlanView {
    pub song: Seq<char>,
    pub diff: Seq<char>,
    pub rate: Real32,
    pub rate_text: Seq<char>,
}

impl View for Plan {
    type V = PlanView;

    open spec fn view(&self) -> PlanView {
        PlanView { song: self.song@, diff: self.diff@, rate: self.rate, rate_text: self.rate_text@ }
    }
}

/// The plan that a snapshot gives.
pub open spec fn plan_of(v2: JsonV2) -> PlanView {
    PlanView {
        song: song_text(text_or_empty(v2.beatmap.artist), text_or_empty(v2.beatmap.title)),
        diff: text_or_empty(v2.beatmap.version),
        rate: resolved_rate(v2),
        rate_text: two_decimals(resolved_rate(v2).bits),
    }
}

/// Reads the labels and the rate off a snapshot.
pub fn plan_cycle(v2: &JsonV2) -> (p: Plan)
    ensures
        p@ == plan_of(*v2),
{
    let rate = resolve_rate(v2);
    Plan {
        song: v2.beatmap.song_label(),
        diff: v2.beatmap.diff_label(),
        rate,
        rate_text: rate.two_decimal_text(),
    }
}

/// Why a cycle ended.
#[derive(Clone, Copy, Debug, PartialEq, Eq, Structural)]
pub enum Note {
    /// The snapshot could not be fetched or decoded.
    StateUnavailable,
    /// The chart could not be fetched.
    ChartUnavailable,
    /// The chart came without bytes.
    EmptyChart,
    /// Chart and rate are those of the last rating.
    Unchanged,
    /// Rating the chart failed at the given stage.
    Failed(ComputeError),
    /// The document could not be written.
    WriteFailed,
    /// The document was written.
    Published,
    /// The event does not belong to the stage that the cycle is in.
    OutOfTurn,
}

/// How loudly a note is logged.
#[derive(Clone, Copy, Debug, PartialEq, Eq, Structural)]
pub enum Level {
    Info,
    Warning,
    Error,
}

/// The level of a note: failures of transport and of writing warn,
/// failures of content are errors, a publication informs, and a cycle that
/// found nothing new says nothing.
pub open spec fn level_of(note: Note) -> Option<Level> {
    match note {
        Note::StateUnavailable => Some(Level::Warning),
        Note::ChartUnavailable => Some(Level::Warning),
        Note::EmptyChart => Some(Level::Warning),
        Note::Unchanged => None,
        Note::Failed(_) => Some(Level::Error),
        Note::WriteFailed => Some(Level::Warning),
        Note::Published => Some(Level::Info),
        Note::OutOfTurn => Some(Level::Warning),
    }
}

impl Note {
    /// The level at which the note is logged, none for a note that is not.
    pub fn level(&self) -> (l: Option<Level>)
        ensures
            l == level_of(*self),
    {
        match self {
            Note::StateUnavailable => Some(Level::Warning),
            Note::ChartUnavailable => Some(Level::Warning),
            Note::EmptyChart => Some(Level::Warning),
            Note::Unchanged => None,
            Note::Failed(_) => Some(Level::Error),
            Note::WriteFailed => Some(Level::Warning),
            Note::Published => Some(Level::Info),
            Note::OutOfTurn => Some(Level::Warning),
        }
    }
}

/// What happened outside.
pub enum Event {
    /// The interval has passed.
    Tick,
    /// The snapshot was fetched, or could not be.
    State(Option<JsonV2>),
    /// The bytes of the chart were fetched, or could not be.
    Chart(Option<Vec<u8>>),
    /// The chart was rated, or could not be.
    Scores(Result<SkillsetScores, ComputeError>),
    /// The document was written, or could not be.
    Written(bool),
}

/// What to do next.
pub enum Action {
    /// Fetch the snapshot.
    FetchState,
    /// Fetch the bytes of the chart.
    FetchChart,
    /// Rate the chart at the rate, for the given accuracy.
    Score { chart: rosu_map::Beatmap, rate: Real32, goal_percent: u8 },
    /// Write the document.
    Write(MsdOut),
    /// The cycle is over: wait for the next tick.
    Wait(Note),
}

/// What an action holds.
pub enum ActionView {
    FetchState,
    FetchChart,
    Score { chart: rosu_map::Beatmap, rate: Real32, goal_percent: u8 },
    Write(MsdOutView),
    Wait(Note),
}

impl View for Action {
    type V = ActionView;

    open spec fn view(&self) -> ActionView {
        match *self {
            Action::FetchState => ActionView::FetchState,
            Action::FetchChart => ActionView::FetchChart,
            Action::Score { chart, rate, goal_percent } => ActionView::Score {
                chart,
                rate,
                goal_percent,
            },
            Action::Write(out) => ActionView::Write(out@),
            Action::Wait(note) => ActionView::Wait(note),
        }
    }
}

/// Where a cycle stands.
enum Stage {
    Idle,
    AwaitState,
    AwaitChart(Plan),
    AwaitScores(Plan, DedupeKey),
    AwaitWrite,
}

/// Where a cycle stands, with what it holds.
pub enum StageView {
    /// Between two cycles.
    Idle,
    /// The snapshot was asked for.
    AwaitState,
    /// The chart was asked for.
    AwaitChart(PlanView),
    /// The rating was asked for, under the key that it will be known by.
    AwaitScores(PlanView, KeyView),
    /// The document was handed out for writing.
    AwaitWrite,
}

/// What the machine holds.
pub struct DriverView {
    /// The key of the last chart that was rated.
    pub last_key: Option<KeyView>,
    pub stage: StageView,
}

/// The machine of the polling cycle.
pub struct Driver {
    last_key: Option<DedupeKey>,
    stage: Stage,
}

impl View for Driver {
    type V = DriverView;

    closed spec fn view(&self) -> DriverView {
        DriverView {
            last_key: key_view(self.last_key),
            stage: match self.stage {
                Stage::Idle => StageView::Idle,
                Stage::AwaitState => StageView::AwaitState,
                Stage::AwaitChart(plan) => StageView::AwaitChart(plan@),
                Stage::AwaitScores(plan, key) => StageView::AwaitScores(plan@, key@),
                Stage::AwaitWrite => StageView::AwaitWrite,
            },
        }
    }
}

/// The end of a cycle: the key stays, the next tick is waited for.
pub open spec fn rest(d: DriverView, note: Note) -> (DriverView, ActionView) {
    (DriverView { last_key: d.last_key, stage: StageView::Idle }, ActionView::Wait(note))
}

/// What the bytes of a chart lead to. Empty bytes end the cycle; so does a
/// key that is the one last seen; what is left is decoded and parsed, and
/// the chart, if there is one, is handed out for rating.
pub open spec fn on_chart(d: DriverView, plan: PlanView, bytes: Seq<u8>) -> (
    DriverView,
    ActionView,
) {
    let key = KeyView { fingerprint: sha1_hex(bytes), rate: plan.rate_text };
    if bytes.len() == 0 {
        rest(d, Note::EmptyChart)
    } else if d.last_key == Some(key) {
        rest(d, Note::Unchanged)
    } else {
        match chart_of(bytes) {
            Ok(chart) => (
                DriverView { last_key: d.last_key, stage: StageView::AwaitScores(plan, key) },
                ActionView::Score { chart, rate: plan.rate, goal_percent: SCORE_GOAL_PERCENT },
            ),
            Err(stage) => rest(d, Note::Failed(stage)),
        }
    }
}

/// The machine: from where it stands and what happened to where it stands
/// next and what to do.
pub open spec fn next(d: DriverView, event: Event) -> (DriverView, ActionView) {
    match (d.stage, event) {
        (StageView::Idle, Event::Tick) => (
            DriverView { last_key: d.last_key, stage: StageView::AwaitState },
            ActionView::FetchState,
        ),
        (StageView::AwaitState, Event::State(Some(v2))) => (
            DriverView { last_key: d.last_key, stage: StageView::AwaitChart(plan_of(v2)) },
            ActionView::FetchChart,
        ),
        (StageView::AwaitState, Event::State(None)) => rest(d, Note::StateUnavailable),
        (StageView::AwaitChart(plan), Event::Chart(Some(bytes))) => on_chart(d, plan, bytes@),
        (StageView::AwaitChart(_), Event::Chart(None)) => rest(d, Note::ChartUnavailable),
        (StageView::AwaitScores(plan, key), Event::Scores(Ok(scores))) => (
            DriverView { last_key: Some(key), stage: StageView::AwaitWrite },
            ActionView::Write(document(plan.song, plan.diff, scores, plan.rate_text)),
        ),
        (StageView::AwaitScores(_, _), Event::Scores(Err(stage))) => rest(d, Note::Failed(stage)),
        (StageView::AwaitWrite, Event::Written(done)) => rest(
            d,
            if done {
                Note::Published
            } else {
                Note::WriteFailed
            },
        ),
        _ => rest(d, Note::OutOfTurn),
    }
}

/// What a cycle comes to when the machine is fed, in turn, a tick, the
/// snapshot, the chart, the ratings and the outcome of the writing: where
/// the machine stands at the end of the cycle, and why the cycle ended.
/// Events behind the end of the cycle are not fed.
pub open spec fn cycle(
    d: DriverView,
    snapshot: Option<JsonV2>,
    chart: Option<Vec<u8>>,
    scores: Result<SkillsetScores, ComputeError>,
    written: bool,
) -> (DriverView, Note) {
    let (d1, a1) = next(d, Event::Tick);
    let (d2, a2) = next(d1, Event::State(snapshot));
    let (d3, a3) = next(d2, Event::Chart(chart));
    let (d4, a4) = next(d3, Event::Scores(scores));
    let (d5, a5) = next(d4, Event::Written(written));
    if let ActionView::Wait(note) = a1 {
        (d1, note)
    } else if let ActionView::Wait(note) = a2 {
        (d2, note)
    } else if let ActionView::Wait(note) = a3 {
        (d3, note)
    } else if let ActionView::Wait(note) = a4 {
        (d4, note)
    } else if let ActionView::Wait(note) = a5 {
        (d5, note)
    } else {
        (d5, Note::OutOfTurn)
    }
}

/// The cycle got as far as decoding, parsing or rating the chart.
pub open spec fn rated(note: Note) -> bool {
    note is Failed || note is WriteFailed || note is Published
}

/// The cycle got as far as writing the document.
pub open spec fn wrote(note: Note) -> bool {
    note is WriteFailed || note is Published
}

/// The rate of a snapshot as it is written.
pub open spec fn rate_text_of(v2: JsonV2) -> Seq<char> {
    two_decimals(resolved_rate(v2).bits)
}

/// A cycle that starts between two cycles ends between two cycles, and it
/// ends out of turn on no inputs.
pub proof fn cycle_returns_to_idle(
    d: DriverView,
    snapshot: Option<JsonV2>,
    chart: Option<Vec<u8>>,
    scores: Result<SkillsetScores, ComputeError>,
    written: bool,
)
    requires
        d.stage is Idle,
    ensures
        cycle(d, snapshot, chart, scores, written).0.stage is Idle,
        cycle(d, snapshot, chart, scores, written).1 != Note::OutOfTurn,
{
}

/// The key moves only when ratings arrive for the chart that is being
/// rated; it then becomes the key of that chart. No failure moves it.
pub proof fn key_moves_only_with_ratings(d: DriverView, event: Event)
    ensures
        next(d, event).0.last_key != d.last_key ==> d.stage is AwaitScores && event is Scores
            && event->Scores_0 is Ok && next(d, event).0.last_key == Some(d.stage->AwaitScores_1),
        next(d, event).1 is Wait ==> next(d, event).0.last_key == d.last_key,
{
}

/// After a cycle over a chart with bytes that did not fail to rate it, the
/// key is that of the chart at the rate of the cycle.
pub proof fn key_after_cycle(
    d: DriverView,
    snapshot: JsonV2,
    bytes: Vec<u8>,
    scores: Result<SkillsetScores, ComputeError>,
    written: bool,
)
    requires
        d.stage is Idle,
        bytes@.len() > 0,
    ensures
        ({
            let (after, note) = cycle(d, Some(snapshot), Some(bytes), scores, written);
            let key = KeyView { fingerprint: sha1_hex(bytes@), rate: rate_text_of(snapshot) };
            if note is Failed {
                after.last_key == d.last_key && d.last_key != Some(key)
            } else {
                after.last_key == Some(key)
            }
        }),
{
}

/// Two cycles in a row over the same bytes at the same rate: unless the
/// first one failed to rate the chart, the second one neither rates nor
/// writes, and where the chart has bytes it ends as unchanged.
pub proof fn same_chart_same_rate_is_skipped(
    d: DriverView,
    first: JsonV2,
    second: JsonV2,
    bytes: Vec<u8>,
    scores1: Result<SkillsetScores, ComputeError>,
    written1: bool,
    scores2: Result<SkillsetScores, ComputeError>,
    written2: bool,
)
    requires
        d.stage is Idle,
        resolved_rate(first) == resolved_rate(second),
        !(cycle(d, Some(first), Some(bytes), scores1, written1).1 is Failed),
    ensures
        ({
            let (d1, note1) = cycle(d, Some(first), Some(bytes), scores1, written1);
            let (d2, note2) = cycle(d1, Some(second), Some(bytes), scores2, written2);
            &&& !rated(note2)
            &&& !wrote(note2)
            &&& bytes@.len() > 0 ==> note2 == Note::Unchanged
            &&& d2.last_key == d1.last_key
        }),
{
    let (d1, note1) = cycle(d, Some(first), Some(bytes), scores1, written1);
    cycle_returns_to_idle(d, Some(first), Some(bytes), scores1, written1);
    if bytes@.len() > 0 {
        key_after_cycle(d, first, bytes, scores1, written1);
    }
}

/// A cycle that ends before ratings arrive leaves the machine as it found
/// it: a failed fetch, a chart without bytes, an unchanged chart and a
/// failure to rate move nothing.
pub proof fn cycle_without_ratings_changes_nothing(
    d: DriverView,
    snapshot: Option<JsonV2>,
    chart: Option<Vec<u8>>,
    scores: Result<SkillsetScores, ComputeError>,
    written: bool,
)
    requires
        d.stage is Idle,
    ensures
        !wrote(cycle(d, snapshot, chart, scores, written).1) ==> cycle(
            d,
            snapshot,
            chart,
            scores,
            written,
        ).0 == d,
{
}

/// Two cycles in a row over the same bytes at rates that are written
/// differently: the second one rates the chart. Where the first one failed
/// to rate the chart, this holds as far as the second one would have rated
/// it without the first.
pub proof fn same_chart_other_rate_is_rated(
    d: DriverView,
    first: JsonV2,
    second: JsonV2,
    bytes: Vec<u8>,
    scores1: Result<SkillsetScores, ComputeError>,
    written1: bool,
    scores2: Result<SkillsetScores, ComputeError>,
    written2: bool,
)
    requires
        d.stage is Idle,
        bytes@.len() > 0,
        rate_text_of(first) != rate_text_of(second),
        cycle(d, Some(first), Some(bytes), scores1, written1).1 is Failed ==> rated(
            cycle(d, Some(second), Some(bytes), scores2, written2).1,
        ),
    ensures
        ({
            let (d1, note1) = cycle(d, Some(first), Some(bytes), scores1, written1);
            let (d2, note2) = cycle(d1, Some(second), Some(bytes), scores2, written2);
            rated(note2)
        }),
{
    cycle_returns_to_idle(d, Some(first), Some(bytes), scores1, written1);
    key_after_cycle(d, first, bytes, scores1, written1);
    cycle_without_ratings_changes_nothing(d, Some(first), Some(bytes), scores1, written1);
}

impl Driver {
    /// A machine that has seen nothing yet.
    pub fn new() -> (d: Driver)
        ensures
            d@ == (DriverView { last_key: None, stage: StageView::Idle }),
    {
        Driver { last_key: None, stage: Stage::Idle }
    }

    /// The key of the last chart that was rated.
    pub fn last_key(&self) -> (k: &Option<DedupeKey>)
        ensures
            key_view(*k) == self@.last_key,
    {
        &self.last_key
    }

    /// Whether the machine stands between two cycles.
    pub fn is_idle(&self) -> (r: bool)
        ensures
            r == (self@.stage is Idle),
    {
        match self.stage {
            Stage::Idle => true,
            _ => false,
        }
    }

    /// Handles the bytes of a chart.
    fn take_chart(&mut self, plan: Plan, bytes: Vec<u8>) -> (action: Action)
        requires
            old(self).stage is Idle,
        ensures
            (final(self)@, action@) == on_chart(old(self)@, plan@, bytes@),
    {
        match fingerprint(&bytes) {
            None => Action::Wait(Note::EmptyChart),
            Some(hex) => {
                let rate_text = plan.rate_text.clone();
                let key = DedupeKey::new(hex, rate_text);
                if !changed(&self.last_key, &key) {
                    Action::Wait(Note::Unchanged)
                } else {
                    match load_chart(bytes) {
                        Ok(chart) => {
                            let rate = plan.rate;
                            self.stage = Stage::AwaitScores(plan, key);
                            Action::Score { chart, rate, goal_percent: SCORE_GOAL_PERCENT }
                        },
                        Err(stage) => Action::Wait(Note::Failed(stage)),
                    }
                }
            },
        }
    }

    /// Takes an event and says what to do next.
    pub fn step(&mut self, event: Event) -> (action: Action)
        ensures
            (final(self)@, action@) == next(old(self)@, event),
    {
        let mut stage = Stage::Idle;
        std::mem::swap(&mut self.stage, &mut stage);
        match (stage, event) {
            (Stage::Idle, Event::Tick) => {
                self.stage = Stage::AwaitState;
                Action::FetchState
            },
            (Stage::AwaitState, Event::State(Some(v2))) => {
                self.stage = Stage::AwaitChart(plan_cycle(&v2));
                Action::FetchChart
            },
            (Stage::AwaitState, Event::State(None)) => Action::Wait(Note::StateUnavailable),
            (Stage::AwaitChart(plan), Event::Chart(Some(bytes))) => self.take_chart(plan, bytes),
            (Stage::AwaitChart(_), Event::Chart(None)) => Action::Wait(Note::ChartUnavailable),
            (Stage::AwaitScores(plan, key), Event::Scores(Ok(scores))) => {
                self.last_key = Some(key);
                self.stage = Stage::AwaitWrite;
                Action::Write(MsdOut::assemble(plan.song, plan.diff, &scores, plan.rate_text))
            },
            (Stage::AwaitScores(_, _), Event::Scores(Err(stage))) => Action::Wait(
                Note::Failed(stage),
            ),
            (Stage::AwaitWrite, Event::Written(done)) => Action::Wait(
                if done {
                    Note::Published
                } else {
                    Note::WriteFailed
                },
            ),
            _ => Action::Wait(Note::OutOfTurn),
        }
    }
}

} // verus!
