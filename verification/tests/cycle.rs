use msd_sync::dedupe::DedupeKey;
use msd_sync::driver::{plan_cycle, Action, Driver, Event, Level, Note, POLL_MS, SCORE_GOAL_PERCENT};
use msd_sync::score::{ComputeError, MsdOut, SkillsetScores};
use msd_sync::single::Real32;
use msd_sync::snapshot::{BeatmapV2, JsonV2, ModsV2, PlayV2};

const CHART: &str = "osu file format v14\n\n[General]\nMode: 3\n\n[Difficulty]\nCircleSize:4\n\n[HitObjects]\n64,192,1000,1,0,0:0:0:0:\n192,192,1500,1,0,0:0:0:0:\n";

fn r(x: f32) -> Real32 {
    Real32::from_bits(x.to_bits())
}

fn snapshot(rate: Option<f32>) -> JsonV2 {
    JsonV2 {
        beatmap: BeatmapV2 {
            artist: Some("A".to_string()),
            title: Some("B".to_string()),
            version: Some("Hard".to_string()),
        },
        play: PlayV2 { mods: ModsV2 { name: None, array: None, rate: rate.map(r) } },
        mods: None,
    }
}

fn scores() -> SkillsetScores {
    SkillsetScores {
        overall: r(25.5),
        stream: r(1.0),
        jumpstream: r(2.0),
        handstream: r(3.0),
        stamina: r(4.0),
        jackspeed: r(5.0),
        chordjack: r(6.0),
        technical: r(7.0),
    }
}

fn wait_note(action: Action) -> Note {
    match action {
        Action::Wait(note) => note,
        _ => panic!("the cycle goes on"),
    }
}

fn is_score(action: &Action) -> bool {
    matches!(action, Action::Score { .. })
}

fn to_chart(d: &mut Driver, rate: Option<f32>, bytes: &[u8]) -> Action {
    assert!(matches!(d.step(Event::Tick), Action::FetchState));
    assert!(matches!(d.step(Event::State(Some(snapshot(rate)))), Action::FetchChart));
    d.step(Event::Chart(Some(bytes.to_vec())))
}

fn publish(d: &mut Driver, rate: Option<f32>, bytes: &[u8]) -> MsdOut {
    assert!(is_score(&to_chart(d, rate, bytes)));
    let out = match d.step(Event::Scores(Ok(scores()))) {
        Action::Write(out) => out,
        _ => panic!("nothing to write"),
    };
    assert_eq!(wait_note(d.step(Event::Written(true))), Note::Published);
    out
}

fn key(d: &Driver) -> Option<(String, String)> {
    d.last_key().as_ref().map(|k: &DedupeKey| (k.fingerprint.clone(), k.rate.clone()))
}

#[test]
fn cycle_publishes_labels_and_rate() {
    let mut d = Driver::new();
    let out = publish(&mut d, Some(1.5), b"X");
    assert_eq!(out.rate, "1.50");
    assert_eq!(out.song, "A - B");
    assert_eq!(out.diff, "Hard");
    assert_eq!(out.overall, r(25.5));
    assert_eq!(out.stream, r(1.0));
    assert_eq!(out.jumpstream, r(2.0));
    assert_eq!(out.handstream, r(3.0));
    assert_eq!(out.stamina, r(4.0));
    assert_eq!(out.jacks, r(5.0));
    assert_eq!(out.chordjack, r(6.0));
    assert_eq!(out.technical, r(7.0));
    assert!(d.is_idle());
}

#[test]
fn score_action_carries_chart_rate_and_goal() {
    let mut d = Driver::new();
    match to_chart(&mut d, Some(1.2), CHART.as_bytes()) {
        Action::Score { chart, rate, goal_percent } => {
            assert_eq!(chart.hit_objects.len(), 2);
            assert_eq!(rate, r(1.2));
            assert_eq!(goal_percent, 93);
            assert_eq!(SCORE_GOAL_PERCENT, 93);
        }
        _ => panic!("no rating asked for"),
    }
    assert!(!d.is_idle());
    assert_eq!(key(&d), None);
}

#[test]
fn empty_chart_ends_the_cycle_without_a_write() {
    let mut d = Driver::new();
    publish(&mut d, Some(1.0), b"X");
    let before = key(&d);
    assert_eq!(wait_note(to_chart(&mut d, Some(1.0), b"")), Note::EmptyChart);
    assert!(d.is_idle());
    assert_eq!(key(&d), before);
    assert_eq!(wait_note(d.step(Event::Written(true))), Note::OutOfTurn);
}

#[test]
fn same_chart_at_the_same_rate_is_not_rated_again() {
    let mut d = Driver::new();
    let out = publish(&mut d, Some(1.0), CHART.as_bytes());
    assert_eq!(out.rate, "1.00");
    let before = key(&d);
    assert_eq!(wait_note(to_chart(&mut d, Some(1.0), CHART.as_bytes())), Note::Unchanged);
    assert!(d.is_idle());
    assert_eq!(key(&d), before);
    assert_eq!(wait_note(to_chart(&mut d, None, CHART.as_bytes())), Note::Unchanged);
}

#[test]
fn same_chart_at_another_rate_is_rated_again() {
    let mut d = Driver::new();
    publish(&mut d, Some(1.0), CHART.as_bytes());
    let out = publish(&mut d, Some(1.5), CHART.as_bytes());
    assert_eq!(out.rate, "1.50");
    assert_eq!(key(&d).unwrap().1, "1.50");
}

#[test]
fn rates_that_are_written_alike_count_as_one() {
    let mut d = Driver::new();
    publish(&mut d, Some(1.001), CHART.as_bytes());
    assert_eq!(wait_note(to_chart(&mut d, Some(1.002), CHART.as_bytes())), Note::Unchanged);
}

#[test]
fn another_chart_at_the_same_rate_is_rated() {
    let mut d = Driver::new();
    publish(&mut d, Some(1.0), b"X");
    let first = key(&d).unwrap();
    publish(&mut d, Some(1.0), b"Y");
    let second = key(&d).unwrap();
    assert_ne!(first.0, second.0);
    assert_eq!(first.1, second.1);
}

#[test]
fn key_is_the_fingerprint_and_the_rate_as_written() {
    let mut d = Driver::new();
    assert_eq!(key(&d), None);
    publish(&mut d, Some(1.6), b"Hello World!");
    assert_eq!(
        key(&d),
        Some(("2ef7bde608ce5404e97d5f042f95f89f1c232871".to_string(), "1.60".to_string()))
    );
}

#[test]
fn failed_rating_leaves_the_key_and_is_tried_again() {
    let mut d = Driver::new();
    publish(&mut d, Some(1.0), b"X");
    let before = key(&d);
    for stage in [ComputeError::Validation, ComputeError::Conversion, ComputeError::Engine] {
        assert!(is_score(&to_chart(&mut d, Some(1.0), b"Y")));
        assert_eq!(wait_note(d.step(Event::Scores(Err(stage)))), Note::Failed(stage));
        assert!(d.is_idle());
        assert_eq!(key(&d), before);
    }
    publish(&mut d, Some(1.0), b"Y");
    assert_ne!(key(&d), before);
}

#[test]
fn bytes_that_are_no_text_fail_the_cycle_each_time() {
    let mut d = Driver::new();
    for _ in 0..2 {
        assert_eq!(
            wait_note(to_chart(&mut d, Some(1.0), &[0xff, 0xfe])),
            Note::Failed(ComputeError::Decode)
        );
        assert!(d.is_idle());
        assert_eq!(key(&d), None);
    }
}

#[test]
fn failed_write_is_not_tried_again() {
    let mut d = Driver::new();
    assert!(is_score(&to_chart(&mut d, Some(1.0), b"X")));
    assert!(matches!(d.step(Event::Scores(Ok(scores()))), Action::Write(_)));
    assert_eq!(wait_note(d.step(Event::Written(false))), Note::WriteFailed);
    assert!(d.is_idle());
    assert_eq!(wait_note(to_chart(&mut d, Some(1.0), b"X")), Note::Unchanged);
}

#[test]
fn failed_fetches_end_the_cycle() {
    let mut d = Driver::new();
    assert!(matches!(d.step(Event::Tick), Action::FetchState));
    assert_eq!(wait_note(d.step(Event::State(None))), Note::StateUnavailable);
    assert!(d.is_idle());
    assert!(matches!(d.step(Event::Tick), Action::FetchState));
    assert!(matches!(d.step(Event::State(Some(snapshot(None)))), Action::FetchChart));
    assert_eq!(wait_note(d.step(Event::Chart(None))), Note::ChartUnavailable);
    assert!(d.is_idle());
    assert_eq!(key(&d), None);
}

#[test]
fn events_out_of_turn_end_the_cycle() {
    let mut d = Driver::new();
    assert_eq!(wait_note(d.step(Event::Chart(Some(b"X".to_vec())))), Note::OutOfTurn);
    assert_eq!(wait_note(d.step(Event::Scores(Ok(scores())))), Note::OutOfTurn);
    assert_eq!(wait_note(d.step(Event::State(None))), Note::OutOfTurn);
    assert!(matches!(d.step(Event::Tick), Action::FetchState));
    assert_eq!(wait_note(d.step(Event::Tick)), Note::OutOfTurn);
    assert!(d.is_idle());
    assert_eq!(key(&d), None);
}

#[test]
fn plan_reads_labels_and_rate() {
    let plan = plan_cycle(&snapshot(Some(1.5)));
    assert_eq!(plan.song, "A - B");
    assert_eq!(plan.diff, "Hard");
    assert_eq!(plan.rate, r(1.5));
    assert_eq!(plan.rate_text, "1.50");
    let plan = plan_cycle(&snapshot(None));
    assert_eq!(plan.rate, r(1.0));
    assert_eq!(plan.rate_text, "1.00");
}

#[test]
fn notes_have_their_levels() {
    assert_eq!(Note::StateUnavailable.level(), Some(Level::Warning));
    assert_eq!(Note::ChartUnavailable.level(), Some(Level::Warning));
    assert_eq!(Note::EmptyChart.level(), Some(Level::Warning));
    assert_eq!(Note::Unchanged.level(), None);
    assert_eq!(Note::Failed(ComputeError::Parse).level(), Some(Level::Error));
    assert_eq!(Note::Failed(ComputeError::Engine).level(), Some(Level::Error));
    assert_eq!(Note::WriteFailed.level(), Some(Level::Warning));
    assert_eq!(Note::Published.level(), Some(Level::Info));
    assert_eq!(Note::OutOfTurn.level(), Some(Level::Warning));
}

#[test]
fn interval_is_six_hundred_milliseconds() {
    assert_eq!(POLL_MS, 600);
}
