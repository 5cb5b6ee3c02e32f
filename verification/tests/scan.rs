use janalytics::aggregate::Aggregator;
use janalytics::amount::Amount;
use janalytics::config::{EventFilter, ScanConfig, ScanTarget};
use janalytics::decode::{decode, DecodedEvent, RawLogEntry};
use janalytics::range::{BlockRange, RangeBoundaryError};
use janalytics::scan::{
    feed, feed_with_topic, NodeQueryError, Orchestrator, Phase, ScanAction, ScanEvent,
    ScanFailure, Stage,
};
use janalytics::schema::{EventSchema, Metric};

const CONTRACT: [u8; 20] = [0x11; 20];

fn word(x: u128) -> [u8; 32] {
    let mut out = [0u8; 32];
    out[16..].copy_from_slice(&x.to_be_bytes());
    out
}

fn split_entry(glp: u128, jones: u128, stable: u128) -> RawLogEntry {
    let mut data = Vec::new();
    for x in [glp, jones, stable] {
        data.extend_from_slice(&word(x));
    }
    RawLogEntry { topics: vec![EventSchema::SplitRewards.event_topic()], data }
}

fn redeem_entry(schema: EventSchema, retention: u128) -> RawLogEntry {
    let mut data = Vec::new();
    for x in [1000, 10, retention, 1] {
        data.extend_from_slice(&word(x));
    }
    RawLogEntry { topics: vec![schema.event_topic(), word(0xabcdef)], data }
}

fn config(genesis: u64, end: Option<u64>, width: u64) -> ScanConfig {
    ScanConfig {
        genesis_block: genesis,
        end_block: end,
        max_window_width: width,
        inter_query_delay_millis: 5_000,
        safety_buffer_blocks: 1_000,
    }
}

fn target(schemas: &[EventSchema]) -> ScanTarget {
    ScanTarget { contract: CONTRACT, schemas: schemas.to_vec() }
}

fn range(start: u64, end: u64) -> BlockRange {
    BlockRange::new(start, end).unwrap()
}

fn total(machine: &Orchestrator, metric: Metric) -> Option<u128> {
    machine.totals().total(metric).to_u128()
}

#[test]
fn three_windows_end_to_end() {
    let mut machine =
        Orchestrator::new(config(0, Some(25), 10), target(&[EventSchema::SplitRewards]));
    assert_eq!(machine.phase(), Phase::Idle);
    assert_eq!(machine.step(ScanEvent::Begin), ScanAction::Wait { millis: 5_000 });
    let windows = [(0u64, 9u64), (10, 19), (20, 25)];
    let rewards = [1u128, 2, 3];
    let mut fields = [
        Amount::zero(),
        Amount::zero(),
        Amount::zero(),
    ];
    let mut running = 0u128;
    for (i, (start, end)) in windows.iter().enumerate() {
        assert_eq!(
            machine.phase(),
            Phase::Scanning { index: i as u64, count: 3, stage: Stage::Pacing }
        );
        let action = machine.step(ScanEvent::Completed);
        assert_eq!(
            action,
            ScanAction::Fetch(EventFilter {
                contract: CONTRACT,
                schema: EventSchema::SplitRewards,
                topic: EventSchema::SplitRewards.event_topic(),
                window: range(*start, *end),
            })
        );
        let r = rewards[i];
        let entry = split_entry(r, r, r);
        match decode(&entry, EventSchema::SplitRewards).unwrap() {
            DecodedEvent::SplitRewards { glp_rewards, jones_rewards, stable_rewards } => {
                fields[0] = fields[0].add(&glp_rewards);
                fields[1] = fields[1].add(&jones_rewards);
                fields[2] = fields[2].add(&stable_rewards);
            },
            other => panic!("unexpected {:?}", other),
        }
        assert_eq!(total(&machine, Metric::GlpRewards), Some(running));
        match machine.step(ScanEvent::Logs(vec![entry])) {
            ScanAction::ReportWindow(report) => {
                assert_eq!(report.window, range(*start, *end));
                assert_eq!(report.index, i as u64);
                assert_eq!(report.count, 3);
                assert_eq!(report.subtotal.total(Metric::GlpRewards).to_u128(), Some(3 * r));
                assert!(report.skipped.is_zero());
            },
            other => panic!("unexpected {:?}", other),
        }
        running += 3 * r;
        assert_eq!(total(&machine, Metric::GlpRewards), Some(running));
        let next = machine.step(ScanEvent::Completed);
        if i + 1 < windows.len() {
            assert_eq!(next, ScanAction::Wait { millis: 5_000 });
        } else {
            match next {
                ScanAction::ReportFinal(totals) => {
                    assert_eq!(totals.total(Metric::GlpRewards).to_u128(), Some(18));
                    assert_eq!(totals.total(Metric::RedeemGlpRetention).to_u128(), Some(0));
                    assert_eq!(
                        totals.display(Metric::GlpRewards),
                        Some("0.000000000000000018".to_string())
                    );
                },
                other => panic!("unexpected {:?}", other),
            }
        }
    }
    for field in &fields {
        assert_eq!(field.to_u128(), Some(6));
    }
    assert_eq!(machine.phase(), Phase::Reporting);
    assert_eq!(machine.step(ScanEvent::Completed), ScanAction::Halt);
    assert_eq!(machine.phase(), Phase::Done);
    assert_eq!(machine.step(ScanEvent::Begin), ScanAction::Halt);
    assert_eq!(total(&machine, Metric::GlpRewards), Some(18));
    assert_eq!(machine.failure(), None);
}

#[test]
fn open_ended_scan_stops_short_of_the_latest_block() {
    let mut machine = Orchestrator::new(config(100, None, 1_000), target(&[EventSchema::SplitRewards]));
    assert_eq!(machine.step(ScanEvent::Begin), ScanAction::QueryLatestBlock);
    assert_eq!(machine.phase(), Phase::Idle);
    assert_eq!(machine.step(ScanEvent::LatestBlock(3_500)), ScanAction::Wait { millis: 5_000 });
    assert_eq!(
        machine.phase(),
        Phase::Scanning { index: 0, count: 3, stage: Stage::Pacing }
    );
    let mut seen = Vec::new();
    loop {
        match machine.step(ScanEvent::Completed) {
            ScanAction::Fetch(filter) => {
                seen.push((filter.window.start, filter.window.end));
                match machine.step(ScanEvent::Logs(vec![])) {
                    ScanAction::ReportWindow(_) => {},
                    other => panic!("unexpected {:?}", other),
                }
            },
            ScanAction::Wait { .. } => {},
            ScanAction::ReportFinal(_) => break,
            other => panic!("unexpected {:?}", other),
        }
    }
    assert_eq!(seen, vec![(100, 1_099), (1_100, 2_099), (2_100, 2_500)]);
}

#[test]
fn configured_end_block_wins_over_latest_block() {
    let mut machine = Orchestrator::new(config(0, Some(5), 10), target(&[EventSchema::SplitRewards]));
    assert_eq!(machine.step(ScanEvent::LatestBlock(9_999)), ScanAction::Wait { millis: 5_000 });
    assert_eq!(machine.phase(), Phase::Scanning { index: 0, count: 1, stage: Stage::Pacing });
}

#[test]
fn ceiling_below_genesis_is_refused_before_any_query() {
    let failure = ScanFailure::RangeBoundary(RangeBoundaryError::CeilingBelowGenesis);
    let mut machine = Orchestrator::new(config(10, Some(9), 10), target(&[EventSchema::SplitRewards]));
    assert_eq!(machine.step(ScanEvent::Begin), ScanAction::ReportFailure(failure));
    assert_eq!(machine.phase(), Phase::Aborted);
    assert_eq!(machine.failure(), Some(failure));
    assert_eq!(machine.step(ScanEvent::Completed), ScanAction::Halt);
    let mut machine = Orchestrator::new(config(5_000, None, 10), target(&[EventSchema::SplitRewards]));
    assert_eq!(machine.step(ScanEvent::LatestBlock(5_999)), ScanAction::ReportFailure(failure));
}

#[test]
fn malformed_settings_are_refused() {
    let mut machine = Orchestrator::new(config(0, Some(9), 0), target(&[EventSchema::SplitRewards]));
    let failure = ScanFailure::RangeBoundary(RangeBoundaryError::ZeroWindowWidth);
    assert_eq!(machine.step(ScanEvent::Begin), ScanAction::ReportFailure(failure));
    let mut machine = Orchestrator::new(config(0, None, 0), target(&[EventSchema::SplitRewards]));
    let failure = ScanFailure::RangeBoundary(RangeBoundaryError::ZeroWindowWidth);
    assert_eq!(machine.step(ScanEvent::Begin), ScanAction::ReportFailure(failure));
    assert_eq!(machine.phase(), Phase::Aborted);
    let mut machine = Orchestrator::new(config(0, None, 10), target(&[EventSchema::SplitRewards]));
    let failure = ScanFailure::RangeBoundary(RangeBoundaryError::BufferExceedsLatest);
    assert_eq!(machine.step(ScanEvent::LatestBlock(999)), ScanAction::ReportFailure(failure));
    assert_eq!(machine.failure(), Some(failure));
    let settings = config(7, None, 10);
    assert_eq!(settings.resolve_ceiling(999), Err(RangeBoundaryError::BufferExceedsLatest));
    assert_eq!(settings.resolve_ceiling(1_000), Ok(0));
    assert_eq!(settings.resolve_ceiling(1_234), Ok(234));
    assert_eq!(config(7, Some(50), 10).resolve_ceiling(3), Ok(50));
    assert_eq!(settings.validate(6), Err(RangeBoundaryError::CeilingBelowGenesis));
    assert_eq!(settings.validate(7), Ok(()));
    assert_eq!(config(7, None, 0).validate(6), Err(RangeBoundaryError::ZeroWindowWidth));
}

#[test]
fn failed_query_aborts_and_keeps_whole_windows_only() {
    let schemas = [EventSchema::FirstRouterRedeemGlp, EventSchema::FirstRouterRedeemStable];
    let mut machine = Orchestrator::new(config(0, Some(19), 10), target(&schemas));
    machine.step(ScanEvent::Begin);
    machine.step(ScanEvent::Completed);
    machine.step(ScanEvent::Logs(vec![redeem_entry(schemas[0], 4)]));
    machine.step(ScanEvent::Logs(vec![redeem_entry(schemas[1], 6)]));
    assert_eq!(total(&machine, Metric::RedeemGlpRetention), Some(4));
    assert_eq!(total(&machine, Metric::RedeemStableRetention), Some(6));
    machine.step(ScanEvent::Completed);
    machine.step(ScanEvent::Completed);
    machine.step(ScanEvent::Logs(vec![redeem_entry(schemas[0], 100)]));
    assert_eq!(
        machine.phase(),
        Phase::Scanning { index: 1, count: 2, stage: Stage::Fetching { query: 1 } }
    );
    let failure = ScanFailure::NodeQuery(NodeQueryError {
        window: Some(range(10, 19)),
        schema: Some(EventSchema::FirstRouterRedeemStable),
    });
    assert_eq!(machine.step(ScanEvent::QueryFailed), ScanAction::ReportFailure(failure));
    assert_eq!(machine.phase(), Phase::Aborted);
    assert_eq!(machine.failure(), Some(failure));
    assert_eq!(total(&machine, Metric::RedeemGlpRetention), Some(4));
    assert_eq!(total(&machine, Metric::RedeemStableRetention), Some(6));
    assert_eq!(machine.step(ScanEvent::Logs(vec![])), ScanAction::Halt);
}

#[test]
fn failed_latest_block_query_aborts() {
    let mut machine = Orchestrator::new(config(0, None, 10), target(&[EventSchema::SplitRewards]));
    machine.step(ScanEvent::Begin);
    let failure = ScanFailure::NodeQuery(NodeQueryError { window: None, schema: None });
    assert_eq!(machine.step(ScanEvent::QueryFailed), ScanAction::ReportFailure(failure));
    assert_eq!(machine.phase(), Phase::Aborted);
}

#[test]
fn every_event_kind_of_a_window_is_queried_in_order() {
    let schemas = [
        EventSchema::FirstRouterRedeemGlp,
        EventSchema::FirstRouterRedeemStable,
        EventSchema::FirstRouterRedeemGlpEth,
    ];
    let mut machine = Orchestrator::new(config(50, Some(60), 100), target(&schemas));
    machine.step(ScanEvent::Begin);
    let mut action = machine.step(ScanEvent::Completed);
    for (i, schema) in schemas.iter().enumerate() {
        assert_eq!(
            action,
            ScanAction::Fetch(EventFilter::new(CONTRACT, *schema, range(50, 60)))
        );
        let mut entry = redeem_entry(*schema, 10 + i as u128);
        if *schema == EventSchema::FirstRouterRedeemGlpEth {
            entry.data[127] = 77;
        }
        action = machine.step(ScanEvent::Logs(vec![entry.clone(), entry]));
    }
    match action {
        ScanAction::ReportWindow(report) => {
            assert_eq!(report.subtotal.total(Metric::RedeemGlpRetention).to_u128(), Some(20));
            assert_eq!(report.subtotal.total(Metric::RedeemStableRetention).to_u128(), Some(22));
            assert_eq!(report.subtotal.total(Metric::RedeemGlpEthRetention).to_u128(), Some(24));
            assert_eq!(report.subtotal.total(Metric::GlpRewards).to_u128(), Some(0));
        },
        other => panic!("unexpected {:?}", other),
    }
}

#[test]
fn entries_that_do_not_decode_are_skipped_and_counted() {
    let mut machine = Orchestrator::new(config(0, Some(0), 1), target(&[EventSchema::SplitRewards]));
    machine.step(ScanEvent::Begin);
    machine.step(ScanEvent::Completed);
    let mut truncated = split_entry(9, 9, 9);
    truncated.data.truncate(64);
    let foreign = redeem_entry(EventSchema::FirstRouterRedeemGlp, 5);
    let logs = vec![split_entry(1, 2, 3), truncated, foreign, split_entry(4, 5, 6)];
    match machine.step(ScanEvent::Logs(logs)) {
        ScanAction::ReportWindow(report) => {
            assert_eq!(report.subtotal.total(Metric::GlpRewards).to_u128(), Some(21));
            assert_eq!(report.skipped.to_u128(), Some(2));
        },
        other => panic!("unexpected {:?}", other),
    }
    assert_eq!(total(&machine, Metric::GlpRewards), Some(21));
}

#[test]
fn target_without_events_walks_the_windows() {
    let mut machine = Orchestrator::new(config(0, Some(19), 10), target(&[]));
    machine.step(ScanEvent::Begin);
    for i in 0..2u64 {
        match machine.step(ScanEvent::Completed) {
            ScanAction::ReportWindow(report) => assert_eq!(report.index, i),
            other => panic!("unexpected {:?}", other),
        }
        machine.step(ScanEvent::Completed);
    }
    assert_eq!(machine.phase(), Phase::Reporting);
}

#[test]
fn events_that_do_not_fit_the_state_are_rejected() {
    let mut machine = Orchestrator::new(config(0, Some(19), 10), target(&[EventSchema::SplitRewards]));
    assert_eq!(machine.step(ScanEvent::Completed), ScanAction::Rejected);
    assert_eq!(machine.step(ScanEvent::Logs(vec![])), ScanAction::Rejected);
    assert_eq!(machine.phase(), Phase::Idle);
    machine.step(ScanEvent::Begin);
    assert_eq!(machine.step(ScanEvent::Begin), ScanAction::Rejected);
    assert_eq!(machine.step(ScanEvent::Logs(vec![split_entry(1, 1, 1)])), ScanAction::Rejected);
    assert_eq!(machine.step(ScanEvent::QueryFailed), ScanAction::Rejected);
    assert_eq!(machine.phase(), Phase::Scanning { index: 0, count: 2, stage: Stage::Pacing });
    machine.step(ScanEvent::Completed);
    assert_eq!(machine.step(ScanEvent::Completed), ScanAction::Rejected);
    assert_eq!(machine.step(ScanEvent::Cancel), ScanAction::Rejected);
    assert_eq!(machine.step(ScanEvent::LatestBlock(7)), ScanAction::Rejected);
    machine.step(ScanEvent::Logs(vec![split_entry(1, 1, 1)]));
    assert_eq!(machine.step(ScanEvent::Logs(vec![split_entry(1, 1, 1)])), ScanAction::Rejected);
    assert_eq!(machine.step(ScanEvent::QueryFailed), ScanAction::Rejected);
    assert_eq!(total(&machine, Metric::GlpRewards), Some(3));
    machine.step(ScanEvent::Completed);
    machine.step(ScanEvent::Completed);
    machine.step(ScanEvent::Logs(vec![]));
    machine.step(ScanEvent::Completed);
    assert_eq!(machine.phase(), Phase::Reporting);
    assert_eq!(machine.step(ScanEvent::Begin), ScanAction::Rejected);
    assert_eq!(machine.step(ScanEvent::QueryFailed), ScanAction::Rejected);
    assert_eq!(machine.phase(), Phase::Reporting);
}

#[test]
fn scan_can_be_called_off_between_windows() {
    let mut machine = Orchestrator::new(config(0, Some(19), 10), target(&[EventSchema::SplitRewards]));
    machine.step(ScanEvent::Begin);
    machine.step(ScanEvent::Completed);
    machine.step(ScanEvent::Logs(vec![split_entry(1, 1, 1)]));
    machine.step(ScanEvent::Completed);
    assert_eq!(
        machine.step(ScanEvent::Cancel),
        ScanAction::ReportFailure(ScanFailure::Cancelled)
    );
    assert_eq!(machine.phase(), Phase::Aborted);
    assert_eq!(total(&machine, Metric::GlpRewards), Some(3));
    let mut machine = Orchestrator::new(config(0, Some(19), 10), target(&[]));
    assert_eq!(
        machine.step(ScanEvent::Cancel),
        ScanAction::ReportFailure(ScanFailure::Cancelled)
    );
}

#[test]
fn feeding_counts_each_decoded_event_once() {
    let mut aggregator = Aggregator::new();
    let logs = vec![split_entry(1, 1, 1), split_entry(2, 2, 2), split_entry(2, 2, 2)];
    let skipped = feed(&mut aggregator, EventSchema::SplitRewards, &logs);
    assert!(skipped.is_zero());
    assert_eq!(aggregator.snapshot().total(Metric::GlpRewards).to_u128(), Some(15));
    let skipped = feed(&mut aggregator, EventSchema::FirstRouterRedeemGlp, &logs);
    assert_eq!(skipped.to_u128(), Some(3));
    assert_eq!(aggregator.snapshot().total(Metric::GlpRewards).to_u128(), Some(15));
    assert_eq!(aggregator.snapshot().total(Metric::RedeemGlpRetention).to_u128(), Some(0));
    let topic = [7u8; 32];
    let mut log = split_entry(5, 5, 5);
    log.topics[0] = topic;
    let skipped = feed_with_topic(&mut aggregator, EventSchema::SplitRewards, &topic, &vec![log]);
    assert!(skipped.is_zero());
    assert_eq!(aggregator.snapshot().total(Metric::GlpRewards).to_u128(), Some(30));
}
