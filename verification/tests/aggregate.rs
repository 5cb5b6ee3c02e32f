use janalytics::aggregate::{contribution_of, Aggregator, RunningTotal};
use janalytics::amount::Amount;
use janalytics::decode::DecodedEvent;
use janalytics::schema::Metric;

fn split(glp: u128, jones: u128, stable: u128) -> DecodedEvent {
    DecodedEvent::SplitRewards {
        glp_rewards: Amount::from_u128(glp),
        jones_rewards: Amount::from_u128(jones),
        stable_rewards: Amount::from_u128(stable),
    }
}

fn redeem_glp(x: u128) -> DecodedEvent {
    DecodedEvent::RedeemGlp { eth_retentions: Amount::from_u128(x) }
}

#[test]
fn split_rewards_sums_its_three_fields() {
    let mut aggregator = Aggregator::new();
    let totals = aggregator.accumulate(Metric::GlpRewards, &split(10, 20, 5)).clone();
    assert_eq!(totals.total(Metric::GlpRewards).to_u128(), Some(35));
    assert_eq!(aggregator.snapshot(), totals);
}

#[test]
fn accumulation_is_additive_in_any_order() {
    let amounts = [10u128, 20, 5];
    let orders = [[0usize, 1, 2], [0, 2, 1], [1, 0, 2], [1, 2, 0], [2, 0, 1], [2, 1, 0]];
    for order in orders {
        let mut aggregator = Aggregator::new();
        for i in order {
            aggregator.accumulate(Metric::RedeemGlpRetention, &redeem_glp(amounts[i]));
        }
        let totals = aggregator.snapshot();
        assert_eq!(totals.total(Metric::RedeemGlpRetention), &Amount::from_u128(35));
    }
}

#[test]
fn feeding_an_event_twice_counts_it_twice() {
    let mut aggregator = Aggregator::new();
    let event = split(1, 2, 3);
    aggregator.accumulate(Metric::GlpRewards, &event);
    assert_eq!(aggregator.snapshot().total(Metric::GlpRewards).to_u128(), Some(6));
    aggregator.accumulate(Metric::GlpRewards, &event);
    assert_eq!(aggregator.snapshot().total(Metric::GlpRewards).to_u128(), Some(12));
}

#[test]
fn each_event_kind_feeds_its_own_metric() {
    let events = [
        (Metric::GlpRewards, split(1, 2, 3), 6u128),
        (Metric::RedeemGlpRetention, redeem_glp(7), 7),
        (
            Metric::RedeemStableRetention,
            DecodedEvent::RedeemStable { real_retentions: Amount::from_u128(8) },
            8,
        ),
        (
            Metric::RedeemGlpEthRetention,
            DecodedEvent::RedeemGlpEth { eth_retentions: Amount::from_u128(9) },
            9,
        ),
    ];
    let metrics = [
        Metric::GlpRewards,
        Metric::RedeemGlpRetention,
        Metric::RedeemStableRetention,
        Metric::RedeemGlpEthRetention,
    ];
    for (own, event, amount) in &events {
        for metric in metrics {
            let expected = if metric == *own { *amount } else { 0 };
            assert_eq!(contribution_of(metric, event).to_u128(), Some(expected));
            let mut aggregator = Aggregator::new();
            aggregator.accumulate(metric, event);
            let totals = aggregator.snapshot();
            for other in metrics {
                let kept = if other == metric { expected } else { 0 };
                assert_eq!(totals.total(other).to_u128(), Some(kept));
            }
        }
    }
}

#[test]
fn snapshot_is_a_copy() {
    let mut aggregator = Aggregator::new();
    aggregator.accumulate(Metric::RedeemGlpRetention, &redeem_glp(4));
    let before = aggregator.snapshot();
    aggregator.accumulate(Metric::RedeemGlpRetention, &redeem_glp(4));
    assert_eq!(before.total(Metric::RedeemGlpRetention).to_u128(), Some(4));
    assert_eq!(aggregator.snapshot().total(Metric::RedeemGlpRetention).to_u128(), Some(8));
}

#[test]
fn totals_never_wrap() {
    let max = Amount::from_be_bytes(&[0xff; 32]);
    let mut aggregator = Aggregator::new();
    let event = DecodedEvent::SplitRewards {
        glp_rewards: max.clone(),
        jones_rewards: max.clone(),
        stable_rewards: max.clone(),
    };
    aggregator.accumulate(Metric::GlpRewards, &event);
    let total = aggregator.snapshot();
    let mut expected = vec![2u8];
    expected.extend_from_slice(&[0xff; 31]);
    expected.push(0xfd);
    assert_eq!(total.total(Metric::GlpRewards).to_be_bytes(), expected);
    assert_eq!(total.display(Metric::GlpRewards), None);
}

#[test]
fn running_total_adds_merges_and_displays() {
    let mut totals = RunningTotal::new();
    totals.add(Metric::GlpRewards, &Amount::from_u128(1_250_000_000_000_000_000));
    totals.add(Metric::RedeemStableRetention, &Amount::from_u128(2_500_000));
    let mut other = RunningTotal::new();
    other.add(Metric::GlpRewards, &Amount::from_u128(750_000_000_000_000_000));
    other.add(Metric::RedeemGlpEthRetention, &Amount::from_u128(1));
    totals.merge(&other);
    assert_eq!(totals.display(Metric::GlpRewards), Some("2.000000000000000000".to_string()));
    assert_eq!(totals.display(Metric::RedeemStableRetention), Some("2.500000".to_string()));
    assert_eq!(
        totals.display(Metric::RedeemGlpEthRetention),
        Some("0.000000000000000001".to_string())
    );
    assert_eq!(
        totals.display(Metric::RedeemGlpRetention),
        Some("0.000000000000000000".to_string())
    );
    assert_eq!(totals.clone(), totals);
}
