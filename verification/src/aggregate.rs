//! Folding decoded events into running sums.

use crate::amount::{pow256, Amount};
use crate::decode::{DecodedEvent, EventValue};
use crate::ethers_api::units_text;
use crate::schema::Metric;
use vstd::prelude::*;
use vstd::seq_lib::{to_multiset_build, to_multiset_contains, to_multiset_len, to_multiset_remove};

verus! {

/// What `event` adds to `metric`: the three rewards of a split together, the
/// retention of a redemption, and nothing where the event is of a kind that
/// the metric does not count.
pub open spec fn contribution(metric: Metric, event: EventValue) -> nat {
    match (metric, event) {
        (
            Metric::GlpRewards,
            EventValue::SplitRewards { glp_rewards, jones_rewards, stable_rewards },
        ) => glp_rewards + jones_rewards + stable_rewards,
        (Metric::RedeemGlpRetention, EventValue::RedeemGlp { eth_retentions }) => eth_retentions,
        (
            Metric::RedeemStableRetention,
            EventValue::RedeemStable { real_retentions },
        ) => real_retentions,
        (
            Metric::RedeemGlpEthRetention,
            EventValue::RedeemGlpEth { eth_retentions },
        ) => eth_retentions,
        _ => 0,
    }
}

/// The sums of a scan as numbers, one per metric.
pub struct Totals {
    pub glp_rewards: nat,
    pub redeem_glp_retention: nat,
    pub redeem_stable_retention: nat,
    pub redeem_glp_eth_retention: nat,
}

impl Totals {
    /// Every sum at zero.
    pub open spec fn zero() -> Totals {
        Totals {
            glp_rewards: 0,
            redeem_glp_retention: 0,
            redeem_stable_retention: 0,
            redeem_glp_eth_retention: 0,
        }
    }

    /// The sum kept for `metric`.
    pub open spec fn of(self, metric: Metric) -> nat {
        match metric {
            Metric::GlpRewards => self.glp_rewards,
            Metric::RedeemGlpRetention => self.redeem_glp_retention,
            Metric::RedeemStableRetention => self.redeem_stable_retention,
            Metric::RedeemGlpEthRetention => self.redeem_glp_eth_retention,
        }
    }

    /// The sums with `amount` added to that of `metric`.
    pub open spec fn plus(self, metric: Metric, amount: nat) -> Totals {
        match metric {
            Metric::GlpRewards => Totals { glp_rewards: self.glp_rewards + amount, ..self },
            Metric::RedeemGlpRetention => Totals {
                redeem_glp_retention: self.redeem_glp_retention + amount,
                ..self
            },
            Metric::RedeemStableRetention => Totals {
                redeem_stable_retention: self.redeem_stable_retention + amount,
                ..self
            },
            Metric::RedeemGlpEthRetention => Totals {
                redeem_glp_eth_retention: self.redeem_glp_eth_retention + amount,
                ..self
            },
        }
    }

    /// The sums after `event` was counted towards `metric`.
    pub open spec fn after(self, metric: Metric, event: EventValue) -> Totals {
        self.plus(metric, contribution(metric, event))
    }

    /// The sums of both, metric by metric.
    pub open spec fn merged(self, other: Totals) -> Totals {
        Totals {
            glp_rewards: self.glp_rewards + other.glp_rewards,
            redeem_glp_retention: self.redeem_glp_retention + other.redeem_glp_retention,
            redeem_stable_retention: self.redeem_stable_retention + other.redeem_stable_retention,
            redeem_glp_eth_retention: self.redeem_glp_eth_retention
                + other.redeem_glp_eth_retention,
        }
    }

    /// No sum of `self` is greater than that of `other`.
    pub open spec fn le(self, other: Totals) -> bool {
        forall|metric: Metric| self.of(metric) <= #[trigger] other.of(metric)
    }
}

/// The sums of a scan: one amount of any size per metric.
#[derive(Debug, PartialEq, Eq)]
pub struct RunningTotal {
    glp_rewards: Amount,
    redeem_glp_retention: Amount,
    redeem_stable_retention: Amount,
    redeem_glp_eth_retention: Amount,
}

impl View for RunningTotal {
    type V = Totals;

    closed spec fn view(&self) -> Totals {
        Totals {
            glp_rewards: self.glp_rewards@,
            redeem_glp_retention: self.redeem_glp_retention@,
            redeem_stable_retention: self.redeem_stable_retention@,
            redeem_glp_eth_retention: self.redeem_glp_eth_retention@,
        }
    }
}

impl Clone for RunningTotal {
    fn clone(&self) -> (copy: RunningTotal)
        ensures
            copy@ == self@,
    {
        RunningTotal {
            glp_rewards: self.glp_rewards.clone(),
            redeem_glp_retention: self.redeem_glp_retention.clone(),
            redeem_stable_retention: self.redeem_stable_retention.clone(),
            redeem_glp_eth_retention: self.redeem_glp_eth_retention.clone(),
        }
    }
}

impl RunningTotal {
    /// Every sum at zero.
    pub fn new() -> (totals: RunningTotal)
        ensures
            totals@ == Totals::zero(),
    {
        RunningTotal {
            glp_rewards: Amount::zero(),
            redeem_glp_retention: Amount::zero(),
            redeem_stable_retention: Amount::zero(),
            redeem_glp_eth_retention: Amount::zero(),
        }
    }

    /// The sum kept for `metric`.
    pub fn total(&self, metric: Metric) -> (amount: &Amount)
        ensures
            amount@ == self@.of(metric),
    {
        match metric {
            Metric::GlpRewards => &self.glp_rewards,
            Metric::RedeemGlpRetention => &self.redeem_glp_retention,
            Metric::RedeemStableRetention => &self.redeem_stable_retention,
            Metric::RedeemGlpEthRetention => &self.redeem_glp_eth_retention,
        }
    }

    /// Adds `amount` to the sum of `metric`; the other sums stay.
    pub fn add(&mut self, metric: Metric, amount: &Amount)
        ensures
            final(self)@ == old(self)@.plus(metric, amount@),
    {
        match metric {
            Metric::GlpRewards => {
                self.glp_rewards = self.glp_rewards.add(amount);
            },
            Metric::RedeemGlpRetention => {
                self.redeem_glp_retention = self.redeem_glp_retention.add(amount);
            },
            Metric::RedeemStableRetention => {
                self.redeem_stable_retention = self.redeem_stable_retention.add(amount);
            },
            Metric::RedeemGlpEthRetention => {
                self.redeem_glp_eth_retention = self.redeem_glp_eth_retention.add(amount);
            },
        }
    }

    /// Adds each sum of `other` to the sum of the same metric.
    pub fn merge(&mut self, other: &RunningTotal)
        ensures
            final(self)@ == old(self)@.merged(other@),
    {
        self.glp_rewards = self.glp_rewards.add(&other.glp_rewards);
        self.redeem_glp_retention = self.redeem_glp_retention.add(&other.redeem_glp_retention);
        self.redeem_stable_retention = self.redeem_stable_retention.add(
            &other.redeem_stable_retention,
        );
        self.redeem_glp_eth_retention = self.redeem_glp_eth_retention.add(
            &other.redeem_glp_eth_retention,
        );
    }

    /// The sum of `metric` in whole units, written out with the metric's
    /// number of fractional digits; `None` once the sum is past 256 bits.
    pub fn display(&self, metric: Metric) -> (text: Option<String>)
        ensures
            text is Some <==> self@.of(metric) < pow256(32),
            text matches Some(t) ==> t@ == units_text(
                self@.of(metric),
                metric.decimals() as nat,
            ),
    {
        self.total(metric).format_units(metric.scale())
    }
}

/// What `event` adds to `metric`.
pub fn contribution_of(metric: Metric, event: &DecodedEvent) -> (amount: Amount)
    ensures
        amount@ == contribution(metric, event@),
{
    match event {
        DecodedEvent::SplitRewards { glp_rewards, jones_rewards, stable_rewards } => {
            match metric {
                Metric::GlpRewards => glp_rewards.add(jones_rewards).add(stable_rewards),
                _ => Amount::zero(),
            }
        },
        DecodedEvent::RedeemGlp { eth_retentions } => {
            match metric {
                Metric::RedeemGlpRetention => eth_retentions.clone(),
                _ => Amount::zero(),
            }
        },
        DecodedEvent::RedeemStable { real_retentions } => {
            match metric {
                Metric::RedeemStableRetention => real_retentions.clone(),
                _ => Amount::zero(),
            }
        },
        DecodedEvent::RedeemGlpEth { eth_retentions } => {
            match metric {
                Metric::RedeemGlpEthRetention => eth_retentions.clone(),
                _ => Amount::zero(),
            }
        },
    }
}

/// Keeps the running sums of one scan.
///
/// Events are added as they are fed: the same event fed twice counts twice.
#[derive(Debug, PartialEq, Eq)]
pub struct Aggregator {
    totals: RunningTotal,
}

impl View for Aggregator {
    type V = Totals;

    closed spec fn view(&self) -> Totals {
        self.totals@
    }
}

impl Aggregator {
    /// An aggregator with every sum at zero.
    pub fn new() -> (aggregator: Aggregator)
        ensures
            aggregator@ == Totals::zero(),
    {
        Aggregator { totals: RunningTotal::new() }
    }

    /// An aggregator that goes on from `totals`.
    pub fn resume(totals: RunningTotal) -> (aggregator: Aggregator)
        ensures
            aggregator@ == totals@,
    {
        Aggregator { totals }
    }

    /// The sums as they stand, at the end of the aggregator's life.
    pub fn into_totals(self) -> (totals: RunningTotal)
        ensures
            totals@ == self@,
    {
        self.totals
    }

    /// Counts `event` towards `metric` and hands back the sums as they now
    /// stand. No sum ever decreases.
    pub fn accumulate(&mut self, metric: Metric, event: &DecodedEvent) -> (totals: &RunningTotal)
        ensures
            final(self)@ == old(self)@.after(metric, event@),
            old(self)@.le(final(self)@),
            totals@ == final(self)@,
    {
        let amount = contribution_of(metric, event);
        self.totals.add(metric, &amount);
        &self.totals
    }

    /// A copy of the sums as they stand.
    pub fn snapshot(&self) -> (totals: RunningTotal)
        ensures
            totals@ == self@,
    {
        self.totals.clone()
    }
}

/// Counting two events in either order gives the same sums.
pub proof fn lemma_accumulation_commutes(
    totals: Totals,
    first_metric: Metric,
    first: EventValue,
    second_metric: Metric,
    second: EventValue,
)
    ensures
        totals.after(first_metric, first).after(second_metric, second) == totals.after(
            second_metric,
            second,
        ).after(first_metric, first),
{
}

/// An event counted twice adds its contribution twice: nothing is left out as
/// a duplicate.
pub proof fn lemma_fed_twice_counts_twice(totals: Totals, metric: Metric, event: EventValue)
    ensures
        totals.after(metric, event).after(metric, event) == totals.plus(
            metric,
            2 * contribution(metric, event),
        ),
{
}

/// The sums after every pair of `feed` was counted, first to last.
pub open spec fn after_all(totals: Totals, feed: Seq<(Metric, EventValue)>) -> Totals
    decreases feed.len(),
{
    if feed.len() == 0 {
        totals
    } else {
        after_all(totals, feed.drop_last()).after(feed.last().0, feed.last().1)
    }
}

proof fn lemma_one_taken_out(totals: Totals, feed: Seq<(Metric, EventValue)>, k: int)
    requires
        0 <= k < feed.len(),
    ensures
        after_all(totals, feed) == after_all(totals, feed.remove(k)).after(feed[k].0, feed[k].1),
    decreases feed.len(),
{
    if k == feed.len() - 1 {
        assert(feed.remove(k) =~= feed.drop_last());
    } else {
        let rest = feed.drop_last();
        lemma_one_taken_out(totals, rest, k);
        assert(feed.remove(k).drop_last() =~= rest.remove(k));
        assert(feed.remove(k).last() == feed.last());
        lemma_accumulation_commutes(
            after_all(totals, rest.remove(k)),
            feed[k].0,
            feed[k].1,
            feed.last().0,
            feed.last().1,
        );
    }
}

/// The order of accumulation does not matter: two feeds that hold the same
/// events the same number of times give the same sums.
pub proof fn lemma_order_does_not_matter(
    totals: Totals,
    first: Seq<(Metric, EventValue)>,
    second: Seq<(Metric, EventValue)>,
)
    requires
        first.to_multiset() == second.to_multiset(),
    ensures
        after_all(totals, first) == after_all(totals, second),
    decreases first.len(),
{
    to_multiset_len(first);
    to_multiset_len(second);
    if first.len() > 0 {
        let x = first.last();
        let rest = first.drop_last();
        assert(first =~= rest.push(x));
        to_multiset_build(rest, x);
        assert(first.to_multiset().count(x) > 0);
        to_multiset_contains(second, x);
        let k = choose|k: int| 0 <= k < second.len() && second[k] == x;
        to_multiset_remove(second, k);
        assert(rest.to_multiset() =~= second.remove(k).to_multiset());
        lemma_order_does_not_matter(totals, rest, second.remove(k));
        lemma_one_taken_out(totals, second, k);
    }
}

} // verus!
