//! The event layouts of the contracts that are scanned.
//!
//! A log entry carries one 32-byte topic per indexed parameter, after the
//! topic that stands for the event's signature, and one 32-byte word of data
//! per parameter that is not indexed. Which layout applies is the caller's
//! choice, made per query; it is never read off an entry.

use crate::ethers_api::{keccak256_digest, keccak256_text};
use vstd::prelude::*;

verus! {

/// What one 32-byte word holds.
#[derive(Clone, Copy, Debug, PartialEq, Eq, Structural)]
pub enum WordKind {
    /// An unsigned integer of 256 bits.
    Uint256,
    /// An account address in the low 20 bytes.
    Address,
    /// A truth value, zero or one.
    Bool,
}

/// The running sums that a scan keeps.
#[derive(Clone, Copy, Debug, PartialEq, Eq, Structural)]
pub enum Metric {
    /// Rewards split between the vaults.
    GlpRewards,
    /// Retention withheld when GLP is redeemed.
    RedeemGlpRetention,
    /// Retention withheld when the stable vault is redeemed.
    RedeemStableRetention,
    /// Retention withheld when GLP is redeemed for ether.
    RedeemGlpEthRetention,
}

/// An event of one contract generation.
///
/// The two router generations emit `RedeemGlp` with different parameters, so
/// each generation has a layout of its own.
#[derive(Clone, Copy, Debug, PartialEq, Eq, Structural)]
pub enum EventSchema {
    /// `SplitRewards` of the rewards distributor. Nothing is indexed; the
    /// payload holds the GLP, Jones and stable rewards.
    SplitRewards,
    /// `RedeemGlp` of the first router. The receiver is indexed; the payload
    /// holds the amount, the retentions, the retentions in ether and whether
    /// the redemption was compounded.
    FirstRouterRedeemGlp,
    /// `RedeemStable` of the first router. The receiver is indexed; the
    /// payload holds the amount, the retentions, the real retentions and
    /// whether the redemption was compounded.
    FirstRouterRedeemStable,
    /// `RedeemGlpEth` of the first router. The receiver is indexed; the
    /// payload holds the amount, the retentions, the retentions in ether and
    /// the amount in ether.
    FirstRouterRedeemGlpEth,
    /// `RedeemGlp` of the current router. The receiver and the token are
    /// indexed; the payload holds the amount, the retentions, the retentions
    /// in ether, the amount in ether and whether the redemption was
    /// compounded.
    CurrentRouterRedeemGlp,
    /// `RedeemStable` of the current router, laid out as that of the first.
    CurrentRouterRedeemStable,
}

impl Metric {
    /// The number of fractional digits with which the metric is shown.
    pub open spec fn decimals(self) -> u32 {
        match self {
            Metric::RedeemStableRetention => 6,
            _ => 18,
        }
    }

    /// The name under which the metric is reported.
    pub open spec fn label(self) -> Seq<char> {
        match self {
            Metric::GlpRewards => "glp_rewards_total"@,
            Metric::RedeemGlpRetention => "redeem_glp_retention_total"@,
            Metric::RedeemStableRetention => "redeem_stable_retention_total"@,
            Metric::RedeemGlpEthRetention => "redeem_glp_eth_retention_total"@,
        }
    }

    /// The number of fractional digits with which the metric is shown: 6 for
    /// the stable retention, 18 for the others.
    pub fn scale(self) -> (digits: u32)
        ensures
            digits == self.decimals(),
    {
        match self {
            Metric::RedeemStableRetention => 6,
            _ => 18,
        }
    }

    /// The name under which the metric is reported.
    pub fn name(self) -> (text: &'static str)
        ensures
            text@ == self.label(),
    {
        match self {
            Metric::GlpRewards => "glp_rewards_total",
            Metric::RedeemGlpRetention => "redeem_glp_retention_total",
            Metric::RedeemStableRetention => "redeem_stable_retention_total",
            Metric::RedeemGlpEthRetention => "redeem_glp_eth_retention_total",
        }
    }
}

impl EventSchema {
    /// The event's canonical signature.
    pub open spec fn signature_text(self) -> Seq<char> {
        match self {
            EventSchema::SplitRewards => "SplitRewards(uint256,uint256,uint256)"@,
            EventSchema::FirstRouterRedeemGlp => "RedeemGlp(address,uint256,uint256,uint256,bool)"@,
            EventSchema::FirstRouterRedeemStable => "RedeemStable(address,uint256,uint256,uint256,bool)"@,
            EventSchema::FirstRouterRedeemGlpEth => "RedeemGlpEth(address,uint256,uint256,uint256,uint256)"@,
            EventSchema::CurrentRouterRedeemGlp => "RedeemGlp(address,uint256,uint256,uint256,address,uint256,bool)"@,
            EventSchema::CurrentRouterRedeemStable => "RedeemStable(address,uint256,uint256,uint256,bool)"@,
        }
    }

    /// The kinds of the indexed parameters, in order.
    pub open spec fn topic_layout(self) -> Seq<WordKind> {
        match self {
            EventSchema::SplitRewards => seq![],
            EventSchema::CurrentRouterRedeemGlp => seq![WordKind::Address, WordKind::Address],
            _ => seq![WordKind::Address],
        }
    }

    /// The kinds of the parameters that are not indexed, in order.
    pub open spec fn data_layout(self) -> Seq<WordKind> {
        match self {
            EventSchema::SplitRewards => seq![
                WordKind::Uint256,
                WordKind::Uint256,
                WordKind::Uint256,
            ],
            EventSchema::FirstRouterRedeemGlpEth => seq![
                WordKind::Uint256,
                WordKind::Uint256,
                WordKind::Uint256,
                WordKind::Uint256,
            ],
            EventSchema::CurrentRouterRedeemGlp => seq![
                WordKind::Uint256,
                WordKind::Uint256,
                WordKind::Uint256,
                WordKind::Uint256,
                WordKind::Bool,
            ],
            _ => seq![WordKind::Uint256, WordKind::Uint256, WordKind::Uint256, WordKind::Bool],
        }
    }

    /// The metric that events of this kind add to.
    pub open spec fn feeds(self) -> Metric {
        match self {
            EventSchema::SplitRewards => Metric::GlpRewards,
            EventSchema::FirstRouterRedeemGlp => Metric::RedeemGlpRetention,
            EventSchema::CurrentRouterRedeemGlp => Metric::RedeemGlpRetention,
            EventSchema::FirstRouterRedeemStable => Metric::RedeemStableRetention,
            EventSchema::CurrentRouterRedeemStable => Metric::RedeemStableRetention,
            EventSchema::FirstRouterRedeemGlpEth => Metric::RedeemGlpEthRetention,
        }
    }

    /// The topic under which a node indexes events of this kind.
    pub open spec fn topic(self) -> Seq<u8> {
        keccak256_digest(self.signature_text())
    }

    /// The event's canonical signature: its name and the types of its
    /// parameters.
    pub fn signature(self) -> (text: &'static str)
        ensures
            text@ == self.signature_text(),
    {
        match self {
            EventSchema::SplitRewards => "SplitRewards(uint256,uint256,uint256)",
            EventSchema::FirstRouterRedeemGlp => "RedeemGlp(address,uint256,uint256,uint256,bool)",
            EventSchema::FirstRouterRedeemStable => "RedeemStable(address,uint256,uint256,uint256,bool)",
            EventSchema::FirstRouterRedeemGlpEth => "RedeemGlpEth(address,uint256,uint256,uint256,uint256)",
            EventSchema::CurrentRouterRedeemGlp => "RedeemGlp(address,uint256,uint256,uint256,address,uint256,bool)",
            EventSchema::CurrentRouterRedeemStable => "RedeemStable(address,uint256,uint256,uint256,bool)",
        }
    }

    /// The number of indexed parameters.
    pub fn topic_words(self) -> (n: usize)
        ensures
            n == self.topic_layout().len(),
    {
        match self {
            EventSchema::SplitRewards => 0,
            EventSchema::CurrentRouterRedeemGlp => 2,
            _ => 1,
        }
    }

    /// The number of parameters that are not indexed.
    pub fn data_words(self) -> (n: usize)
        ensures
            n == self.data_layout().len(),
    {
        match self {
            EventSchema::SplitRewards => 3,
            EventSchema::CurrentRouterRedeemGlp => 5,
            _ => 4,
        }
    }

    /// The kind of indexed parameter `i`, if there are that many.
    pub fn topic_kind(self, i: usize) -> (kind: Option<WordKind>)
        ensures
            i < self.topic_layout().len() ==> kind == Some(self.topic_layout()[i as int]),
            i >= self.topic_layout().len() ==> kind is None,
    {
        if i < self.topic_words() {
            Some(WordKind::Address)
        } else {
            None
        }
    }

    /// The kind of data word `i`, if there are that many.
    pub fn data_kind(self, i: usize) -> (kind: Option<WordKind>)
        ensures
            i < self.data_layout().len() ==> kind == Some(self.data_layout()[i as int]),
            i >= self.data_layout().len() ==> kind is None,
    {
        if i >= self.data_words() {
            return None;
        }
        let last_is_truth_value = match self {
            EventSchema::SplitRewards => false,
            EventSchema::FirstRouterRedeemGlpEth => false,
            _ => true,
        };
        if last_is_truth_value && i + 1 == self.data_words() {
            Some(WordKind::Bool)
        } else {
            Some(WordKind::Uint256)
        }
    }

    /// The metric that events of this kind add to.
    pub fn metric(self) -> (m: Metric)
        ensures
            m == self.feeds(),
    {
        match self {
            EventSchema::SplitRewards => Metric::GlpRewards,
            EventSchema::FirstRouterRedeemGlp => Metric::RedeemGlpRetention,
            EventSchema::CurrentRouterRedeemGlp => Metric::RedeemGlpRetention,
            EventSchema::FirstRouterRedeemStable => Metric::RedeemStableRetention,
            EventSchema::CurrentRouterRedeemStable => Metric::RedeemStableRetention,
            EventSchema::FirstRouterRedeemGlpEth => Metric::RedeemGlpEthRetention,
        }
    }

    /// The topic under which a node indexes events of this kind: the
    /// Keccak-256 digest of the signature.
    pub fn event_topic(self) -> (topic: [u8; 32])
        ensures
            topic@ == self.topic(),
    {
        keccak256_text(self.signature())
    }
}

} // verus!
