//! The three scans of the Jones GLP vaults on Arbitrum: their contracts,
//! ranges and events.

use crate::config::{ScanConfig, ScanTarget};
use crate::ethers_api::address_of_text;
use crate::range::RangeBoundaryError;
use crate::scan::{Orchestrator, ScanState};
use crate::schema::EventSchema;
use vstd::prelude::*;

verus! {

/// The block at which the first router was deployed.
pub const GENESIS_FIRST_ROUTER: u64 = 55_870_909;

/// The last block of the first router, which was retired in favour of the
/// current one.
pub const END_FIRST_ROUTER: u64 = 61_636_421;

/// The block at which the current router was deployed.
pub const GENESIS_CURRENT_ROUTER: u64 = 61_578_908;

/// The block at which the rewards distributor was deployed.
pub const GENESIS_REWARD_DISTRIBUTOR: u64 = 55_870_678;

/// The widest range of blocks that the node answers for.
pub const MAX_BLOCK_RANGE: u64 = 10_000_000;

/// The pause before each window's queries, which keeps the node from
/// refusing them.
pub const QUERY_DELAY_MILLIS: u64 = 5_000;

/// How many of the latest blocks are left out of an open-ended scan.
pub const SAFETY_BUFFER_BLOCKS: u64 = 1_000;

/// The address of the first router.
pub open spec fn first_router_address() -> Seq<char> {
    "0x01aD96292cdc627307817c428562226fd905AEc2"@
}

/// The address of the current router.
pub open spec fn current_router_address() -> Seq<char> {
    "0x2F43c6475f1ecBD051cE486A9f3Ccc4b03F3d713"@
}

/// The address of the rewards distributor.
pub open spec fn reward_distributor_address() -> Seq<char> {
    "0xda04B5F54756774AD405DE499bB5100c80980a12"@
}

/// The settings of the scan of the first router: its whole life, which one
/// window holds, without a pause.
pub open spec fn first_router_config() -> ScanConfig {
    ScanConfig {
        genesis_block: GENESIS_FIRST_ROUTER,
        end_block: Some(END_FIRST_ROUTER),
        max_window_width: MAX_BLOCK_RANGE,
        inter_query_delay_millis: 0,
        safety_buffer_blocks: 0,
    }
}

/// The settings of a scan from `genesis` up to the latest block less the
/// safety buffer.
pub open spec fn open_ended_config(genesis: u64) -> ScanConfig {
    ScanConfig {
        genesis_block: genesis,
        end_block: None,
        max_window_width: MAX_BLOCK_RANGE,
        inter_query_delay_millis: QUERY_DELAY_MILLIS,
        safety_buffer_blocks: SAFETY_BUFFER_BLOCKS,
    }
}

/// The settings of the scan of the first router.
pub fn first_router_settings() -> (config: ScanConfig)
    ensures
        config == first_router_config(),
{
    ScanConfig {
        genesis_block: GENESIS_FIRST_ROUTER,
        end_block: Some(END_FIRST_ROUTER),
        max_window_width: MAX_BLOCK_RANGE,
        inter_query_delay_millis: 0,
        safety_buffer_blocks: 0,
    }
}

/// The settings of a scan from `genesis` up to the latest block less the
/// safety buffer, in windows of the widest range that the node answers for,
/// with a pause before each.
pub fn open_ended_settings(genesis: u64) -> (config: ScanConfig)
    ensures
        config == open_ended_config(genesis),
{
    ScanConfig {
        genesis_block: genesis,
        end_block: None,
        max_window_width: MAX_BLOCK_RANGE,
        inter_query_delay_millis: QUERY_DELAY_MILLIS,
        safety_buffer_blocks: SAFETY_BUFFER_BLOCKS,
    }
}

/// Whether `r` is the scan, not started, of the contract at `address` for
/// `schemas` under `config`; or the refusal of an address that is none.
pub open spec fn is_scan_of(
    r: Result<Orchestrator, RangeBoundaryError>,
    address: Seq<char>,
    config: ScanConfig,
    schemas: Seq<EventSchema>,
) -> bool {
    match r {
        Ok(machine) => address_of_text(address) == Some(machine@.contract) && machine@
            == ScanState::idle(config, machine@.contract, schemas),
        Err(e) => address_of_text(address) is None && e == RangeBoundaryError::MalformedAddress,
    }
}

fn scan_of(address: &str, config: ScanConfig, schemas: Vec<EventSchema>) -> (r: Result<
    Orchestrator,
    RangeBoundaryError,
>)
    ensures
        is_scan_of(r, address@, config, schemas@),
{
    match ScanTarget::with_address(address, schemas) {
        Ok(target) => Ok(Orchestrator::new(config, target)),
        Err(e) => Err(e),
    }
}

/// The scan that sums the retentions of the first router: `RedeemGlp`,
/// `RedeemStable` and `RedeemGlpEth` over the router's whole life.
pub fn total_retention_redeem_glp_first_router() -> (r: Result<Orchestrator, RangeBoundaryError>)
    ensures
        is_scan_of(
            r,
            first_router_address(),
            first_router_config(),
            seq![
                EventSchema::FirstRouterRedeemGlp,
                EventSchema::FirstRouterRedeemStable,
                EventSchema::FirstRouterRedeemGlpEth,
            ],
        ),
{
    let mut schemas: Vec<EventSchema> = Vec::new();
    schemas.push(EventSchema::FirstRouterRedeemGlp);
    schemas.push(EventSchema::FirstRouterRedeemStable);
    schemas.push(EventSchema::FirstRouterRedeemGlpEth);
    assert(schemas@ =~= seq![
        EventSchema::FirstRouterRedeemGlp,
        EventSchema::FirstRouterRedeemStable,
        EventSchema::FirstRouterRedeemGlpEth,
    ]);
    scan_of("0x01aD96292cdc627307817c428562226fd905AEc2", first_router_settings(), schemas)
}

/// The scan that sums the retentions of the current router: `RedeemGlp` and
/// `RedeemStable`, from the router's deployment to the latest block less the
/// safety buffer.
pub fn total_retention_redeem_glp_current_router() -> (r: Result<Orchestrator, RangeBoundaryError>)
    ensures
        is_scan_of(
            r,
            current_router_address(),
            open_ended_config(GENESIS_CURRENT_ROUTER),
            seq![EventSchema::CurrentRouterRedeemGlp, EventSchema::CurrentRouterRedeemStable],
        ),
{
    let mut schemas: Vec<EventSchema> = Vec::new();
    schemas.push(EventSchema::CurrentRouterRedeemGlp);
    schemas.push(EventSchema::CurrentRouterRedeemStable);
    assert(schemas@ =~= seq![
        EventSchema::CurrentRouterRedeemGlp,
        EventSchema::CurrentRouterRedeemStable,
    ]);
    scan_of(
        "0x2F43c6475f1ecBD051cE486A9f3Ccc4b03F3d713",
        open_ended_settings(GENESIS_CURRENT_ROUTER),
        schemas,
    )
}

/// The scan that sums the rewards split by the distributor, from its
/// deployment to the latest block less the safety buffer.
pub fn from_split_rewards() -> (r: Result<Orchestrator, RangeBoundaryError>)
    ensures
        is_scan_of(
            r,
            reward_distributor_address(),
            open_ended_config(GENESIS_REWARD_DISTRIBUTOR),
            seq![EventSchema::SplitRewards],
        ),
{
    let mut schemas: Vec<EventSchema> = Vec::new();
    schemas.push(EventSchema::SplitRewards);
    assert(schemas@ =~= seq![EventSchema::SplitRewards]);
    scan_of(
        "0xda04B5F54756774AD405DE499bB5100c80980a12",
        open_ended_settings(GENESIS_REWARD_DISTRIBUTOR),
        schemas,
    )
}

} // verus!
