//! What a scan is told: its bounds and pacing, the contract to query and the
//! events to ask for.

use crate::ethers_api::{address_of_text, parse_address};
use crate::range::{BlockRange, RangeBoundaryError};
use crate::schema::EventSchema;
use vstd::prelude::*;

verus! {

/// The bounds and the pacing of one scan.
#[derive(Clone, Copy, Debug, PartialEq, Eq)]
pub struct ScanConfig {
    /// The first block to scan.
    pub genesis_block: u64,
    /// The last block to scan; without one, the scan runs up to the latest
    /// block less the safety buffer.
    pub end_block: Option<u64>,
    /// The greatest number of blocks in one query.
    pub max_window_width: u64,
    /// The pause before each window's queries, in milliseconds.
    pub inter_query_delay_millis: u64,
    /// How many of the latest blocks are left out, because the node may yet
    /// replace them.
    pub safety_buffer_blocks: u64,
}

impl ScanConfig {
    /// The last block to scan when the node's latest block is `latest`: the
    /// configured end if there is one, else `latest` less the safety buffer.
    pub open spec fn ceiling_for(self, latest: u64) -> Result<u64, RangeBoundaryError> {
        match self.end_block {
            Some(end) => Ok(end),
            None => if latest < self.safety_buffer_blocks {
                Err(RangeBoundaryError::BufferExceedsLatest)
            } else {
                Ok((latest - self.safety_buffer_blocks) as u64)
            },
        }
    }

    /// Why a scan up to `ceiling` cannot start, if it cannot.
    pub open spec fn refusal(self, ceiling: u64) -> Option<RangeBoundaryError> {
        if self.max_window_width == 0 {
            Some(RangeBoundaryError::ZeroWindowWidth)
        } else if ceiling < self.genesis_block {
            Some(RangeBoundaryError::CeilingBelowGenesis)
        } else {
            None
        }
    }

    /// The last block to scan when the node's latest block is `latest`.
    pub fn resolve_ceiling(&self, latest: u64) -> (r: Result<u64, RangeBoundaryError>)
        ensures
            r == self.ceiling_for(latest),
    {
        match self.end_block {
            Some(end) => Ok(end),
            None => if latest < self.safety_buffer_blocks {
                Err(RangeBoundaryError::BufferExceedsLatest)
            } else {
                Ok(latest - self.safety_buffer_blocks)
            },
        }
    }

    /// Checks that a scan up to `ceiling` can start: windows hold at least
    /// one block, and the range is not empty.
    pub fn validate(&self, ceiling: u64) -> (r: Result<(), RangeBoundaryError>)
        ensures
            match r {
                Ok(_) => self.refusal(ceiling) is None,
                Err(e) => self.refusal(ceiling) == Some(e),
            },
    {
        if self.max_window_width == 0 {
            Err(RangeBoundaryError::ZeroWindowWidth)
        } else if ceiling < self.genesis_block {
            Err(RangeBoundaryError::CeilingBelowGenesis)
        } else {
            Ok(())
        }
    }
}

/// The contract whose log is scanned, and the events to ask for in every
/// window.
#[derive(Clone, Debug, PartialEq, Eq)]
pub struct ScanTarget {
    /// The contract's address.
    pub contract: [u8; 20],
    /// The events to query, in the order in which they are queried.
    pub schemas: Vec<EventSchema>,
}

impl ScanTarget {
    /// The target at the address that `address` spells in hexadecimal.
    pub fn with_address(address: &str, schemas: Vec<EventSchema>) -> (r: Result<
        ScanTarget,
        RangeBoundaryError,
    >)
        ensures
            match r {
                Ok(target) => address_of_text(address@) == Some(target.contract@)
                    && target.schemas == schemas,
                Err(e) => address_of_text(address@) is None && e
                    == RangeBoundaryError::MalformedAddress,
            },
    {
        match parse_address(address) {
            Some(contract) => Ok(ScanTarget { contract, schemas }),
            None => Err(RangeBoundaryError::MalformedAddress),
        }
    }
}

/// One query: the events of one kind that one contract emitted in one window.
#[derive(Clone, Copy, Debug, PartialEq, Eq)]
pub struct EventFilter {
    /// The contract's address.
    pub contract: [u8; 20],
    /// The event asked for.
    pub schema: EventSchema,
    /// The topic that stands for the event's signature.
    pub topic: [u8; 32],
    /// The blocks to search, both ends included.
    pub window: BlockRange,
}

impl EventFilter {
    /// The query for events of layout `schema` from `contract` in `window`.
    pub fn new(contract: [u8; 20], schema: EventSchema, window: BlockRange) -> (filter: EventFilter)
        ensures
            filter.contract == contract,
            filter.schema == schema,
            filter.topic@ == schema.topic(),
            filter.window == window,
    {
        EventFilter { contract, schema, topic: schema.event_topic(), window }
    }
}

} // verus!
