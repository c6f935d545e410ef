//! The fixed wire size, in bytes, of every record type of the catalog.

use vstd::prelude::*;

verus! {

pub const SYSTEM_EVENT_MESSAGE_BYTE_COUNT: usize = 6;

pub const SECONDS_MESSAGE_BYTE_COUNT: usize = 5;

pub const ORDER_BOOK_STATE_MESSAGE_BYTE_COUNT: usize = 29;

pub const ADD_ORDER_WITH_PARTICIPANT_ID_MESSAGE_BYTE_COUNT: usize = 44;

pub const ORDER_DELETE_MESSAGE_BYTE_COUNT: usize = 18;

pub const ORDER_EXECUTED_MESSAGE_BYTE_COUNT: usize = 52;

pub const ORDER_EXECUTED_WITH_PRICE_MESSAGE_BYTE_COUNT: usize = 58;

pub const TRADE_MESSAGE_BYTE_COUNT: usize = 50;

pub const TICK_SIZE_TABLE_ENTRY_MESSAGE_BYTE_COUNT: usize = 25;

pub const COMBINATION_ORDER_BOOK_DIRECTORY_MESSAGE_BYTE_COUNT: usize = 268;

pub const EQUILIBRIUM_PRICE_UPDATE_MESSAGE_BYTE_COUNT: usize = 53;

} // verus!
