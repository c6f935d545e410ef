//! The record catalog.

pub mod add_order_with_participant_id_message;
pub mod combination_order_book_directory_message;
pub mod equilibrium_price_update_message;
pub mod order_book_state_message;
pub mod order_delete_message;
pub mod order_executed_message;
pub mod order_executed_with_price_message;
pub mod seconds_message;
pub mod system_event_message;
pub mod tick_size_table_entry_message;
pub mod trade_message;
