//! Core of a Bluetooth device manager: a session controller that issues
//! commands to a native radio driver, an event bridge that turns raw callback
//! payloads into typed events, and a device directory that folds those events
//! into a deduplicated view of known devices and their connection state.

mod bridge;
mod channel;
mod config;
mod consumer;
mod device;
mod directory;
mod error;
mod event;
mod format;
mod session;
mod status;

pub use bridge::{decode_device_found, decode_error, decoded_name, error_text, opt_text};
pub use channel::EventQueue;
pub use config::{
    bindings_to_map, lemma_bindings_contains, lemma_bindings_index, lemma_bindings_remove,
    lemma_bindings_update, resolved_targets, unique_names, Config,
};
pub use directory::{
    accepts, apply_all, apply_transition, concerns, connect_update, lemma_anomalous_event_skipped,
    lemma_apply_all_concat, lemma_apply_all_push, lemma_apply_in_order, lemma_idempotent_connect,
    lemma_observed_dedup, lemma_unrelated_event_preserves_record, link_address, observed_device,
    seq_to_map, unique_addresses, DeviceDirectory,
};
pub use consumer::{anomalies_of, apply_events, scan_flag};
pub use device::{BluetoothDevice, DeviceCategory, DeviceModel, SignalQuality};
pub use device::{category_of, device_category, level_of, quality_of, signal_level, signal_quality};
pub use error::{error_for, message_of, AppError, ErrorModel};
pub use event::{Event, EventModel};
pub use format::{address_hex, digit_chars, hex_digit, hex_rep};
pub use session::SessionController;
pub use status::{decode_raw, label_of, lemma_raw_round_trip, raw_of, FfiErrorCode};
