//! A session store for `tower-sessions` that keeps session records in a
//! libSQL table.

pub mod error;
pub mod session;
pub mod sql;
pub mod store;
pub mod table_name;

pub use error::{LibsqlStoreError, StoreError};
pub use session::{
    decode_record, encode_record, live_payload, load_record, next_create_step, CreateStep, StoredRow,
};
pub use store::LibsqlStore;
pub use table_name::is_valid_table_name;
