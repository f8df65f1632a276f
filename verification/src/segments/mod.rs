//! What each segment of the status line shows.

pub mod byebyecode_status;
pub mod byebyecode_subscription;
pub mod byebyecode_usage;
