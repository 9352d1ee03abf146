//! Response modification over ICAP: the decisions of the task that feeds
//! an HTTP response body to an adaptation server and hands the adapted
//! body to the client.

pub mod bidirectional;
pub mod error;
pub mod run_state;
