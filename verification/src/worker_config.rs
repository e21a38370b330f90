use vstd::prelude::*;

verus! {

/// Startup configuration of the fulfillment worker process. Values come
/// from the process environment; reading the environment is the
/// caller's side, and a missing or malformed value must abort startup.
#[allow(non_snake_case)]
pub struct Config {
    pub WORKER_PORT: u16,
    pub WORK_DIR: String,
    pub START_COUNTER: u64,
    pub SMTP_SERVER: String,
    pub SMTP_PORT: u16,
    pub SENDER_EMAIL: String,
    pub SENDER_PASS: String,
    pub RECEIVER_EMAIL: String,
}

} // verus!
