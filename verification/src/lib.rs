//! Core of a client SDK for a token-authenticated trading API.
//!
//! The heart of the library is a self-refreshing credential cache: it obtains
//! an initial bearer token, serves the current token to every outgoing call
//! without blocking on the network, refreshes the token on a fixed schedule in
//! the background, retries promptly on refresh failure, and shuts its
//! background activity down deterministically.
//!
//! The library holds the verified logic: the token store with its non-empty
//! invariant, the refresh/retry/shutdown state machine, and the request
//! decorator that attaches the token as an `authorization` metadata entry.
//! Network transport, task spawning and timers are left to the embedding
//! runtime, which drives the state machine with events and performs the
//! actions it returns.

mod errors;
mod interceptor;
mod laws;
mod metadata;
mod scheduler;

pub use errors::FetchError;
pub use errors::FinamSdkError;
pub use errors::sdk_error_of_fetch;
pub use interceptor::FinamSdkInterceptor;
pub use laws::fetch_count;
pub use laws::is_retry_segment;
pub use laws::lemma_failure_isolation;
pub use laws::lemma_no_tearing;
pub use laws::lemma_non_empty_invariant;
pub use laws::lemma_shutdown_latency;
pub use laws::retry_actions;
pub use metadata::HeaderEntry;
pub use metadata::Request;
pub use metadata::check_header_value;
pub use metadata::legal_header_byte;
pub use metadata::legal_header_bytes;
pub use metadata::legal_header_value;
pub use scheduler::Action;
pub use scheduler::Event;
pub use scheduler::EventV;
pub use scheduler::REFRESH_INTERVAL_MS;
pub use scheduler::RETRY_BACKOFF_MS;
pub use scheduler::RefreshConfig;
pub use scheduler::RefreshScheduler;
pub use scheduler::SchedulerState;
pub use scheduler::action_of;
pub use scheduler::next_state;
pub use scheduler::run_actions;
pub use scheduler::run_state;
pub use scheduler::run_token;
pub use scheduler::token_after;
