//! A verified core for a REST API client that sits behind rate limiting,
//! transient failures, and cursor-based pagination.
//!
//! The library holds the decision logic: the retry state machine with its
//! exponential backoff and rate-limit sub-protocol, the page decoder that
//! normalizes heterogeneous JSON page shapes, the pagination cursor, the
//! mutation throttle, and the error-body capture rules.  The blocking HTTP
//! transport, clocks, and sleeps live outside; they hand these functions
//! plain values (status codes, header strings, timestamps in nanoseconds)
//! and carry out the decisions they return.

pub mod body;
pub mod cursor;
pub mod links;
pub mod method;
pub mod page;
pub mod retry;
pub mod text;
pub mod throttle;

pub use body::RequestError;
pub use body::StatusError;
pub use body::capture_body;
pub use body::is_json_content_type;
pub use cursor::CursorAction;
pub use cursor::PageCursor;
pub use links::supply_fetched_page;
pub use method::Method;
pub use method::ParseMethodError;
pub use method::parse_method;
pub use page::Page;
pub use page::PageDocument;
pub use page::PageValue;
pub use page::ParsePageError;
pub use page::decode_page;
pub use retry::ReplyInfo;
pub use retry::Retrier;
pub use retry::RetryDecision;
pub use retry::TransportOutcome;
pub use retry::backoff_nanos;
pub use retry::time_till_timestamp;
pub use text::parse_u64;
pub use text::str_contains;
pub use throttle::mutation_wait_nanos;
