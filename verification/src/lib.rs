//! A minimal remote-page-fetch library: build a bounded outbound GET request
//! and normalize the transport's outcome (success or failure) into one
//! uniform result shape.

mod fetch;
mod page;

pub use fetch::FetchRequest;
pub use fetch::HttpMethod;
pub use fetch::TransportOutcome;
pub use fetch::build_request;
pub use fetch::normalize_outcome;
pub use fetch::FAILURE_STATUS;
pub use fetch::MAX_RESPONSE_BYTES;
pub use fetch::RESOURCE_BUDGET;
pub use page::HttpHeader;
pub use page::PageResult;
