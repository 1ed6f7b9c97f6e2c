mod error;
mod fetch;
mod resolve;

pub use error::GopherError;
pub use fetch::FetchAction;
pub use fetch::FetchSession;
pub use fetch::build_request;
pub use fetch::crlf;
pub use fetch::exchange;
pub use fetch::lemma_empty_selector_request;
pub use fetch::lemma_request_shape;
pub use fetch::lemma_sent_prefix_grows;
pub use fetch::request_bytes;
pub use resolve::DEFAULT_PORT;
pub use resolve::Gopher;
pub use resolve::GopherView;
pub use resolve::lemma_default_port;
pub use resolve::lemma_scheme_encryption;
pub use resolve::resolution;
pub use resolve::resolved_port;
pub use resolve::resolved_tls;
pub use resolve::resolves;
pub use resolve::url_accepts;
pub use resolve::url_host;
pub use resolve::url_port;
pub use resolve::url_scheme;
