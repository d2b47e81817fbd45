//! Profiles of proxy endpoints: decoding share-links and subscription
//! documents, keeping the decoded profiles in named groups, and the rules
//! by which a profile is probed and handed to the proxy client.

pub mod codecs;
pub mod config;
pub mod import;
pub mod launcher;
pub mod link;
pub mod probe;
pub mod store;
pub mod subscription;
pub mod text;

pub use config::SsrConfig;
pub use link::ssr_url_parse;
pub use store::{Document, Group};
pub use subscription::ssr_sub_parse;
