//! Mail-client discovery: resolves a request's domain against a configuration
//! store and renders MTA-STS, Autodiscover and Autoconfig responses.
pub mod autoconfig;
pub mod autodiscover;
pub mod host;
pub mod mta_sts;
pub mod scan;
pub mod serve;
pub mod service;
pub mod text;

pub use autoconfig::autoconfig;
pub use autodiscover::{autodiscover, autodiscover_reply};
pub use host::{begin, on_domain_row, on_whitelist, DomainRow, HostInfo, Resolution, Step, StoreError};
pub use mta_sts::mta_sts;
pub use scan::email_address;
pub use serve::{serve, Route, Served};
pub use service::{index, ContentKind, Protocol, ServiceStat};
