//! Session-aware client logic for a network controller's management API.
//!
//! The crate holds the protocol decisions (token lifecycle, response
//! envelope, paginated collection fetch, task polling, version gate) as
//! verified functions on plain values. Network and file access live with
//! the caller, which performs the requests this crate describes and hands
//! the replies back.

pub mod devices;
pub mod dnac;
pub mod envelope;
pub mod identifier;
pub mod json;
pub mod pagination;
pub mod paging;
pub mod platform;
pub mod session;
pub mod sites;
pub mod task;
pub mod text;
pub mod token;
pub mod transport;

pub use dnac::DNAC;
pub use sites::Location;
pub use sites::Site;
pub use sites::SiteError;
pub use sites::SiteFilter;
pub use sites::SiteType;
pub use sites::Sites;
