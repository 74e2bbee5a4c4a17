//! Status snapshot of a game server: parsing of query responses, the offline
//! fallback, well-known job descriptors, and two renderings of a snapshot.

pub mod extensions;
pub mod jobs;
pub mod keywords;
pub mod metrics;
pub mod status;
pub mod text;
