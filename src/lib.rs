//! Command dispatch and guild configuration for a chat bot: per-guild
//! command prefixes, prefix resolution, a fixed-window rate limiter, the
//! command table with argument shapes, and the replies of the commands.

pub mod text;
pub mod store;
pub mod ratelimit;
pub mod resolver;
pub mod dispatch;
pub mod replies;
pub mod avatar;
pub mod settings;
