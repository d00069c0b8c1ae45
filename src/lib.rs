//! The media-plane core of a live-streaming desktop client: the rules for
//! recording live FLV streams in timed segments and for relaying them through
//! local proxies, with their contracts proved.
//!
//! - `rules`: normalisation of platforms, qualities, segment lengths, path
//!   tokens, URLs and file names.
//! - `upstream`: turning a platform resolver's answer into a stream URL, and
//!   the headers of outbound requests.
//! - `worker`: a recording task as a state machine from events to actions.
//! - `manager`: start requests, duplicate detection and the task table.
//! - `proxy`: the proxy session table and the static proxy's start.
//! - `snapshot`, `ids`, `text`: task state, identifiers, and string helpers.

pub mod ids;
pub mod manager;
pub mod proxy;
pub mod rules;
pub mod snapshot;
pub mod text;
pub mod upstream;
pub mod worker;
