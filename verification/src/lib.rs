//! A verified core for a hackerspace announcer: it decides, from the open/closed
//! status of the space and a listing of candidate posts, which post to announce
//! next, keeps a durable record of already-announced identifiers, and lays the
//! announcement out for a terminal. Network, audio and terminal I/O live outside
//! this library; it works on the plain values they produce.

pub mod control;
pub mod json;
pub mod lines;
pub mod listing;
pub mod post;
pub mod present;
pub mod speech;
pub mod status;
pub mod store;
pub mod voice;

pub use post::{Post, PostView, NoCandidatesError, select_highest};
pub use store::IdStore;
pub use listing::{RawChild, RequestError, fetch_candidates, posts_from_children};
pub use status::is_open;
pub use control::{Outcome, step};
pub use present::{Placement, layout};
pub use speech::speech_text;
pub use voice::pick_voice;
