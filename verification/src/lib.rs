//! Verified core of the kukuri client: signed envelopes, gossip hints and the
//! decisions that drive subscription recovery, hydration and pagination.
pub mod ids;
pub mod text;
pub mod crypto;
pub mod json;
pub mod envelope;
pub mod hints;
pub mod recovery;
pub mod sync_state;
pub mod teardown;
pub mod timeline;
pub mod channels;
pub mod guide;
