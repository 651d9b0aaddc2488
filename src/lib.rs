//! Keeps the indexers of a media manager in step with those that a tracker
//! catalog discovers: capability classification, a codec for the manager's
//! field-list records, and the reconciliation that decides what to upsert.

pub mod codec;
pub mod error;
pub mod filter;
pub mod indexer;
pub mod jackett;
pub mod reconcile;
pub mod search;
pub mod sonarr;
pub mod text;
pub mod weburl;
pub mod znab;
