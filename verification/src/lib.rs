//! Verified core of a video ingest-transcode-publish pipeline.
//!
//! A notification names a raw asset that has landed in object storage. The
//! library decodes the notification, derives the asset's identifiers, guards
//! against duplicate work through a status store, and sequences the
//! download-convert-upload flow as a state machine whose outside steps
//! (object transfer, transcoding, cleanup) are performed by the caller and
//! reported back as events.

pub mod decode;
pub mod identity;
pub mod pipeline;
pub mod store;
