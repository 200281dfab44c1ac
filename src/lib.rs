//! Dispatch core for GL rendering contexts that live on a worker: the context
//! registry with its current-binding marker, the parameter tables that answer
//! queries, the buffer-object state kept by the scripting side, the routing
//! of external-image requests to the owning worker, and the per-eye VR views.
pub mod buffer;
pub mod channel;
pub mod gl;
pub mod params;
pub mod processor;
pub mod threads;
pub mod vr;
