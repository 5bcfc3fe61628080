//! Client-side resource lifecycle for a simulator's shared-memory telemetry
//! feed: opening the named memory object, mapping a read-only view, opening
//! the readiness event, and releasing all three in strict reverse order.

pub mod sdk;
