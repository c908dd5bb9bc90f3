//! Forward structured tracing spans and events to a native event-tracing
//! provider as typed, severity-tagged records.
//!
//! The crate holds the relay's whole decision logic: the severity mapping
//! from the host framework's levels to the provider's levels, the textual
//! composition of event messages from field name/value pairs, and the
//! assembly of the four provider operations (create span, enter span,
//! exit span, emit event) from span and event data. Surrounding glue that
//! talks to the host framework and to the OS tracing subsystem converts
//! its values into the plain types defined here and performs the calls
//! this library assembles.

pub mod levels;
pub mod message;
pub mod relay;

pub use levels::{map_level, EtwLevel, TracingLevel};
pub use message::EtwEventFieldVisitor;
pub use relay::{EtwLayer, EventRecord, ProviderCall, SpanMetadata, TracingProvider, PROVIDER_GUID};
