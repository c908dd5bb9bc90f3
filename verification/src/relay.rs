//! The relay layer: from span and event data to provider calls.
//!
//! The relay translates the four lifecycle callbacks of the host
//! instrumentation framework — span creation, span enter, span exit, and
//! event emission — into fully-assembled calls on a provider client. Each
//! outgoing call carries a provider severity derived deterministically
//! from the triggering span's or event's declared level. The relay keeps
//! no state of its own beyond its immutable configuration: every callback
//! is relayed independently, and concurrent callers share nothing mutable.

use crate::levels::{map_level, spec_map_level, EtwLevel, TracingLevel};
use crate::message::{message_of, EtwEventFieldVisitor};
use vstd::prelude::*;
use vstd::string::StringExecFns;

verus! {

/// Identifier under which the provider registers with the OS tracing
/// subsystem; trace collectors enable this identifier during collection.
pub const PROVIDER_GUID: &'static str = "9c211c60-a6bc-43c3-8d4d-232c121b1852";

/// What the host framework declares about a span at creation: its display
/// name, its declared severity, and its source location, where one was
/// declared.
pub struct SpanMetadata {
    pub name: String,
    pub level: TracingLevel,
    pub file: Option<String>,
    pub line: Option<u32>,
}

/// A point-in-time event: its declared severity, the identifier of its
/// parent span where it has one, and its fields — each a name together
/// with its value already rendered as display text, in emission order.
pub struct EventRecord {
    pub level: TracingLevel,
    pub parent_span_id: Option<u64>,
    pub fields: Vec<(String, String)>,
}

/// One fully-assembled call on the provider client: the operation, the
/// provider severity it carries, and its positional arguments.
pub enum ProviderCall {
    NewSpan { level: EtwLevel, span_id: u64, name: String, file: String, line: u32 },
    EnterSpan { level: EtwLevel, span_id: u64 },
    ExitSpan { level: EtwLevel, span_id: u64 },
    Event { level: EtwLevel, parent_span_id: u64, message: String },
}

/// The provider client interface: the four typed operations the relay
/// drives. Implementations write severity-tagged records to the OS
/// tracing subsystem; a write failure is swallowed there, never surfaced
/// to the relay, so nothing is promised about the calls' outcome.
pub trait TracingProvider {
    fn new_span(&self, level: EtwLevel, span_id: u64, name: &str, file: &str, line: u32);

    fn enter_span(&self, level: EtwLevel, span_id: u64);

    fn exit_span(&self, level: EtwLevel, span_id: u64);

    fn event(&self, level: EtwLevel, parent_span_id: u64, message: &str);
}

impl ProviderCall {
    /// Performs this call on a provider client, fire-and-forget.
    pub fn dispatch<P: TracingProvider>(&self, provider: &P) {
        match self {
            ProviderCall::NewSpan { level, span_id, name, file, line } => {
                provider.new_span(*level, *span_id, name.as_str(), file.as_str(), *line);
            },
            ProviderCall::EnterSpan { level, span_id } => {
                provider.enter_span(*level, *span_id);
            },
            ProviderCall::ExitSpan { level, span_id } => {
                provider.exit_span(*level, *span_id);
            },
            ProviderCall::Event { level, parent_span_id, message } => {
                provider.event(*level, *parent_span_id, message.as_str());
            },
        }
    }
}

/// The relay. It holds the one piece of configuration, fixed at
/// construction: whether span enter/exit transitions are forwarded.
/// Span creation and plain events are always forwarded.
pub struct EtwLayer {
    enable_instrumentation: bool,
}

impl EtwLayer {
    /// Whether span enter/exit transitions are forwarded.
    pub closed spec fn instrumentation_enabled(self) -> bool {
        self.enable_instrumentation
    }

    /// Creates a relay with the given configuration.
    pub fn new(enable_instrumentation: bool) -> (r: Self)
        ensures
            r.instrumentation_enabled() == enable_instrumentation,
    {
        Self { enable_instrumentation }
    }

    /// Assembles the span-creation call: the span's mapped severity, its
    /// identifier, its display name composed of the declared name and the
    /// rendered field set, and its source location — with `<not available>`
    /// standing in for a missing file and 0 for a missing line. Always
    /// produces exactly one call, whatever the configuration: span
    /// creation is structural and stays visible for correlation even when
    /// enter/exit noise is suppressed.
    pub fn new_span(&self, span_id: u64, metadata: &SpanMetadata, rendered_fields: &str) -> (r:
        ProviderCall)
        ensures
            r is NewSpan,
            r->NewSpan_level == spec_map_level(metadata.level),
            r->NewSpan_span_id == span_id,
            r->NewSpan_name@ == metadata.name@ + rendered_fields@,
            r->NewSpan_file@ == (match metadata.file {
                Some(f) => f@,
                None => "<not available>"@,
            }),
            r->NewSpan_line == (match metadata.line {
                Some(l) => l,
                None => 0u32,
            }),
    {
        let mut name = metadata.name.clone();
        name.append(rendered_fields);
        let file: String = match &metadata.file {
            Some(f) => f.clone(),
            None => "<not available>".to_owned(),
        };
        let line: u32 = match metadata.line {
            Some(l) => l,
            None => 0,
        };
        ProviderCall::NewSpan { level: map_level(metadata.level), span_id, name, file, line }
    }

    /// Assembles the enter-span call, or nothing. No call is made when
    /// enter/exit forwarding is disabled, nor when the span's level could
    /// not be looked up (a lookup failure is skipped silently). Otherwise
    /// exactly one enter-span call carries the span's mapped severity and
    /// its identifier.
    pub fn on_enter(&self, span_id: u64, level: Option<TracingLevel>) -> (r: Option<ProviderCall>)
        ensures
            !self.instrumentation_enabled() ==> r is None,
            level is None ==> r is None,
            self.instrumentation_enabled() ==> (match level {
                Some(l) => r matches Some(c) && c is EnterSpan
                    && c->EnterSpan_level == spec_map_level(l)
                    && c->EnterSpan_span_id == span_id,
                None => r is None,
            }),
    {
        if !self.enable_instrumentation {
            return None;
        }
        match level {
            Some(l) => Some(ProviderCall::EnterSpan { level: map_level(l), span_id }),
            None => None,
        }
    }

    /// Assembles the exit-span call, or nothing; symmetric to `on_enter`.
    pub fn on_exit(&self, span_id: u64, level: Option<TracingLevel>) -> (r: Option<ProviderCall>)
        ensures
            !self.instrumentation_enabled() ==> r is None,
            level is None ==> r is None,
            self.instrumentation_enabled() ==> (match level {
                Some(l) => r matches Some(c) && c is ExitSpan
                    && c->ExitSpan_level == spec_map_level(l)
                    && c->ExitSpan_span_id == span_id,
                None => r is None,
            }),
    {
        if !self.enable_instrumentation {
            return None;
        }
        match level {
            Some(l) => Some(ProviderCall::ExitSpan { level: map_level(l), span_id }),
            None => None,
        }
    }

    /// Assembles the event call: the event's mapped severity, its parent
    /// span's identifier (0 where it has none), and the message composed
    /// by visiting every field in emission order. Always produces exactly
    /// one call, whatever the configuration. The message is built in a
    /// buffer of this call's own, shared with no other caller.
    pub fn on_event(&self, event: &EventRecord) -> (r: ProviderCall)
        ensures
            r is Event,
            r->Event_level == spec_map_level(event.level),
            r->Event_parent_span_id == (match event.parent_span_id {
                Some(id) => id,
                None => 0u64,
            }),
            r->Event_message@ == message_of(event.fields@),
    {
        let mut visitor = EtwEventFieldVisitor::new();
        let n = event.fields.len();
        let mut i: usize = 0;
        while i < n
            invariant
                i <= n,
                n == event.fields@.len(),
                visitor@ == message_of(event.fields@.take(i as int)),
            decreases n - i,
        {
            let pair = &event.fields[i];
            visitor.record_debug(pair.0.as_str(), pair.1.as_str());
            proof {
                let taken = event.fields@.take(i + 1);
                assert(taken.drop_last() =~= event.fields@.take(i as int));
                assert(taken.last() == event.fields@[i as int]);
            }
            i += 1;
        }
        proof {
            assert(event.fields@.take(n as int) =~= event.fields@);
        }
        let parent_span_id: u64 = match event.parent_span_id {
            Some(id) => id,
            None => 0,
        };
        ProviderCall::Event {
            level: map_level(event.level),
            parent_span_id,
            message: visitor.message(),
        }
    }
}

} // verus!
