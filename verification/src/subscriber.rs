//! A subscriber that wraps a [`Layer`] and numbers the spans it is asked for.

use crate::connect::Connect;
use crate::entry::{LogEntry, StorageError};
use crate::event::{Event, Metadata};
use crate::filter::slice_list_view;
use crate::layer::{captured, Layer};
use crate::level::LevelFilter;
use vstd::prelude::*;

verus! {

/// A sink together with a counter for span identifiers. Spans are not
/// stored; only events are.
#[derive(Debug)]
pub struct Subscriber<C> {
    id: u64,
    layer: Layer<C>,
}

/// The span identifier for a reading of the counter: the reading itself,
/// but for 0, which is no identifier and for which the largest one stands in.
pub open spec fn span_id_of(count: u64) -> u64 {
    if count == 0 {
        u64::MAX
    } else {
        count
    }
}

/// The reading of the counter that follows `count`: one more, and 0 after
/// the largest.
pub open spec fn count_after(count: u64) -> u64 {
    if count == u64::MAX {
        0
    } else {
        (count + 1) as u64
    }
}

impl<C> Subscriber<C> {
    /// The sink that this subscriber wraps.
    pub closed spec fn spec_layer(&self) -> Layer<C> {
        self.layer
    }

    /// The reading of the span counter: what the next span identifier is
    /// made from.
    pub closed spec fn span_count(&self) -> u64 {
        self.id
    }

    /// A subscriber that records every event.
    pub fn new(connection: C) -> (subscriber: Subscriber<C>)
        ensures
            subscriber.spec_layer().spec_logger() == connection,
            subscriber.spec_layer().spec_max_level() == LevelFilter::Trace,
            subscriber.spec_layer().allow_prefixes() is None,
            subscriber.spec_layer().deny_prefixes() is None,
            !subscriber.spec_layer().spec_log_compat(),
            subscriber.span_count() == 1,
    {
        Subscriber::with_max_level(connection, LevelFilter::Trace)
    }

    /// A subscriber around a sink.
    pub fn with_layer(layer: Layer<C>) -> (subscriber: Subscriber<C>)
        ensures
            subscriber.spec_layer() == layer,
            subscriber.span_count() == 1,
    {
        Subscriber { id: 1, layer }
    }

    /// A subscriber that records the events that are not more verbose than
    /// `max_level`, whatever their module path.
    pub fn with_max_level(connection: C, max_level: LevelFilter) -> (subscriber: Subscriber<C>)
        ensures
            subscriber.spec_layer().spec_logger() == connection,
            subscriber.spec_layer().spec_max_level() == max_level,
            subscriber.spec_layer().allow_prefixes() is None,
            subscriber.spec_layer().deny_prefixes() is None,
            !subscriber.spec_layer().spec_log_compat(),
            subscriber.span_count() == 1,
    {
        Subscriber::with_layer(Layer::new(connection, max_level, None, None, false))
    }

    /// The black list of the sink.
    pub fn black_list(&self) -> (list: Option<&[&'static str]>)
        ensures
            slice_list_view(list) == self.spec_layer().deny_prefixes(),
    {
        self.layer.black_list()
    }

    /// The white list of the sink.
    pub fn white_list(&self) -> (list: Option<&[&'static str]>)
        ensures
            slice_list_view(list) == self.spec_layer().allow_prefixes(),
    {
        self.layer.white_list()
    }

    /// Whether the sink leaves the fields that a bridge from the `log` crate
    /// adds out of the attributes.
    pub fn log_compat(&self) -> (on: bool)
        ensures
            on == self.spec_layer().spec_log_compat(),
    {
        self.layer.log_compat()
    }

    /// Whether the sink records an event with this metadata.
    pub fn enabled(&self, metadata: &Metadata) -> (enabled: bool)
        ensures
            enabled == self.spec_layer().spec_enabled(*metadata),
    {
        self.layer.enabled(metadata)
    }

    /// The threshold of the sink. Every event that is enabled is one that
    /// the hint allows.
    pub fn max_level_hint(&self) -> (hint: Option<LevelFilter>)
        ensures
            hint == Some(self.spec_layer().spec_max_level()),
            forall|metadata: Metadata| #[trigger]
                self.spec_layer().spec_enabled(metadata) ==> hint->0.spec_allows(metadata.level),
    {
        self.layer.max_level_hint()
    }

    /// The span identifier for a reading of the counter. An identifier is
    /// never 0: should the counter ever wrap around to 0, the largest
    /// identifier stands in for it.
    pub fn span_id(count: u64) -> (id: u64)
        ensures
            id != 0,
            id == span_id_of(count),
    {
        if count == 0 {
            u64::MAX
        } else {
            count
        }
    }

    /// Hands out the next span identifier and moves the counter on by one.
    /// The counter starts at 1, so the identifiers are 1, 2, 3 and so on,
    /// each one more than the one before, until the counter runs over. The
    /// sink is left as it is.
    pub fn new_span(&mut self) -> (id: u64)
        ensures
            id == span_id_of(old(self).span_count()),
            id != 0,
            final(self).span_count() == count_after(old(self).span_count()),
            0 < old(self).span_count() < u64::MAX ==> id == old(self).span_count()
                && final(self).span_count() == id + 1,
            final(self).spec_layer() == old(self).spec_layer(),
    {
        let count = self.id;
        self.id = if count == u64::MAX {
            0
        } else {
            count + 1
        };
        Subscriber::<C>::span_id(count)
    }
}

impl<C: Connect> Subscriber<C> {
    /// Hands an event to the sink.
    pub fn event(&self, event: Event) -> (stored: Result<(), StorageError>)
        ensures
            !self.spec_layer().spec_enabled(event.metadata) ==> stored is Ok,
            self.spec_layer().spec_enabled(event.metadata) ==> exists|entry: LogEntry|
                {
                    &&& entry.wf()
                    &&& entry@ == captured(event, entry.time, self.spec_layer().spec_log_compat())
                    &&& #[trigger] call_ensures(
                        C::log,
                        (&self.spec_layer().spec_logger(), entry),
                        stored,
                    )
                },
    {
        self.layer.on_event(event)
    }
}

} // verus!
