//! The sink: filters events, builds records and hands them to a backend.

use crate::clock::now_utc;
use crate::connect::Connect;
use crate::entry::{EntryView, LogEntry, StorageError};
use crate::event::{fields_view, owned_text, str_view, Event, Metadata};
use crate::filter::{has_module, list_view, matches_any, slice_list_view, spec_enabled};
use crate::level::LevelFilter;
use crate::subscriber::Subscriber;
use crate::visitor::{attributes_of, message_of, Visitor};
use vstd::prelude::*;

verus! {

/// What is kept of an event that was accepted at `time`: the event's level
/// and call site, the message and the attributes of its fields.
pub open spec fn captured(event: Event, time: time::OffsetDateTime, log_compat: bool) -> EntryView {
    EntryView {
        time,
        level: event.metadata.level,
        module: str_view(event.metadata.module),
        file: str_view(event.metadata.file),
        line: event.metadata.line,
        message: message_of(fields_view(event.fields@)),
        structured: attributes_of(fields_view(event.fields@), log_compat),
    }
}

/// A sink that writes events to a backend. It records an event when the
/// event is not more verbose than the threshold and its module path passes
/// the white list and the black list.
#[derive(Debug)]
pub struct Layer<C> {
    logger: C,
    max_level: LevelFilter,
    black_list: Option<Vec<&'static str>>,
    white_list: Option<Vec<&'static str>>,
    log_compat: bool,
}

impl<C> Layer<C> {
    /// The backend.
    pub closed spec fn spec_logger(&self) -> C {
        self.logger
    }

    /// The most verbose level that is recorded.
    pub closed spec fn spec_max_level(&self) -> LevelFilter {
        self.max_level
    }

    /// The prefixes of the white list, if there is one.
    pub closed spec fn allow_prefixes(&self) -> Option<Seq<Seq<char>>> {
        list_view(self.white_list)
    }

    /// The prefixes of the black list, if there is one.
    pub closed spec fn deny_prefixes(&self) -> Option<Seq<Seq<char>>> {
        list_view(self.black_list)
    }

    /// Whether the fields that a bridge from the `log` crate adds are left
    /// out of the attributes.
    pub closed spec fn spec_log_compat(&self) -> bool {
        self.log_compat
    }

    /// Whether an event with this metadata is recorded.
    pub open spec fn spec_enabled(&self, metadata: Metadata) -> bool {
        spec_enabled(
            self.spec_max_level(),
            self.allow_prefixes(),
            self.deny_prefixes(),
            metadata.level,
            str_view(metadata.module),
        )
    }

    pub(crate) fn new(
        logger: C,
        max_level: LevelFilter,
        black_list: Option<Vec<&'static str>>,
        white_list: Option<Vec<&'static str>>,
        log_compat: bool,
    ) -> (layer: Layer<C>)
        ensures
            layer.spec_logger() == logger,
            layer.spec_max_level() == max_level,
            layer.deny_prefixes() == list_view(black_list),
            layer.allow_prefixes() == list_view(white_list),
            layer.spec_log_compat() == log_compat,
    {
        Layer { logger, max_level, black_list, white_list, log_compat }
    }

    /// The black list: a record is dropped if its module path starts with
    /// one of these.
    pub fn black_list(&self) -> (list: Option<&[&'static str]>)
        ensures
            slice_list_view(list) == self.deny_prefixes(),
    {
        match &self.black_list {
            Some(list) => Some(list.as_slice()),
            None => None,
        }
    }

    /// The white list: a record is kept only if its module path starts with
    /// one of these.
    pub fn white_list(&self) -> (list: Option<&[&'static str]>)
        ensures
            slice_list_view(list) == self.allow_prefixes(),
    {
        match &self.white_list {
            Some(list) => Some(list.as_slice()),
            None => None,
        }
    }

    /// The most verbose level that is recorded.
    pub fn max_level(&self) -> (level: &LevelFilter)
        ensures
            *level == self.spec_max_level(),
    {
        &self.max_level
    }

    /// Whether the fields that a bridge from the `log` crate adds are left
    /// out of the attributes.
    pub fn log_compat(&self) -> (on: bool)
        ensures
            on == self.spec_log_compat(),
    {
        self.log_compat
    }

    /// Decides whether an event is recorded.
    ///
    /// An event more verbose than the threshold is rejected. An event that
    /// names a module path is also rejected where there is a white list and
    /// the path starts with none of its entries, and where there is a black
    /// list and the path starts with one of its entries. An event that names
    /// no module path passes both lists.
    pub fn enabled(&self, metadata: &Metadata) -> (enabled: bool)
        ensures
            enabled == self.spec_enabled(*metadata),
            !self.spec_max_level().spec_allows(metadata.level) ==> !enabled,
            metadata.module matches Some(m) && self.allow_prefixes() matches Some(a)
                && !matches_any(m@, a) ==> !enabled,
            metadata.module matches Some(m) && self.deny_prefixes() matches Some(d) && matches_any(
                m@,
                d,
            ) ==> !enabled,
    {
        if !self.max_level.allows(metadata.level) {
            return false;
        }
        match metadata.module {
            None => true,
            Some(m) => {
                let in_white_list = match self.white_list() {
                    Some(list) => has_module(m, list),
                    None => true,
                };
                let in_black_list = match self.black_list() {
                    Some(list) => has_module(m, list),
                    None => false,
                };
                in_white_list && !in_black_list
            },
        }
    }

    /// The threshold, for a dispatcher that wants to skip events that could
    /// never pass. Every event that is enabled is one that the hint allows.
    pub fn max_level_hint(&self) -> (hint: Option<LevelFilter>)
        ensures
            hint == Some(self.spec_max_level()),
            forall|metadata: Metadata| #[trigger]
                self.spec_enabled(metadata) ==> hint->0.spec_allows(metadata.level),
    {
        Some(self.max_level)
    }

    /// Wraps the sink in a subscriber.
    pub fn to_subscriber(self) -> (subscriber: Subscriber<C>)
        ensures
            subscriber.spec_layer() == self,
            subscriber.span_count() == 1,
    {
        Subscriber::with_layer(self)
    }

    /// What the sink keeps of an event that arrives at `time`: nothing where
    /// the event is filtered out, else the record that is to be stored. The
    /// record carries `time`, the event's level and call site, and the
    /// message and attributes of its fields; its attributes hold nothing
    /// under the message's name.
    pub fn capture(&self, event: Event, time: time::OffsetDateTime) -> (entry: Option<LogEntry>)
        ensures
            !self.spec_max_level().spec_allows(event.metadata.level) ==> entry is None,
            match entry {
                None => !self.spec_enabled(event.metadata),
                Some(e) => {
                    &&& self.spec_enabled(event.metadata)
                    &&& e@ == captured(event, time, self.spec_log_compat())
                    &&& e.wf()
                },
            },
    {
        if !self.enabled(&event.metadata) {
            return None;
        }
        let (message, structured) = Visitor::extract(event.fields, self.log_compat);
        Some(
            LogEntry {
                time,
                level: event.metadata.level,
                module: owned_text(event.metadata.module),
                file: owned_text(event.metadata.file),
                line: event.metadata.line,
                message,
                structured,
            },
        )
    }
}

impl<C: Connect> Layer<C> {
    /// Handles one event. A filtered event is skipped and counts as a
    /// success. For any other event the answer is one that the backend gave
    /// when it was handed the record of the event, stamped with the time of
    /// the call.
    pub fn on_event(&self, event: Event) -> (stored: Result<(), StorageError>)
        ensures
            !self.spec_enabled(event.metadata) ==> stored is Ok,
            !self.spec_max_level().spec_allows(event.metadata.level) ==> stored is Ok,
            self.spec_enabled(event.metadata) ==> exists|entry: LogEntry|
                {
                    &&& entry.wf()
                    &&& entry@ == captured(event, entry.time, self.spec_log_compat())
                    &&& #[trigger] call_ensures(C::log, (&self.spec_logger(), entry), stored)
                },
    {
        match self.capture(event, now_utc()) {
            Some(entry) => {
                let ghost handed = entry;
                let stored = self.logger.log(entry);
                assert(call_ensures(C::log, (&self.spec_logger(), handed), stored));
                stored
            },
            None => Ok(()),
        }
    }
}

} // verus!
