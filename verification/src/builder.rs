//! Configuration of a sink.

use crate::filter::list_view;
use crate::layer::Layer;
use crate::level::LevelFilter;
use crate::subscriber::Subscriber;
use vstd::prelude::*;

verus! {

/// Collects the threshold and the two lists, and builds a sink from them.
#[derive(Debug)]
pub struct SubscriberBuilder {
    max_level: LevelFilter,
    black_list: Option<Vec<&'static str>>,
    white_list: Option<Vec<&'static str>>,
    log_compat: bool,
}

impl SubscriberBuilder {
    /// The most verbose level that will be recorded.
    pub closed spec fn spec_max_level(&self) -> LevelFilter {
        self.max_level
    }

    /// The prefixes of the white list, if one was given.
    pub closed spec fn allow_prefixes(&self) -> Option<Seq<Seq<char>>> {
        list_view(self.white_list)
    }

    /// The prefixes of the black list, if one was given.
    pub closed spec fn deny_prefixes(&self) -> Option<Seq<Seq<char>>> {
        list_view(self.black_list)
    }

    /// Whether the fields that a bridge from the `log` crate adds will be
    /// left out of the attributes.
    pub closed spec fn spec_log_compat(&self) -> bool {
        self.log_compat
    }

    /// Whether this is the configuration that `new` gives: threshold
    /// `Debug`, no list, no compatibility mode.
    pub open spec fn is_default(&self) -> bool {
        &&& self.spec_max_level() == LevelFilter::Debug
        &&& self.allow_prefixes() is None
        &&& self.deny_prefixes() is None
        &&& !self.spec_log_compat()
    }

    /// Whether a sink has this configuration.
    pub open spec fn configures<C>(&self, layer: Layer<C>) -> bool {
        &&& layer.spec_max_level() == self.spec_max_level()
        &&& layer.allow_prefixes() == self.allow_prefixes()
        &&& layer.deny_prefixes() == self.deny_prefixes()
        &&& layer.spec_log_compat() == self.spec_log_compat()
    }

    /// The default configuration.
    pub fn new() -> (builder: SubscriberBuilder)
        ensures
            builder.is_default(),
    {
        SubscriberBuilder {
            max_level: LevelFilter::Debug,
            black_list: None,
            white_list: None,
            log_compat: false,
        }
    }

    /// Sets the most verbose level that is recorded.
    pub fn with_max_level(self, max_level: LevelFilter) -> (builder: SubscriberBuilder)
        ensures
            builder.spec_max_level() == max_level,
            builder.allow_prefixes() == self.allow_prefixes(),
            builder.deny_prefixes() == self.deny_prefixes(),
            builder.spec_log_compat() == self.spec_log_compat(),
    {
        SubscriberBuilder {
            max_level,
            black_list: self.black_list,
            white_list: self.white_list,
            log_compat: self.log_compat,
        }
    }

    /// Sets the black list. An event is not recorded if its module path
    /// starts with any entry of the list.
    pub fn with_black_list(self, black_list: Vec<&'static str>) -> (builder: SubscriberBuilder)
        ensures
            builder.deny_prefixes() == list_view(Some(black_list)),
            builder.spec_max_level() == self.spec_max_level(),
            builder.allow_prefixes() == self.allow_prefixes(),
            builder.spec_log_compat() == self.spec_log_compat(),
    {
        SubscriberBuilder {
            max_level: self.max_level,
            black_list: Some(black_list),
            white_list: self.white_list,
            log_compat: self.log_compat,
        }
    }

    /// Sets the white list. An event is recorded only if its module path
    /// starts with some entry of the list.
    pub fn with_white_list(self, white_list: Vec<&'static str>) -> (builder: SubscriberBuilder)
        ensures
            builder.allow_prefixes() == list_view(Some(white_list)),
            builder.spec_max_level() == self.spec_max_level(),
            builder.deny_prefixes() == self.deny_prefixes(),
            builder.spec_log_compat() == self.spec_log_compat(),
    {
        SubscriberBuilder {
            max_level: self.max_level,
            black_list: self.black_list,
            white_list: Some(white_list),
            log_compat: self.log_compat,
        }
    }

    /// Chooses whether the fields that a bridge from the `log` crate adds
    /// are left out of the attributes.
    pub fn with_log_compat(self, log_compat: bool) -> (builder: SubscriberBuilder)
        ensures
            builder.spec_log_compat() == log_compat,
            builder.spec_max_level() == self.spec_max_level(),
            builder.allow_prefixes() == self.allow_prefixes(),
            builder.deny_prefixes() == self.deny_prefixes(),
    {
        SubscriberBuilder {
            max_level: self.max_level,
            black_list: self.black_list,
            white_list: self.white_list,
            log_compat,
        }
    }

    /// Builds a subscriber that writes to `conn`.
    pub fn build<C>(self, conn: C) -> (subscriber: Subscriber<C>)
        ensures
            subscriber.spec_layer().spec_logger() == conn,
            self.configures(subscriber.spec_layer()),
            subscriber.span_count() == 1,
    {
        self.build_layer(conn).to_subscriber()
    }

    /// Builds a sink that writes to `conn`.
    pub fn build_layer<C>(self, conn: C) -> (layer: Layer<C>)
        ensures
            layer.spec_logger() == conn,
            self.configures(layer),
    {
        Layer::new(conn, self.max_level, self.black_list, self.white_list, self.log_compat)
    }
}

impl Default for SubscriberBuilder {
    fn default() -> (builder: SubscriberBuilder)
        ensures
            builder.is_default(),
    {
        SubscriberBuilder::new()
    }
}

} // verus!
