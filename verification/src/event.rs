//! Events as the sink receives them.

use crate::level::Level;
use vstd::prelude::*;

verus! {

/// Where an event comes from and how severe it is. The module path, the file
/// and the line are absent where the emitter does not supply them.
#[derive(Debug, Clone, Copy)]
pub struct Metadata<'a> {
    pub level: Level,
    pub module: Option<&'a str>,
    pub file: Option<&'a str>,
    pub line: Option<u32>,
}

/// One emitted event: its metadata and its fields in the order in which they
/// were recorded, each a name and the rendering of its value.
#[derive(Debug, Clone)]
pub struct Event<'a> {
    pub metadata: Metadata<'a>,
    pub fields: Vec<(&'a str, String)>,
}

/// The metadata that counts for an event. In compatibility mode an event
/// that was bridged from the `log` crate goes by the call site that the
/// bridged record names; any other event goes by its own.
pub fn effective_metadata<'a>(
    own: Metadata<'a>,
    bridged: Option<Metadata<'a>>,
    log_compat: bool,
) -> (chosen: Metadata<'a>)
    ensures
        chosen == (if log_compat && bridged is Some {
            bridged->0
        } else {
            own
        }),
{
    match bridged {
        Some(metadata) => if log_compat {
            metadata
        } else {
            own
        },
        None => own,
    }
}

/// The characters of a borrowed text that may be absent.
pub open spec fn str_view(text: Option<&str>) -> Option<Seq<char>> {
    match text {
        Some(t) => Some(t@),
        None => None,
    }
}

/// The characters of a text that may be absent.
pub open spec fn text_view(text: Option<String>) -> Option<Seq<char>> {
    match text {
        Some(t) => Some(t@),
        None => None,
    }
}

/// The characters of each name and value of a list of fields.
pub open spec fn fields_view(fields: Seq<(&str, String)>) -> Seq<(Seq<char>, Seq<char>)> {
    fields.map_values(|f: (&str, String)| (f.0@, f.1@))
}

/// A copy of a text that may be absent.
pub fn owned_text(text: Option<&str>) -> (owned: Option<String>)
    ensures
        text_view(owned) == str_view(text),
{
    match text {
        Some(t) => Some(t.to_owned()),
        None => None,
    }
}

} // verus!
