//! The rule that decides whether an event is recorded.
//!
//! An event passes when it is not more verbose than the threshold and its
//! module path gets through the allow list and the deny list. An event that
//! names no module path gets through both lists.

use crate::level::{Level, LevelFilter};
use crate::prefix::starts_with;
use vstd::prelude::*;

verus! {

/// The characters of each prefix of a list.
pub open spec fn prefix_views(prefixes: Seq<&'static str>) -> Seq<Seq<char>> {
    prefixes.map_values(|p: &'static str| p@)
}

/// The prefixes of a list that may be absent.
pub open spec fn list_view(list: Option<Vec<&'static str>>) -> Option<Seq<Seq<char>>> {
    match list {
        Some(l) => Some(prefix_views(l@)),
        None => None,
    }
}

/// Whether a module path starts with at least one of the prefixes.
pub open spec fn matches_any(module: Seq<char>, prefixes: Seq<Seq<char>>) -> bool {
    exists|i: int| 0 <= i < prefixes.len() && (#[trigger] prefixes[i]).is_prefix_of(module)
}

/// Whether a module path gets through the two lists. With an allow list it
/// has to start with one of its prefixes; with a deny list it may start with
/// none of its prefixes. An absent module path gets through.
pub open spec fn passes_lists(
    module: Option<Seq<char>>,
    allow: Option<Seq<Seq<char>>>,
    deny: Option<Seq<Seq<char>>>,
) -> bool {
    match module {
        None => true,
        Some(m) => {
            &&& allow matches Some(a) ==> matches_any(m, a)
            &&& deny matches Some(d) ==> !matches_any(m, d)
        },
    }
}

/// Whether an event of the given level and module path is recorded under a
/// threshold, an allow list and a deny list.
pub open spec fn spec_enabled(
    max_level: LevelFilter,
    allow: Option<Seq<Seq<char>>>,
    deny: Option<Seq<Seq<char>>>,
    level: Level,
    module: Option<Seq<char>>,
) -> bool {
    max_level.spec_allows(level) && passes_lists(module, allow, deny)
}

/// An event that is more verbose than the threshold is not recorded,
/// whatever its module path and the two lists.
pub proof fn lemma_too_verbose_is_rejected(
    max_level: LevelFilter,
    allow: Option<Seq<Seq<char>>>,
    deny: Option<Seq<Seq<char>>>,
    level: Level,
    module: Option<Seq<char>>,
)
    requires
        level.verbosity() > max_level.verbosity(),
    ensures
        !spec_enabled(max_level, allow, deny, level, module),
{
}

/// Under an allow list, an event whose module path starts with none of its
/// entries is not recorded, whatever its level and the deny list.
pub proof fn lemma_unlisted_module_is_rejected(
    max_level: LevelFilter,
    allow: Seq<Seq<char>>,
    deny: Option<Seq<Seq<char>>>,
    level: Level,
    module: Seq<char>,
)
    requires
        !matches_any(module, allow),
    ensures
        !spec_enabled(max_level, Some(allow), deny, level, Some(module)),
{
}

/// Under a deny list, an event whose module path starts with one of its
/// entries is not recorded, whatever its level and the allow list.
pub proof fn lemma_denied_module_is_rejected(
    max_level: LevelFilter,
    allow: Option<Seq<Seq<char>>>,
    deny: Seq<Seq<char>>,
    level: Level,
    module: Seq<char>,
)
    requires
        matches_any(module, deny),
    ensures
        !spec_enabled(max_level, allow, Some(deny), level, Some(module)),
{
}

/// An event that names no module path is recorded exactly when it is not
/// more verbose than the threshold: the lists do not count.
pub proof fn lemma_lists_skip_absent_module(
    max_level: LevelFilter,
    allow: Option<Seq<Seq<char>>>,
    deny: Option<Seq<Seq<char>>>,
    level: Level,
)
    ensures
        spec_enabled(max_level, allow, deny, level, None) == max_level.spec_allows(level),
{
}

/// Whether `module` starts with at least one entry of `modules`.
pub fn has_module(module: &str, modules: &[&'static str]) -> (found: bool)
    ensures
        found == matches_any(module@, prefix_views(modules@)),
{
    let ghost views = prefix_views(modules@);
    let mut i: usize = 0;
    while i < modules.len()
        invariant
            i <= modules.len(),
            views == prefix_views(modules@),
            forall|j: int| 0 <= j < i ==> !(#[trigger] views[j]).is_prefix_of(module@),
        decreases modules.len() - i,
    {
        if starts_with(module, modules[i]) {
            assert(views[i as int].is_prefix_of(module@));
            return true;
        }
        i += 1;
    }
    false
}

/// The prefixes of a borrowed list that may be absent.
pub open spec fn slice_list_view(list: Option<&[&'static str]>) -> Option<Seq<Seq<char>>> {
    match list {
        Some(l) => Some(prefix_views(l@)),
        None => None,
    }
}

} // verus!
