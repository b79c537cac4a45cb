//! A small localization facade over the Fluent message format: one
//! translation resource is parsed and bound into an evaluation bundle
//! once, and messages — optionally with a named attribute and with
//! string arguments — are then resolved to their formatted text.
//!
//! The contracts of [`Locale::new`] and [`Locale::get_message`] pin down
//! which messages a locale holds, when each error is returned, and that
//! the formatter's output is handed back verbatim; the laws in [`laws`]
//! state determinism, error precedence and the last-write-wins reading
//! of duplicate argument names.
use vstd::prelude::*;

pub mod fluent_api;
pub mod laws;
pub mod locale;

pub use locale::{Locale, LocaleError};

verus! {

/// The argument map that a sequence of `(name, value)` pairs denotes:
/// later pairs overwrite earlier ones with the same name.
pub open spec fn args_map_of(args: Seq<(&str, &str)>) -> Map<Seq<char>, Seq<char>>
    decreases args.len(),
{
    if args.len() == 0 {
        Map::empty()
    } else {
        args_map_of(args.drop_last()).insert(args.last().0@, args.last().1@)
    }
}

} // verus!
