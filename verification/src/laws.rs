//! The library-wide laws of the facade, each proved from the public
//! contracts alone: determinism of resolution, the precedence of the
//! resolution errors, and the last-write-wins reading of duplicate
//! argument names.
use vstd::prelude::*;

verus! {

use crate::args_map_of;
use crate::locale::{resolves_to, Locale, LocaleError};

/// Determinism: two results of resolving the same message, attribute and
/// argument map on one locale agree — equal text on success, the same
/// error on failure.
pub proof fn lemma_get_message_deterministic(
    l: Locale,
    message: Seq<char>,
    attribute: Option<Seq<char>>,
    args: Map<Seq<char>, Seq<char>>,
    r1: Result<String, LocaleError>,
    r2: Result<String, LocaleError>,
)
    requires
        resolves_to(l, message, attribute, args, r1),
        resolves_to(l, message, attribute, args, r2),
    ensures
        r1 matches Ok(s1) ==> (r2 matches Ok(s2) && s1@ == s2@),
        r1 matches Err(e1) ==> (r2 matches Err(e2) && e1 == e2),
{
}

/// Error precedence: an unknown message id resolves to `MessageMissing`,
/// whatever the attribute or the arguments; a known message with an
/// unknown attribute resolves to `AttributeMissing`, whatever the
/// arguments.
pub proof fn lemma_error_precedence(
    l: Locale,
    message: Seq<char>,
    attribute: Option<Seq<char>>,
    args: Map<Seq<char>, Seq<char>>,
    r: Result<String, LocaleError>,
)
    requires
        resolves_to(l, message, attribute, args, r),
    ensures
        !l.has(message) ==> (r matches Err(e) && e is MessageMissing),
        l.has(message) && (attribute matches Some(a) && !l.attrs(message).contains(a)) ==> (
        r matches Err(e) && e is AttributeMissing),
{
}

/// Last write wins on the argument list: a pair is overwritten by a later
/// pair with the same name, so `[(k, a), (k, b)]` denotes the same
/// argument map as `[(k, b)]` alone.
pub proof fn lemma_last_write_wins(k: &str, a: &str, b: &str)
    ensures
        args_map_of(seq![(k, a), (k, b)]) == args_map_of(seq![(k, b)]),
{
    let two = seq![(k, a), (k, b)];
    let one = seq![(k, b)];
    let none = Seq::<(&str, &str)>::empty();
    reveal_with_fuel(args_map_of, 3);
    assert(two.drop_last() =~= seq![(k, a)]);
    assert(seq![(k, a)].drop_last() =~= none);
    assert(one.drop_last() =~= none);
    assert(args_map_of(none) == Map::<Seq<char>, Seq<char>>::empty());
    assert(args_map_of(seq![(k, a)]) == args_map_of(none).insert(k@, a@));
    assert(args_map_of(two) == args_map_of(seq![(k, a)]).insert(k@, b@));
    assert(args_map_of(one) == args_map_of(none).insert(k@, b@));
    assert(args_map_of(two) =~= args_map_of(one));
}

/// Resolving with a duplicate argument name yields what resolving with the
/// last pair alone yields: the results of `[(k, a), (k, b)]` and of
/// `[(k, b)]` agree on one locale, message and attribute.
pub proof fn lemma_duplicate_arg_resolves_alike(
    l: Locale,
    message: Seq<char>,
    attribute: Option<Seq<char>>,
    k: &str,
    a: &str,
    b: &str,
    r1: Result<String, LocaleError>,
    r2: Result<String, LocaleError>,
)
    requires
        resolves_to(l, message, attribute, args_map_of(seq![(k, a), (k, b)]), r1),
        resolves_to(l, message, attribute, args_map_of(seq![(k, b)]), r2),
    ensures
        r1 matches Ok(s1) ==> (r2 matches Ok(s2) && s1@ == s2@),
        r1 matches Err(e1) ==> (r2 matches Err(e2) && e1 == e2),
{
    lemma_last_write_wins(k, a, b);
    lemma_get_message_deterministic(
        l,
        message,
        attribute,
        args_map_of(seq![(k, b)]),
        r1,
        r2,
    );
}

} // verus!
