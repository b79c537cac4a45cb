//! The trusted boundary around the message-format library.
//!
//! Everything the facade knows of a bundle is stated here, over a few
//! uninterpreted names: which messages a source document defines, which of
//! them a bundle holds, and what text the formatter produces for a selected
//! pattern under an argument map. Each wrapper makes exactly one call into
//! the outside library and states of it what that library's source shows.
//!
//! The reference types of this module (`ParsedResource`, `MsgRef`,
//! `AttrRef`, `PatternRef`) tag an outside value with where it came from:
//! the source text a resource was parsed from, or the bundle, message id
//! and attribute id under which a message or pattern was found. Their
//! fields are private, so every value of them was built by a wrapper below
//! and the tag is faithful.
use vstd::prelude::*;

verus! {

use fluent_bundle::{FluentArgs, FluentAttribute, FluentBundle, FluentMessage, FluentResource};

#[verifier::external_type_specification]
#[verifier::external_body]
#[verifier::reject_recursive_types(R)]
#[verifier::reject_recursive_types(M)]
pub struct ExFluentBundle<R, M>(fluent_bundle::bundle::FluentBundle<R, M>);

#[verifier::external_type_specification]
#[verifier::external_body]
pub struct ExFluentResource(FluentResource);

#[verifier::external_type_specification]
#[verifier::external_body]
pub struct ExIntlLangMemoizer(intl_memoizer::IntlLangMemoizer);

#[verifier::external_type_specification]
#[verifier::external_body]
pub struct ExFluentMessage<'m>(FluentMessage<'m>);

#[verifier::external_type_specification]
#[verifier::external_body]
pub struct ExFluentAttribute<'m>(FluentAttribute<'m>);

#[verifier::external_type_specification]
#[verifier::external_body]
pub struct ExFluentArgs<'args>(FluentArgs<'args>);

#[verifier::external_type_specification]
#[verifier::external_body]
#[verifier::reject_recursive_types(S)]
pub struct ExPattern<S>(fluent_syntax::ast::Pattern<S>);

/// Whether `FluentResource::try_new` parses the document without errors.
pub uninterp spec fn parse_ok(source: Seq<char>) -> bool;

/// The messages a source document defines: each message id is mapped to
/// whether the message has a default value, and to its set of attribute ids.
pub uninterp spec fn source_msgs(source: Seq<char>) -> Map<Seq<char>, (bool, Set<Seq<char>>)>;

/// Whether the entries of the parsed document carry pairwise distinct ids,
/// which is what `FluentBundle::add_resource` demands of a resource added
/// to a fresh bundle.
pub uninterp spec fn distinct_ids(source: Seq<char>) -> bool;

/// The messages a bundle holds, in the same shape as `source_msgs`.
pub uninterp spec fn bundle_msgs(b: FluentBundle<FluentResource>) -> Map<
    Seq<char>,
    (bool, Set<Seq<char>>),
>;

/// The text `FluentBundle::format_pattern` produces for the pattern that
/// `id` (and, when present, the attribute id) selects in the bundle, under
/// the given argument map. For a fixed bundle the formatter is a function
/// of the pattern and the arguments alone.
pub uninterp spec fn bundle_output(
    b: FluentBundle<FluentResource>,
    id: Seq<char>,
    attr: Option<Seq<char>>,
    args: Map<Seq<char>, Seq<char>>,
) -> Seq<char>;

/// The arguments an argument container holds, as a name-to-value map.
pub uninterp spec fn args_model(a: FluentArgs<'static>) -> Map<Seq<char>, Seq<char>>;

/// Whether the bundle holds no entries at all — no messages, but also no
/// terms and no functions, any of which `FluentBundle::add_resource` can
/// collide with.
pub uninterp spec fn no_entries(b: FluentBundle<FluentResource>) -> bool;

/// Whether the bundle holds a message under this id.
pub open spec fn has_msg(b: FluentBundle<FluentResource>, id: Seq<char>) -> bool {
    bundle_msgs(b).contains_key(id)
}

/// Whether the message under this id has a default value.
pub open spec fn msg_has_value(b: FluentBundle<FluentResource>, id: Seq<char>) -> bool {
    bundle_msgs(b)[id].0
}

/// The attribute ids of the message under this id.
pub open spec fn msg_attrs(b: FluentBundle<FluentResource>, id: Seq<char>) -> Set<Seq<char>> {
    bundle_msgs(b)[id].1
}

/// A parsed resource, tagged with the text it was parsed from.
pub(crate) struct ParsedResource {
    res: FluentResource,
    src: String,
}

impl ParsedResource {
    /// The source text this resource was parsed from.
    pub closed spec fn src(&self) -> Seq<char> {
        self.src@
    }
}

/// A message found in a bundle, tagged with that bundle and with the id it
/// was looked up under.
pub(crate) struct MsgRef<'m> {
    msg: FluentMessage<'m>,
    bundle: &'m FluentBundle<FluentResource>,
    id: String,
}

impl<'m> MsgRef<'m> {
    /// The bundle the message was found in.
    pub closed spec fn src(&self) -> FluentBundle<FluentResource> {
        *self.bundle
    }

    /// The id the message was found under.
    pub closed spec fn id(&self) -> Seq<char> {
        self.id@
    }
}

/// An attribute found on a message, tagged with the bundle, the message id
/// and the attribute id it was found under.
pub(crate) struct AttrRef<'m> {
    attr: FluentAttribute<'m>,
    bundle: &'m FluentBundle<FluentResource>,
    id: String,
    name: String,
}

impl<'m> AttrRef<'m> {
    /// The bundle the attribute's message was found in.
    pub closed spec fn src(&self) -> FluentBundle<FluentResource> {
        *self.bundle
    }

    /// The id of the message the attribute belongs to.
    pub closed spec fn id(&self) -> Seq<char> {
        self.id@
    }

    /// The attribute's own id.
    pub closed spec fn name(&self) -> Seq<char> {
        self.name@
    }
}

/// A pattern selected from a bundle, tagged with the bundle, the message id
/// and, for an attribute's pattern, the attribute id that selected it.
pub(crate) struct PatternRef<'m> {
    pat: &'m fluent_syntax::ast::Pattern<&'m str>,
    bundle: &'m FluentBundle<FluentResource>,
    id: String,
    attr: Option<String>,
}

impl<'m> PatternRef<'m> {
    /// The bundle the pattern was selected from.
    pub closed spec fn src(&self) -> FluentBundle<FluentResource> {
        *self.bundle
    }

    /// The message id that selected the pattern.
    pub closed spec fn id(&self) -> Seq<char> {
        self.id@
    }

    /// The attribute id that selected the pattern, if the pattern is an
    /// attribute's value rather than the message's default value.
    pub closed spec fn attr(&self) -> Option<Seq<char>> {
        match self.attr {
            Some(ref a) => Some(a@),
            None => None,
        }
    }
}

/// Relies on `FluentResource::try_new`: it parses the document and succeeds
/// exactly when the parser reports no error; the parse reads the source
/// text alone.
#[verifier::external_body]
pub(crate) fn parse_resource(source: String) -> (r: Result<ParsedResource, ()>)
    ensures
        r is Ok <==> parse_ok(source@),
        r matches Ok(p) ==> p.src() == source@,
{
    let src = source.clone();
    match FluentResource::try_new(source) {
        Ok(res) => Ok(ParsedResource { res, src }),
        Err(_) => Err(()),
    }
}

/// Relies on `FluentBundle::default`: a fresh bundle holds no entries,
/// and so no messages.
#[verifier::external_body]
pub(crate) fn default_bundle() -> (r: FluentBundle<FluentResource>)
    ensures
        no_entries(r),
        bundle_msgs(r) =~= Map::empty(),
{
    FluentBundle::default()
}

/// Relies on `FluentBundle::add_resource`: on a bundle without entries it
/// succeeds exactly when the resource's entries carry pairwise distinct
/// ids, and the bundle then holds exactly the messages the source document
/// defines.
#[verifier::external_body]
pub(crate) fn install_resource(b: &mut FluentBundle<FluentResource>, res: ParsedResource) -> (r: Result<
    (),
    (),
>)
    ensures
        no_entries(*old(b)) ==> (r is Ok <==> distinct_ids(res.src())),
        (no_entries(*old(b)) && r is Ok) ==> bundle_msgs(*final(b)) == source_msgs(res.src()),
{
    match b.add_resource(res.res) {
        Ok(()) => Ok(()),
        Err(_) => Err(()),
    }
}

/// Relies on `FluentBundle::get_message`: it returns a message exactly when
/// the bundle holds one under this id.
#[verifier::external_body]
pub(crate) fn lookup_message<'b>(b: &'b FluentBundle<FluentResource>, id: &str) -> (r: Option<MsgRef<'b>>)
    ensures
        r is Some <==> has_msg(*b, id@),
        r matches Some(m) ==> m.src() == *b && m.id() == id@,
{
    match b.get_message(id) {
        Some(msg) => Some(MsgRef { msg, bundle: b, id: id.to_string() }),
        None => None,
    }
}

/// Relies on `FluentMessage::get_attribute`: it returns an attribute
/// exactly when the message has one under this id.
#[verifier::external_body]
pub(crate) fn message_attribute<'m>(m: &MsgRef<'m>, attr: &str) -> (r: Option<AttrRef<'m>>)
    ensures
        r is Some <==> msg_attrs(m.src(), m.id()).contains(attr@),
        r matches Some(a) ==> a.src() == m.src() && a.id() == m.id() && a.name() == attr@,
{
    match m.msg.get_attribute(attr) {
        Some(a) => Some(
            AttrRef { attr: a, bundle: m.bundle, id: m.id.clone(), name: attr.to_string() },
        ),
        None => None,
    }
}

/// Relies on `FluentAttribute::value`: every attribute carries a pattern.
#[verifier::external_body]
pub(crate) fn attribute_pattern<'m>(a: AttrRef<'m>) -> (r: PatternRef<'m>)
    ensures
        r.src() == a.src() && r.id() == a.id() && r.attr() == Some(a.name()),
{
    PatternRef { pat: a.attr.value(), bundle: a.bundle, id: a.id, attr: Some(a.name) }
}

/// Relies on `FluentMessage::value`: it returns the message's default
/// pattern exactly when the message has a default value.
#[verifier::external_body]
pub(crate) fn message_value<'m>(m: &MsgRef<'m>) -> (r: Option<PatternRef<'m>>)
    ensures
        r is Some <==> msg_has_value(m.src(), m.id()),
        r matches Some(p) ==> p.src() == m.src() && p.id() == m.id() && p.attr() is None,
{
    match m.msg.value() {
        Some(pat) => Some(PatternRef { pat, bundle: m.bundle, id: m.id.clone(), attr: None }),
        None => None,
    }
}

/// Relies on `FluentArgs::new`: a fresh argument container is empty.
#[verifier::external_body]
pub(crate) fn new_args() -> (r: FluentArgs<'static>)
    ensures
        args_model(r) =~= Map::empty(),
{
    FluentArgs::new()
}

/// Relies on `FluentArgs::set`: it stores the value under the name,
/// replacing any value stored under the same name before.
#[verifier::external_body]
pub(crate) fn set_arg(a: &mut FluentArgs<'static>, name: &str, value: &str)
    ensures
        args_model(*final(a)) == args_model(*old(a)).insert(name@, value@),
{
    a.set(name.to_string(), value.to_string());
}

/// Relies on `FluentBundle::format_pattern`: for a fixed bundle the output
/// is a function of the selected pattern and the arguments alone; the
/// formatter's diagnostics are collected locally and discarded, and its
/// output is handed back verbatim.
#[verifier::external_body]
pub(crate) fn format_selected(p: &PatternRef<'_>, args: &FluentArgs<'static>) -> (r: String)
    ensures
        r@ == bundle_output(p.src(), p.id(), p.attr(), args_model(*args)),
{
    let mut errors: Vec<fluent_bundle::FluentError> = Vec::new();
    p.bundle.format_pattern(p.pat, Some(args), &mut errors).to_string()
}

} // verus!
