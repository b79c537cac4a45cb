//! The localization facade: a bundle built once from a source document,
//! and a resolver that turns a message id, an optional attribute id and a
//! list of string arguments into the formatted text or an error.
use vstd::prelude::*;

verus! {

use fluent_bundle::{FluentBundle, FluentResource};
use crate::args_map_of;
use crate::fluent_api::{
    attribute_pattern, bundle_msgs, bundle_output, default_bundle, distinct_ids, format_selected,
    install_resource, lookup_message, message_attribute, message_value, new_args, parse_ok,
    parse_resource, set_arg, source_msgs, args_model,
};

/// The errors the facade surfaces: two from construction, three from
/// resolution. Each carries a fixed human-readable text, see
/// [`LocaleError::text`].
#[derive(Clone, Copy, Debug, PartialEq, Eq, Structural)]
pub enum LocaleError {
    /// The source document could not be parsed.
    ResourceCorrupted,
    /// The parsed resource could not be installed into the bundle.
    BundleRejected,
    /// The requested message id is not present in the bundle.
    MessageMissing,
    /// The requested attribute id is not present on the found message.
    AttributeMissing,
    /// No attribute was requested and the message has no default value.
    MessageValueMissing,
}

impl LocaleError {
    /// The fixed human-readable text of this error.
    pub open spec fn text_spec(&self) -> Seq<char> {
        match self {
            LocaleError::ResourceCorrupted => "Error! Fluent resource file is corrupted."@,
            LocaleError::BundleRejected => "Error! Bundle can not accept this resource."@,
            LocaleError::MessageMissing => "Error! Message doesn't exist!"@,
            LocaleError::AttributeMissing => "Error! Attribute dosn't exist!"@,
            LocaleError::MessageValueMissing => "Error! Message value dosn't exist!"@,
        }
    }

    /// The fixed human-readable text of this error.
    pub fn text(&self) -> (r: String)
        ensures
            r@ == self.text_spec(),
    {
        match self {
            LocaleError::ResourceCorrupted => String::from_str(
                "Error! Fluent resource file is corrupted.",
            ),
            LocaleError::BundleRejected => String::from_str(
                "Error! Bundle can not accept this resource.",
            ),
            LocaleError::MessageMissing => String::from_str("Error! Message doesn't exist!"),
            LocaleError::AttributeMissing => String::from_str("Error! Attribute dosn't exist!"),
            LocaleError::MessageValueMissing => String::from_str(
                "Error! Message value dosn't exist!",
            ),
        }
    }
}

/// One loaded translation resource, bound into an evaluation bundle.
/// Built once by [`Locale::new`]; immutable afterwards; resolution through
/// [`Locale::get_message`] reads it only.
pub struct Locale {
    bundle: FluentBundle<FluentResource>,
}

/// The view of an optional attribute id.
pub open spec fn opt_view(attribute: Option<&str>) -> Option<Seq<char>> {
    match attribute {
        Some(a) => Some(a@),
        None => None,
    }
}

impl Locale {
    /// The messages this locale holds: each message id is mapped to
    /// whether the message has a default value, and to its attribute ids.
    pub closed spec fn msgs(&self) -> Map<Seq<char>, (bool, Set<Seq<char>>)> {
        bundle_msgs(self.bundle)
    }

    /// Whether this locale holds a message under the id.
    pub open spec fn has(&self, id: Seq<char>) -> bool {
        self.msgs().contains_key(id)
    }

    /// Whether the message under the id has a default value.
    pub open spec fn has_value(&self, id: Seq<char>) -> bool {
        self.msgs()[id].0
    }

    /// The attribute ids of the message under the id.
    pub open spec fn attrs(&self, id: Seq<char>) -> Set<Seq<char>> {
        self.msgs()[id].1
    }

    /// Whether this locale holds no messages at all.
    pub open spec fn is_empty(&self) -> bool {
        self.msgs() =~= Map::empty()
    }

    /// The text the formatter produces for the pattern that the message id
    /// and the optional attribute id select, under an argument map.
    pub closed spec fn output(
        &self,
        id: Seq<char>,
        attr: Option<Seq<char>>,
        args: Map<Seq<char>, Seq<char>>,
    ) -> Seq<char> {
        bundle_output(self.bundle, id, attr, args)
    }
}

/// What `get_message` returns: the formatted text of the selected pattern,
/// or the first error of the resolution order — missing message before
/// missing attribute or missing value, and either of those before any
/// argument handling.
pub open spec fn resolves_to(
    l: Locale,
    message: Seq<char>,
    attribute: Option<Seq<char>>,
    args: Map<Seq<char>, Seq<char>>,
    r: Result<String, LocaleError>,
) -> bool {
    match r {
        Ok(s) => {
            &&& l.has(message)
            &&& match attribute {
                Some(a) => l.attrs(message).contains(a),
                None => l.has_value(message),
            }
            &&& s@ == l.output(message, attribute, args)
        },
        Err(e) => match e {
            LocaleError::MessageMissing => !l.has(message),
            LocaleError::AttributeMissing => {
                &&& l.has(message)
                &&& attribute matches Some(a) && !l.attrs(message).contains(a)
            },
            LocaleError::MessageValueMissing => l.has(message) && attribute is None
                && !l.has_value(message),
            _ => false,
        },
    }
}

impl Default for Locale {
    /// A locale around a fresh bundle, which holds no messages.
    fn default() -> (r: Self)
        ensures
            r.is_empty(),
    {
        Locale { bundle: default_bundle() }
    }
}

impl Locale {
    /// Parses the source document and binds it into a fresh bundle.
    ///
    /// Fails with `ResourceCorrupted` exactly when the document does not
    /// parse, and with `BundleRejected` exactly when it parses but its
    /// entries do not carry pairwise distinct ids; otherwise the locale
    /// holds exactly the messages the document defines.
    pub fn new(source: String) -> (r: Result<Locale, LocaleError>)
        ensures
            r is Ok <==> parse_ok(source@) && distinct_ids(source@),
            r matches Ok(l) ==> l.msgs() == source_msgs(source@),
            r matches Err(e) ==> (e is ResourceCorrupted <==> !parse_ok(source@)),
            r matches Err(e) ==> (e is BundleRejected <==> parse_ok(source@) && !distinct_ids(
                source@,
            )),
    {
        let resource = match parse_resource(source) {
            Ok(p) => p,
            Err(_) => {
                return Err(LocaleError::ResourceCorrupted);
            },
        };
        let mut bundle = default_bundle();
        match install_resource(&mut bundle, resource) {
            Ok(_) => Ok(Locale { bundle }),
            Err(_) => Err(LocaleError::BundleRejected),
        }
    }

    /// Resolves a message to its formatted text.
    ///
    /// Looks the message up by id, selects its default pattern or — when
    /// an attribute id is given — the named attribute's pattern, and hands
    /// the pattern to the formatter together with the arguments; later
    /// arguments overwrite earlier ones with the same name. The formatter's
    /// output is returned verbatim, isolation marks included; its
    /// diagnostics are discarded.
    pub fn get_message(
        &self,
        message: &str,
        attribute: Option<&str>,
        args: &[(&str, &str)],
    ) -> (r: Result<String, LocaleError>)
        ensures
            resolves_to(*self, message@, opt_view(attribute), args_map_of(args@), r),
    {
        let msg = match lookup_message(&self.bundle, message) {
            Some(m) => m,
            None => {
                return Err(LocaleError::MessageMissing);
            },
        };
        let pattern = match attribute {
            Some(attr) => match message_attribute(&msg, attr) {
                Some(a) => attribute_pattern(a),
                None => {
                    return Err(LocaleError::AttributeMissing);
                },
            },
            None => match message_value(&msg) {
                Some(p) => p,
                None => {
                    return Err(LocaleError::MessageValueMissing);
                },
            },
        };
        let mut fargs = new_args();
        let mut i: usize = 0;
        while i < args.len()
            invariant
                i <= args.len(),
                args_model(fargs) == args_map_of(args@.take(i as int)),
                pattern.src() == self.bundle,
                pattern.id() == message@,
                pattern.attr() == opt_view(attribute),
            decreases args.len() - i,
        {
            let (name, value) = args[i];
            set_arg(&mut fargs, name, value);
            proof {
                assert(args@.take(i + 1).drop_last() =~= args@.take(i as int));
                assert(args@.take(i + 1).last() == args@[i as int]);
            }
            i += 1;
        }
        proof {
            assert(args@.take(args.len() as int) =~= args@);
        }
        Ok(format_selected(&pattern, &fargs))
    }
}

} // verus!
