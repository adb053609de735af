//! Input errors.
//!
//! Every way in which raw input (command-line values or manifest entries) can
//! be malformed is a variant here. All of these are fatal before any probing
//! starts; the contracts of `cli::get_args` and the loader functions say
//! exactly which inputs produce which variant.

use vstd::prelude::*;

verus! {

/// A malformed target specification or an unusable argument set.
#[derive(Debug, Clone, PartialEq)]
pub enum InputError {
    /// A `--tcp` entry without a colon, so no port can be split off.
    MissingPort { entry: String },
    /// A `--tcp` entry whose text after the last colon is not a port number.
    BadPort { entry: String },
    /// A `--tcp` entry whose host part (before the last colon) is empty.
    EmptyHost { entry: String },
    /// A socket path that is empty.
    EmptyPath,
    /// No downstream command was supplied.
    EmptyCommand,
    /// None of the target sources (TCP entries, socket paths, manifest
    /// files) was supplied.
    NoTargets,
    /// A manifest entry with the fields of neither target shape.
    MalformedEntry,
    /// A socket target on a platform without local-socket support.
    UdsUnsupported { path: String },
}

} // verus!
