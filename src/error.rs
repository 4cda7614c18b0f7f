use vstd::prelude::*;

verus! {

/// Why a toolchain snapshot could not be resolved.
#[derive(Clone, Debug, PartialEq, Eq)]
pub enum ResolveError {
    /// A version source could not be reached; carries the transport's message.
    Transport(String),
    /// A version source answered with a body that could not be decoded; carries
    /// the decoder's message or the text that failed to parse.
    Decode(String),
    /// The game-version feed lists no stable version.
    NoStableVersion,
    /// The loader feed lists no release (hyphen-free) version.
    NoLoaderFound,
    /// The mappings feed for the given game version is empty.
    NoMappingsFound(String),
    /// The package index lists no version of the build-tool plugin.
    NoLoomVersion,
    /// A resolved version string is empty.
    EmptyVersion,
}

} // verus!
