//! Validated tag addresses.
//!
//! A controller tag is addressed symbolically, by a name such as
//! `struct_a[1].member`. The tag-access client owns the grammar of those
//! names; this module runs its parser once, at startup, and hands the rest
//! of the program an immutable [`TagPath`] that holds a name the parser is
//! known to accept, reusable across every read and write of a session.

use vstd::prelude::*;
use rseip::cip::epath::EPath;
use rseip::client::ab_eip::PathParser;

verus! {

/// Whether the tag-access client's parser accepts a tag name. The parser
/// is a pure function of the name's bytes, so acceptance is a fixed
/// predicate on the name; its exact grammar (symbols, element indices,
/// an optional program prefix) belongs to the client.
pub uninterp spec fn tag_path_accepted(name: Seq<char>) -> bool;

/// A supplied tag name failed to parse into a valid tag path.
#[derive(Clone, Copy, PartialEq, Eq, Structural, Debug)]
pub struct TagPathError;

impl TagPathError {
    /// A short description of the failure, for the program's error report.
    pub fn message(&self) -> (m: &'static str)
        ensures
            m@ == "not a well-formed tag path"@,
    {
        "not a well-formed tag path"
    }
}

/// Relies on rseip's `EPath::parse_tag` (its `PathParser` impl): a pure
/// parser over the name's bytes that succeeds exactly on well-formed tag
/// paths, rejects an empty name, and requires the first character to be
/// an ASCII letter or an underscore.
#[verifier::external_body]
fn parser_accepts(name: &str) -> (r: bool)
    ensures
        r == tag_path_accepted(name@),
        name@.len() == 0 ==> !r,
        r ==> name@[0] == '_' || ('a' <= name@[0] && name@[0] <= 'z') || ('A' <= name@[0]
            && name@[0] <= 'Z'),
{
    EPath::parse_tag(name).is_ok()
}

/// An opaque, validated symbolic address into controller memory. A value
/// exists only for names the tag-access client's parser accepts; it is
/// immutable and reusable across calls.
#[derive(Debug)]
pub struct TagPath {
    name: String,
}

impl TagPath {
    /// The validated name.
    pub closed spec fn spec_name(self) -> Seq<char> {
        self.name@
    }

    /// Every tag path holds a name the client's parser accepts.
    pub closed spec fn wf(self) -> bool {
        tag_path_accepted(self.name@)
    }

    /// Parses a user-supplied tag name. Returns a validated path exactly
    /// when the tag-access client's grammar accepts the name; an empty
    /// name is always rejected.
    pub fn parse(name: String) -> (r: Result<TagPath, TagPathError>)
        ensures
            r is Ok <==> tag_path_accepted(name@),
            r matches Ok(p) ==> p.wf() && p.spec_name() == name@,
            name@.len() == 0 ==> r is Err,
    {
        if parser_accepts(name.as_str()) {
            Ok(TagPath { name })
        } else {
            Err(TagPathError)
        }
    }

    /// The validated name, for the protocol call that addresses the tag.
    pub fn name(&self) -> (r: &str)
        ensures
            r@ == self.spec_name(),
    {
        self.name.as_str()
    }
}

} // verus!
