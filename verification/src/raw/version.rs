//! The protocol version value: a textual `id`, optionally followed by a
//! dot and a `variant`, negotiated between client and server.

use super::string::{parse_str, wire_str, wire_str_ok, StringError};
use super::{Dehydrate, Hydrate};
use vstd::prelude::*;
use vstd::string::{StrSliceExecFns, StringExecFns};

verus! {

/// Error decoding or negotiating a version.
#[derive(Debug, Clone, Copy, PartialEq, Eq, Structural)]
pub enum VersionError {
    /// The protocol ids differ.
    MismatchedId,
    /// The ids agree but the variants cannot be reconciled.
    MismatchedVariant,
    /// The version text failed to decode.
    StringError(StringError),
}

impl vstd::std_specs::convert::FromSpecImpl<StringError> for VersionError {
    open spec fn obeys_from_spec() -> bool {
        true
    }

    open spec fn from_spec(se: StringError) -> VersionError {
        VersionError::StringError(se)
    }
}

impl From<StringError> for VersionError {
    fn from(se: StringError) -> (r: Self) {
        Self::StringError(se)
    }
}

/// The abstract form of a version: its id and optional variant, as
/// character sequences.
pub ghost struct VersionView {
    /// Protocol id, such as the characters of `9P2000`. Never contains a
    /// dot: parsing splits at the first one.
    pub id: Seq<char>,
    /// Variant, such as the characters of `u` or `L`.
    pub variant: Option<Seq<char>>,
}

/// The index of the first dot in `s`, or `s.len()` when there is none.
pub open spec fn first_dot(s: Seq<char>) -> int
    decreases s.len(),
{
    if s.len() == 0 {
        0
    } else if s[0] == '.' {
        0
    } else {
        1 + first_dot(s.drop_first())
    }
}

/// The version named by a text: split at the first dot, or the whole
/// text as id when there is none.
pub open spec fn version_of_text(s: Seq<char>) -> VersionView {
    let i = first_dot(s);
    if i < s.len() {
        VersionView { id: s.take(i), variant: Some(s.skip(i + 1)) }
    } else {
        VersionView { id: s, variant: None }
    }
}

/// The text of a version: `id` or `id.variant`.
pub open spec fn text_of_version(v: VersionView) -> Seq<char> {
    match v.variant {
        Some(var) => v.id + seq!['.'] + var,
        None => v.id,
    }
}

/// A well-formed version has no dot in its id; every version this
/// library builds is well-formed.
pub open spec fn version_wf(v: VersionView) -> bool {
    forall|j: int| 0 <= j < v.id.len() ==> v.id[j] != '.'
}

proof fn lemma_first_dot_no_dot(s: Seq<char>)
    requires
        forall|j: int| 0 <= j < s.len() ==> s[j] != '.',
    ensures
        first_dot(s) == s.len(),
    decreases s.len(),
{
    if s.len() != 0 {
        lemma_first_dot_no_dot(s.drop_first());
    }
}

proof fn lemma_first_dot_at(s: Seq<char>, i: int)
    requires
        0 <= i < s.len(),
        s[i] == '.',
        forall|j: int| 0 <= j < i ==> s[j] != '.',
    ensures
        first_dot(s) == i,
    decreases i,
{
    if i != 0 {
        lemma_first_dot_at(s.drop_first(), i - 1);
    }
}

/// Printing a well-formed version and parsing the text again yields the
/// same version.
pub proof fn lemma_version_text_round_trip(v: VersionView)
    requires
        version_wf(v),
    ensures
        version_of_text(text_of_version(v)) == v,
{
    let t = text_of_version(v);
    match v.variant {
        Some(var) => {
            assert(t[v.id.len() as int] == '.');
            assert(forall|j: int| 0 <= j < v.id.len() ==> t[j] == v.id[j] && t[j] != '.');
            lemma_first_dot_at(t, v.id.len() as int);
            assert(t.take(v.id.len() as int) =~= v.id);
            assert(t.skip(v.id.len() + 1int) =~= var);
        },
        None => {
            lemma_first_dot_no_dot(t);
        },
    }
}

/// Version is the protocol level, which needs to be negotiated between
/// client and server.
#[derive(Debug, PartialEq, Clone)]
pub struct Version {
    /// Protocol version (9P2000).
    id: String,
    /// Variant (L, u, etc).
    variant: Option<String>,
}

impl DeepView for Version {
    type V = VersionView;

    closed spec fn deep_view(&self) -> VersionView {
        VersionView {
            id: self.id@,
            variant: match self.variant {
                Some(v) => Some(v@),
                None => None,
            },
        }
    }
}

impl Version {
    /// Parse a version from its text: everything before the first dot is
    /// the id, everything after it the variant. Never fails.
    pub fn from_str(v: &str) -> (r: Result<Version, VersionError>)
        ensures
            r matches Ok(ver) && ver.deep_view() == version_of_text(v@),
            r matches Ok(ver) && version_wf(ver.deep_view()),
    {
        let n = v.unicode_len();
        let mut i: usize = 0;
        while i < n && v.get_char(i) != '.'
            invariant
                0 <= i <= n == v@.len(),
                forall|j: int| 0 <= j < i ==> v@[j] != '.',
            decreases n - i,
        {
            i = i + 1;
        }
        if i == n {
            proof {
                lemma_first_dot_no_dot(v@);
            }
            Ok(Version { id: v.to_owned(), variant: None })
        } else {
            proof {
                lemma_first_dot_at(v@, i as int);
            }
            let id_part = v.substring_char(0, i);
            let var_part = v.substring_char(i + 1, n);
            assert(id_part@ =~= v@.take(i as int));
            assert(var_part@ =~= v@.skip(i + 1));
            Ok(Version { id: id_part.to_owned(), variant: Some(var_part.to_owned()) })
        }
    }

    /// The protocol id, the part before any dot.
    pub fn id(&self) -> (r: &str)
        ensures
            r@ == self.deep_view().id,
    {
        self.id.as_str()
    }

    /// The variant, the part after the first dot, if any.
    pub fn variant(&self) -> (r: Option<&str>)
        ensures
            match r {
                Some(v) => self.deep_view().variant == Some(v@),
                None => self.deep_view().variant is None,
            },
    {
        match &self.variant {
            Some(s) => Some(s.as_str()),
            None => None,
        }
    }

    /// The version's text form, `id` or `id.variant`.
    pub fn text(&self) -> (r: String)
        ensures
            r@ == text_of_version(self.deep_view()),
    {
        proof {
            reveal_strlit(".");
        }
        match &self.variant {
            Some(var) => {
                let mut s = self.id.clone();
                s.append(".");
                s.append(var.as_str());
                assert(s@ =~= text_of_version(self.deep_view()));
                s
            },
            None => self.id.clone(),
        }
    }

    /// A copy whose abstract form is the same.
    pub fn duplicate(&self) -> (r: Version)
        ensures
            r.deep_view() == self.deep_view(),
    {
        Version {
            id: self.id.clone(),
            variant: match &self.variant {
                Some(s) => Some(s.clone()),
                None => None,
            },
        }
    }

    /// Try to negotiate with the peer on a protocol. The ids must match
    /// exactly; the offer's variant is the ceiling, so the peer's variant
    /// must equal it unless the offer has none.
    pub fn try_negotiate(&self, other: &Version) -> (r: Result<Version, VersionError>)
        ensures
            self.deep_view().id != other.deep_view().id ==> r matches Err(
                VersionError::MismatchedId,
            ),
            self.deep_view().id == other.deep_view().id && (self.deep_view().variant
                == other.deep_view().variant || self.deep_view().variant is None) ==> (r matches Ok(
                v,
            ) && v.deep_view() == self.deep_view()),
            self.deep_view().id == other.deep_view().id && self.deep_view().variant
                != other.deep_view().variant && self.deep_view().variant is Some ==> r matches Err(
                VersionError::MismatchedVariant,
            ),
    {
        if self.id != other.id {
            return Err(VersionError::MismatchedId);
        }
        let variants_equal: bool = match (&self.variant, &other.variant) {
            (None, None) => true,
            (Some(a), Some(b)) => a.eq(b),
            _ => false,
        };
        assert(variants_equal == (self.deep_view().variant == other.deep_view().variant));
        if variants_equal || self.variant.is_none() {
            return Ok(self.duplicate());
        }
        Err(VersionError::MismatchedVariant)
    }
}

impl std::str::FromStr for Version {
    type Err = VersionError;

    fn from_str(v: &str) -> Result<Version, VersionError> {
        Version::from_str(v)
    }
}

/// Encoding of a version: its text as a length-prefixed string.
pub open spec fn wire_version(m: VersionView) -> Seq<u8> {
    wire_str(text_of_version(m))
}

/// A version fits the wire format when its text does.
pub open spec fn wire_version_ok(m: VersionView) -> bool {
    wire_str_ok(text_of_version(m))
}

/// Decoding of a version from the head of `s`.
pub open spec fn parse_version(s: Seq<u8>) -> Option<(VersionView, int)> {
    match parse_str(s) {
        Some((chars, n)) => Some((version_of_text(chars), n)),
        None => None,
    }
}

/// Parsing an encoded well-formed version yields the encoded version,
/// whatever follows it.
pub proof fn lemma_version_round_trip(m: VersionView, rest: Seq<u8>)
    requires
        version_wf(m),
        wire_version_ok(m),
    ensures
        parse_version(wire_version(m) + rest) == Some((m, wire_version(m).len() as int)),
{
    super::string::lemma_str_round_trip(text_of_version(m), rest);
    lemma_version_text_round_trip(m);
}

impl Hydrate for Version {
    type Error = VersionError;

    open spec fn parse(s: Seq<u8>) -> Option<(VersionView, int)> {
        parse_version(s)
    }

    fn hydrate(b: &[u8], pos: &mut usize) -> (r: Result<Version, VersionError>) {
        let text = match String::hydrate(b, pos) {
            Ok(text) => text,
            Err(e) => {
                return Err(VersionError::StringError(e));
            },
        };
        match Version::from_str(text.as_str()) {
            Ok(v) => Ok(v),
            Err(e) => Err(e),
        }
    }
}

impl Dehydrate for Version {
    type Error = VersionError;

    open spec fn wire(m: VersionView) -> Seq<u8> {
        wire_version(m)
    }

    open spec fn wire_ok(m: VersionView) -> bool {
        wire_version_ok(m)
    }

    fn dehydrate(&self, b: &mut Vec<u8>) -> (r: Result<(), VersionError>) {
        let text = self.text();
        match text.dehydrate(b) {
            Ok(_) => Ok(()),
            Err(e) => Err(VersionError::StringError(e)),
        }
    }
}

} // verus!
