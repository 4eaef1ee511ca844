//! Identifiers that are safe to place in a URL path: ASCII letters, digits
//! and hyphens only.

use crate::error::{ActivityError, ErrorView};
use crate::text::chars_of;
use std::marker::PhantomData;
use vstd::prelude::*;

verus! {

/// A character that may stand in a URL path segment built from caller input.
pub open spec fn is_slug_char(c: char) -> bool {
    ||| 'a' <= c <= 'z'
    ||| 'A' <= c <= 'Z'
    ||| '0' <= c <= '9'
    ||| c == '-'
}

/// Every character of `s` is a slug character. The empty text qualifies.
pub open spec fn is_slug(s: Seq<char>) -> bool {
    forall|i: int| 0 <= i < s.len() ==> is_slug_char(#[trigger] s[i])
}

/// Whether `c` is an ASCII letter, an ASCII digit or a hyphen.
pub fn slug_char(c: char) -> (ok: bool)
    ensures
        ok == is_slug_char(c),
{
    ('a' <= c && c <= 'z') || ('A' <= c && c <= 'Z') || ('0' <= c && c <= '9') || c == '-'
}

/// Whether all of `s` may stand in a URL path segment.
pub fn check_slug(s: &str) -> (ok: bool)
    ensures
        ok == is_slug(s@),
{
    let chars = chars_of(s);
    let mut i: usize = 0;
    while i < chars.len()
        invariant
            i <= chars.len(),
            chars@ == s@,
            forall|j: int| 0 <= j < i ==> is_slug_char(#[trigger] s@[j]),
        decreases chars.len() - i,
    {
        if !slug_char(chars[i]) {
            return false;
        }
        i += 1;
    }
    true
}

/// A caller-supplied identifier that has passed the character check. `T`
/// only tells identifiers of different resources apart.
#[derive(Debug, PartialEq, Eq)]
pub struct SafeUrlPart<T> {
    value: String,
    _phantom_data: PhantomData<T>,
}

impl<T> SafeUrlPart<T> {
    /// Every character of the identifier is a slug character.
    #[verifier::type_invariant]
    spec fn well_formed(&self) -> bool {
        is_slug(self.value@)
    }

    /// The identifier's text.
    pub closed spec fn view(&self) -> Seq<char> {
        self.value@
    }

    /// Accepts `s` exactly when all of its characters are slug characters.
    pub fn new(s: String) -> (part: Result<SafeUrlPart<T>, ActivityError>)
        ensures
            part is Ok <==> is_slug(s@),
            part matches Ok(p) ==> p@ == s@,
            part matches Err(e) ==> e@ == ErrorView::Validation,
    {
        if check_slug(s.as_str()) {
            Ok(SafeUrlPart { value: s, _phantom_data: PhantomData })
        } else {
            Err(ActivityError::Validation)
        }
    }

    /// The identifier as text; it holds slug characters only.
    pub fn as_ref(&self) -> (text: &str)
        ensures
            text@ == self@,
            is_slug(text@),
    {
        proof {
            use_type_invariant(self);
        }
        self.value.as_str()
    }
}

impl<T> Clone for SafeUrlPart<T> {
    /// A second handle on the same identifier.
    fn clone(&self) -> (copy: Self)
        ensures
            copy@ == self@,
    {
        proof {
            use_type_invariant(self);
        }
        SafeUrlPart { value: self.value.clone(), _phantom_data: PhantomData }
    }
}

/// Marks the name of an app.
#[derive(Clone, Debug, PartialEq, Eq)]
pub struct AppMarker;

/// The name of an app.
pub type AppName = SafeUrlPart<AppMarker>;

/// Marks the slug of an organization.
#[derive(Clone, Debug, PartialEq, Eq)]
pub struct OrgMarker;

/// The slug of an organization.
pub type OrgSlug = SafeUrlPart<OrgMarker>;

/// Marks the key of a secret.
#[derive(Clone, Debug, PartialEq, Eq)]
pub struct SecretKeyMarker;

/// The key of a secret.
pub type SecretKey = SafeUrlPart<SecretKeyMarker>;

/// Marks the id of a volume.
#[derive(Clone, Debug, PartialEq, Eq)]
pub struct VolumeIdMarker;

/// The id of a volume.
pub type VolumeId = SafeUrlPart<VolumeIdMarker>;

/// Marks the id of a machine.
#[derive(Clone, Debug, PartialEq, Eq)]
pub struct MachineIdMarker;

/// The id of a machine.
pub type MachineId = SafeUrlPart<MachineIdMarker>;

/// A character that gives a URL its structure, or escapes one that does.
pub open spec fn is_url_delimiter(c: char) -> bool {
    ||| c == '/'
    ||| c == '?'
    ||| c == '#'
    ||| c == '&'
    ||| c == '='
    ||| c == '%'
    ||| c == ':'
    ||| c == '@'
    ||| c == '.'
    ||| c == '\\'
    ||| c == ' '
}

/// An identifier that has passed the check holds no character that could
/// end its path segment, open a query or a fragment, climb to a parent
/// directory or escape any of these: placed in a URL, it stays one segment.
pub proof fn lemma_slug_holds_no_delimiter(s: Seq<char>, i: int)
    requires
        is_slug(s),
        0 <= i < s.len(),
    ensures
        !is_url_delimiter(s[i]),
{
}

} // verus!
