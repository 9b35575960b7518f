//! Image references: `name[:tag]`, with the tag defaulting to `latest`.

use vstd::prelude::*;

use crate::errors::PullError;

verus! {

/// A parsed image reference.
pub struct ImageReference {
    pub name: String,
    pub tag: String,
}

/// The view of an image reference: its name and tag as character sequences.
pub struct ReferenceView {
    pub name: Seq<char>,
    pub tag: Seq<char>,
}

impl View for ImageReference {
    type V = ReferenceView;

    open spec fn view(&self) -> ReferenceView {
        ReferenceView { name: self.name@, tag: self.tag@ }
    }
}

/// The position of the first occurrence of `c` in `s`, if any.
pub open spec fn find_char_spec(s: Seq<char>, c: char) -> Option<int>
    decreases s.len(),
{
    if s.len() == 0 {
        None
    } else if s[0] == c {
        Some(0)
    } else {
        match find_char_spec(s.subrange(1, s.len() as int), c) {
            Some(i) => Some(i + 1),
            None => None,
        }
    }
}

/// How an image reference is read: the first `:` splits name from tag; a
/// reference without a `:` names the `latest` tag; the name and the tag must
/// be non-empty, and the tag must not itself contain a `:`.
pub open spec fn parse_reference_spec(s: Seq<char>) -> Option<ReferenceView> {
    match find_char_spec(s, ':') {
        None => if s.len() > 0 {
            Some(ReferenceView { name: s, tag: "latest"@ })
        } else {
            None
        },
        Some(i) => {
            let name = s.subrange(0, i);
            let tag = s.subrange(i + 1, s.len() as int);
            if 0 < i && tag.len() > 0 && find_char_spec(tag, ':') is None {
                Some(ReferenceView { name, tag })
            } else {
                None
            }
        },
    }
}

proof fn lemma_find_char_spec_at(s: Seq<char>, c: char, i: int)
    requires
        0 <= i < s.len(),
        s[i] == c,
        forall|j: int| 0 <= j < i ==> s[j] != c,
    ensures
        find_char_spec(s, c) == Some(i),
    decreases i,
{
    if i > 0 {
        lemma_find_char_spec_at(s.subrange(1, s.len() as int), c, i - 1);
    }
}

proof fn lemma_find_char_spec_none(s: Seq<char>, c: char)
    requires
        forall|j: int| 0 <= j < s.len() ==> s[j] != c,
    ensures
        find_char_spec(s, c) is None,
    decreases s.len(),
{
    if s.len() > 0 {
        lemma_find_char_spec_none(s.subrange(1, s.len() as int), c);
    }
}

/// The position of the first occurrence of `c` in `s`, if any.
fn find_char(s: &str, c: char) -> (r: Option<usize>)
    ensures
        match r {
            Some(i) => i < s@.len() && find_char_spec(s@, c) == Some(i as int),
            None => find_char_spec(s@, c) is None,
        },
{
    let n = s.unicode_len();
    let mut i: usize = 0;
    while i < n
        invariant
            n == s@.len(),
            i <= n,
            forall|j: int| 0 <= j < i ==> s@[j] != c,
        decreases n - i,
    {
        if s.get_char(i) == c {
            proof {
                lemma_find_char_spec_at(s@, c, i as int);
            }
            return Some(i);
        }
        i = i + 1;
    }
    proof {
        lemma_find_char_spec_none(s@, c);
    }
    None
}

/// Split an image reference into its name and tag. A reference without a
/// tag names `latest`; an empty name, an empty tag or a second `:` is
/// rejected.
pub fn parse_image_reference(image: &str) -> (r: Result<ImageReference, PullError>)
    ensures
        match r {
            Ok(ir) => parse_reference_spec(image@) == Some(ir@),
            Err(e) => parse_reference_spec(image@) is None && e == PullError::Reference,
        },
{
    let n = image.unicode_len();
    match find_char(image, ':') {
        None => {
            if n == 0 {
                Err(PullError::Reference)
            } else {
                Ok(ImageReference { name: image.to_owned(), tag: String::from_str("latest") })
            }
        },
        Some(i) => {
            if i == 0 || i + 1 == n {
                return Err(PullError::Reference);
            }
            let name = image.substring_char(0, i);
            let tag = image.substring_char(i + 1, n);
            match find_char(tag, ':') {
                Some(_) => Err(PullError::Reference),
                None => Ok(ImageReference { name: name.to_owned(), tag: tag.to_owned() }),
            }
        },
    }
}

} // verus!
