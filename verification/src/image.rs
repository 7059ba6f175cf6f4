//! References to container images.

use vstd::prelude::*;

use crate::text;

verus! {

/// The character is a decimal digit.
pub open spec fn is_digit(c: char) -> bool {
    '0' <= c && c <= '9'
}

/// The tag is a version: it starts with a digit, which a "v" may precede.
pub open spec fn is_version(tag: Seq<char>) -> bool {
    &&& !tag.contains('/')
    &&& tag.len() > 0
    &&& is_digit(tag[0]) || (tag[0] == 'v' && tag.len() > 1 && is_digit(tag[1]))
}

/// The version that an image is tagged with.
pub open spec fn version_of(image: Seq<char>) -> Option<Seq<char>> {
    match text::after_last(image, ':') {
        Some(tag) => if is_version(tag) {
            Some(tag)
        } else {
            None
        },
        None => None,
    }
}

/// Image_version reports the version that an image is tagged with, if it is tagged with one.
pub fn image_version(image: &str) -> (r: Option<&str>)
    ensures
        match r {
            Some(v) => version_of(image@) == Some(v@),
            None => version_of(image@) is None,
        },
{
    let tag = match text::rsplit_once(image, ':') {
        Some((_, tag)) => tag,
        None => return None,
    };
    let v = text::chars_of(tag);
    let n: usize = v.len();
    let mut i: usize = 0;
    while i < n
        invariant
            v@ == tag@,
            n == v@.len(),
            i <= n,
            forall|j: int| 0 <= j < i ==> tag@[j] != '/',
            text::after_last(image@, ':') == Some(tag@),
        decreases n - i,
    {
        if v[i] == '/' {
            assert(tag@.contains('/'));
            return None;
        }
        i = i + 1;
    }
    assert(!tag@.contains('/'));
    if n > 0 && '0' <= v[0] && v[0] <= '9' {
        Some(tag)
    } else if n > 1 && v[0] == 'v' && '0' <= v[1] && v[1] <= '9' {
        Some(tag)
    } else {
        None
    }
}

} // verus!
