//! Transform requests and the cache keys derived from them.

use vstd::prelude::*;
use vstd::string::*;
use crate::decimal::{decimal, push_decimal};

verus! {

/// The parameters of one transform request. An absent field puts no
/// constraint on its axis; it does not stand for zero.
#[derive(Debug, Clone, Copy, PartialEq, PartialOrd, Hash, Eq)]
pub struct Resize {
    pub webp: Option<bool>,
    pub quality: Option<u8>,
    pub width: Option<u16>,
    pub height: Option<u16>,
    pub cx: Option<u16>,
    pub cy: Option<u16>,
    pub cwidth: Option<u16>,
    pub cheight: Option<u16>,
}

/// What a numeric field adds to a key: its tag and its decimal numeral when
/// the field is present, nothing when it is absent.
pub open spec fn piece(tag: Seq<char>, value: Option<nat>) -> Seq<char> {
    match value {
        Some(n) => tag + decimal(n),
        None => Seq::empty(),
    }
}

/// What the `webp` field adds to a key: the bare tag where it is true, the
/// tag and `0` where it is false, nothing where it is absent.
pub open spec fn flag_piece(flag: Option<bool>) -> Seq<char> {
    match flag {
        Some(true) => "webp"@,
        Some(false) => "webp0"@,
        None => Seq::empty(),
    }
}

/// A present `u8` field as a number.
pub open spec fn small(value: Option<u8>) -> Option<nat> {
    match value {
        Some(n) => Some(n as nat),
        None => None,
    }
}

/// A present `u16` field as a number.
pub open spec fn wide(value: Option<u16>) -> Option<nat> {
    match value {
        Some(n) => Some(n as nat),
        None => None,
    }
}

impl Resize {
    /// The canonical text of a request: the pieces of its fields in a fixed
    /// order, with nothing between them.
    pub open spec fn canonical(self) -> Seq<char> {
        flag_piece(self.webp)
            + piece("q"@, small(self.quality))
            + piece("w"@, wide(self.width))
            + piece("h"@, wide(self.height))
            + piece("cx"@, wide(self.cx))
            + piece("cy"@, wide(self.cy))
            + piece("cw"@, wide(self.cwidth))
            + piece("ch"@, wide(self.cheight))
    }

    /// Renders the request in its canonical text.
    pub fn to_string(&self) -> (s: String)
        ensures
            s@ == self.canonical(),
    {
        let mut s = String::new();
        match self.webp {
            Some(true) => s.append("webp"),
            Some(false) => s.append("webp0"),
            None => {},
        }
        assert(s@ =~= flag_piece(self.webp));
        let quality: Option<u16> = match self.quality {
            Some(q) => Some(q as u16),
            None => None,
        };
        push_piece(&mut s, "q", quality);
        push_piece(&mut s, "w", self.width);
        push_piece(&mut s, "h", self.height);
        push_piece(&mut s, "cx", self.cx);
        push_piece(&mut s, "cy", self.cy);
        push_piece(&mut s, "cw", self.cwidth);
        push_piece(&mut s, "ch", self.cheight);
        s
    }
}

/// Appends the piece of one numeric field to `out`.
fn push_piece(out: &mut String, tag: &str, value: Option<u16>)
    ensures
        final(out)@ == old(out)@ + piece(tag@, wide(value)),
{
    if let Some(n) = value {
        out.append(tag);
        push_decimal(out, n);
    }
    assert(out@ =~= old(out)@ + piece(tag@, wide(value)));
}

/// The cache key of a request for one image: the canonical text of the
/// request, directly followed by the image's identifier.
pub open spec fn key_of(image: Seq<char>, resize: Resize) -> Seq<char> {
    resize.canonical() + image
}

/// Builds the cache key of a request for `image`.
pub fn key(image: &str, resize: &Resize) -> (k: String)
    ensures
        k@ == key_of(image@, *resize),
{
    let mut k = resize.to_string();
    k.append(image);
    k
}

} // verus!
