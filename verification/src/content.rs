//! What an image identifier says about the output: its extension, the
//! container to encode into, and the content type to announce.

use vstd::prelude::*;
use vstd::string::*;
use crate::resize::Resize;

verus! {

/// The position of the last `.` in `s`, or -1 where `s` holds none.
pub open spec fn last_dot(s: Seq<char>) -> int
    decreases s.len(),
{
    if s.len() == 0 {
        -1
    } else if s.last() == '.' {
        s.len() - 1
    } else {
        last_dot(s.drop_last())
    }
}

/// The extension of an identifier: what follows its last `.`, taken as it
/// stands, or `jpg` where the identifier holds no `.`.
pub open spec fn extension(image: Seq<char>) -> Seq<char> {
    if last_dot(image) < 0 {
        "jpg"@
    } else {
        image.skip(last_dot(image) + 1)
    }
}

/// `last_dot` finds a `.` with none behind it, and finds none only where
/// there is none.
pub proof fn lemma_last_dot(s: Seq<char>)
    ensures
        -1 <= last_dot(s) < s.len(),
        last_dot(s) >= 0 ==> s[last_dot(s)] == '.',
        forall|i: int| last_dot(s) < i < s.len() ==> s[i] != '.',
    decreases s.len(),
{
    if s.len() > 0 && s.last() != '.' {
        lemma_last_dot(s.drop_last());
        assert forall|i: int| last_dot(s) < i < s.len() implies s[i] != '.' by {
            if i < s.len() - 1 {
                assert(s.drop_last()[i] == s[i]);
            }
        }
    }
}

/// Computes the extension of `image`.
pub fn extension_of(image: &str) -> (ext: String)
    ensures
        ext@ == extension(image@),
{
    let n: usize = image.unicode_len();
    let mut start: usize = 0;
    let mut found: bool = false;
    let mut i: usize = 0;
    for c in it: image.chars()
        invariant
            n == image@.len(),
            it.seq() == image@,
            i == it.index(),
            found <==> last_dot(image@.take(i as int)) >= 0,
            found ==> start == last_dot(image@.take(i as int)) + 1,
            start <= i,
    {
        assert(image@.take(i + 1).drop_last() =~= image@.take(i as int));
        assert(image@.take(i + 1).last() == c);
        if c == '.' {
            found = true;
            start = i + 1;
        }
        i = i + 1;
    }
    assert(image@.take(n as int) =~= image@);
    if found {
        let ext = String::from_str(image.substring_char(start, n));
        assert(ext@ =~= extension(image@));
        ext
    } else {
        String::from_str("jpg")
    }
}

/// The containers that an output can be written in when it is not WebP.
#[derive(Debug, Clone, Copy, PartialEq, Eq)]
pub enum Container {
    Jpeg,
    Png,
    Gif,
}

/// The encoder that an output goes through.
#[derive(Debug, Clone, Copy, PartialEq, Eq)]
pub enum Encoding {
    /// Lossy WebP at the given quality.
    WebP { quality: u8 },
    /// The container's own encoder, which takes no quality.
    Plain(Container),
}

/// The quality of a WebP output for which the request names none.
pub const DEFAULT_QUALITY: u8 = 85;

impl Resize {
    /// Whether the request asks for WebP output: `webp` is present and true.
    pub open spec fn wants_webp(self) -> bool {
        self.webp == Some(true)
    }

    /// The quality of WebP output under this request.
    pub open spec fn webp_quality(self) -> u8 {
        match self.quality {
            Some(q) => q,
            None => DEFAULT_QUALITY,
        }
    }
}

/// The container that an identifier's extension names: PNG for `png`, GIF
/// for `gif`, JPEG for `jpg` and for every other extension.
pub open spec fn container_for(image: Seq<char>) -> Container {
    if extension(image) == "png"@ {
        Container::Png
    } else if extension(image) == "gif"@ {
        Container::Gif
    } else {
        Container::Jpeg
    }
}

/// The encoding of the output for a request: WebP where the request asks
/// for it, with the request's quality or the default; else the container
/// that the identifier names, on which the quality has no effect.
pub open spec fn encoding_for(resize: Resize, image: Seq<char>) -> Encoding {
    if resize.wants_webp() {
        Encoding::WebP { quality: resize.webp_quality() }
    } else {
        Encoding::Plain(container_for(image))
    }
}

/// The content type of the output for a request: `image/webp` where the
/// request asks for WebP, else `image/` and the identifier's extension.
pub open spec fn content_type(resize: Resize, image: Seq<char>) -> Seq<char> {
    if resize.wants_webp() {
        "image/webp"@
    } else {
        "image/"@ + extension(image)
    }
}

/// Whether the request asks for WebP output.
pub fn wants_webp(resize: &Resize) -> (b: bool)
    ensures
        b == resize.wants_webp(),
{
    match resize.webp {
        Some(flag) => flag,
        None => false,
    }
}

/// Chooses the encoding of the output for a request.
pub fn select_encoding(resize: &Resize, image: &str) -> (encoding: Encoding)
    ensures
        encoding == encoding_for(*resize, image@),
{
    if wants_webp(resize) {
        let quality: u8 = match resize.quality {
            Some(q) => q,
            None => DEFAULT_QUALITY,
        };
        Encoding::WebP { quality }
    } else {
        let ext = extension_of(image);
        if ext == String::from_str("png") {
            Encoding::Plain(Container::Png)
        } else if ext == String::from_str("gif") {
            Encoding::Plain(Container::Gif)
        } else {
            Encoding::Plain(Container::Jpeg)
        }
    }
}

/// Names the content type of the output for a request.
pub fn parse_content_type(resize: &Resize, image: &str) -> (s: String)
    ensures
        s@ == content_type(*resize, image@),
{
    if wants_webp(resize) {
        String::from_str("image/webp")
    } else {
        let ext = extension_of(image);
        let mut s = String::from_str("image/");
        s.append(ext.as_str());
        s
    }
}

} // verus!
