//! The optimizer: it answers a request from its store where it can, and
//! runs the pipeline and remembers the output where it cannot.

use vstd::prelude::*;
use crate::error::{ImageNotFound, TransformError};
use crate::pipeline::{outcome, refused, render, rendered, source_raster, well_shaped};
use crate::plan::plan_for;
use crate::resize::{key, key_of, Resize};
use crate::store::{nothing_kept, CacheStore};

verus! {

/// `std::path::PathBuf`, an owned path of the file system.
#[verifier::external_type_specification]
#[verifier::external_body]
pub struct ExPathBuf(std::path::PathBuf);

/// Serves transformed images from the sources under one directory, keeping
/// every output it has produced.
#[derive(Debug)]
pub struct ImageOptimizer {
    dir: std::path::PathBuf,
    cache: CacheStore,
}

impl View for ImageOptimizer {
    type V = Map<Seq<char>, Seq<u8>>;

    /// The outputs kept so far, by cache key.
    closed spec fn view(&self) -> Map<Seq<char>, Seq<u8>> {
        self.cache@
    }
}

/// The bytes of an answer, as a sequence.
pub open spec fn answer(result: Result<Vec<u8>, ImageNotFound>) -> Option<Seq<u8>> {
    match result {
        Ok(bytes) => Some(bytes@),
        Err(_) => None,
    }
}

/// The bytes of a source, as a sequence.
pub open spec fn read(source: Option<&[u8]>) -> Option<Seq<u8>> {
    match source {
        Some(bytes) => Some(bytes@),
        None => None,
    }
}

/// What the pipeline gives for a request whose output is not kept: the
/// rendered bytes where the source can be read and the pipeline succeeds on
/// it, nothing where the source cannot be read or cannot be decoded, or the
/// encoder rejects the raster.
pub open spec fn fresh(source: Option<Seq<u8>>, resize: Resize, image: Seq<char>) -> Option<
    Seq<u8>,
> {
    match source {
        Some(bytes) => match rendered(bytes, resize, image) {
            Ok(output) => Some(output),
            Err(_) => None,
        },
        None => None,
    }
}

/// The answer to a request on a store that holds `before`. Where the store
/// holds the request's key, the answer is the bytes kept there, whatever
/// has become of the source. Where it does not, the answer is what the
/// pipeline gives.
pub open spec fn answered(
    before: Map<Seq<char>, Seq<u8>>,
    source: Option<Seq<u8>>,
    resize: Resize,
    image: Seq<char>,
) -> Option<Seq<u8>> {
    if before.contains_key(key_of(image, resize)) {
        Some(before[key_of(image, resize)])
    } else {
        fresh(source, resize, image)
    }
}

/// What a store that holds `before` holds after a request. A request that
/// is answered from the store, or fails, leaves the store as it is; one that
/// the pipeline answers puts its output under the request's key.
pub open spec fn kept_after(
    before: Map<Seq<char>, Seq<u8>>,
    source: Option<Seq<u8>>,
    resize: Resize,
    image: Seq<char>,
) -> Map<Seq<char>, Seq<u8>> {
    if before.contains_key(key_of(image, resize)) {
        before
    } else {
        match fresh(source, resize, image) {
            Some(output) => before.insert(key_of(image, resize), output),
            None => before,
        }
    }
}

/// Whether the raster behind a fresh answer has the extent that the plan of
/// the request gives it: see `well_shaped`. It holds wherever the source can
/// be read and decoded.
pub open spec fn fresh_shaped(source: Option<Seq<u8>>, resize: Resize, image: Seq<char>) -> bool {
    source is Some && source_raster(source->0, image) is Ok ==> well_shaped(
        source_raster(source->0, image)->Ok_0,
        plan_for(resize, image),
    )
}

/// Whether a request whose output is not kept is known to fail: its source
/// cannot be read, or the pipeline is known to fail on it, as it is for an
/// identifier without any `.`, for WebP at a quality above 100, for a source
/// that does not decode, and for a plan that leaves a raster whose extent
/// the encoder does not take.
pub open spec fn fresh_refused(source: Option<Seq<u8>>, resize: Resize, image: Seq<char>) -> bool {
    match source {
        Some(bytes) => refused(bytes, resize, image),
        None => true,
    }
}

impl ImageOptimizer {
    /// The directory that the sources lie under.
    pub closed spec fn root(&self) -> std::path::PathBuf {
        self.dir
    }

    /// An optimizer for the sources under `dir`, with nothing kept yet.
    pub fn new(dir: std::path::PathBuf) -> (made: Result<Self, std::io::Error>)
        ensures
            made is Ok,
            made->Ok_0.root() == dir,
            made->Ok_0@ == nothing_kept(),
    {
        Ok(ImageOptimizer { dir, cache: CacheStore::new() })
    }

    /// The directory that the sources lie under.
    pub fn dir(&self) -> (dir: &std::path::PathBuf)
        ensures
            *dir == self.root(),
    {
        &self.dir
    }

    /// The output kept for a request, if there is one.
    pub fn cached(&self, image: &str, resize: &Resize) -> (hit: Option<Vec<u8>>)
        ensures
            hit is Some == self@.contains_key(key_of(image@, *resize)),
            hit is Some ==> hit->0@ == self@[key_of(image@, *resize)],
    {
        let k = key(image, resize);
        self.cache.get(k.as_str())
    }

    /// Settles a request that the pipeline has worked on: an output is kept
    /// under the request's key, in place of what was kept there, and handed
    /// back; a failure of the pipeline, whichever it is, becomes
    /// `ImageNotFound` and leaves the store as it is.
    pub fn keep(&mut self, image: &str, resize: &Resize, output: Result<Vec<u8>, TransformError>) -> (result:
        Result<Vec<u8>, ImageNotFound>)
        ensures
            output is Ok ==> result is Ok && result->Ok_0@ == output->Ok_0@ && final(self)@ == old(
                self,
            )@.insert(key_of(image@, *resize), output->Ok_0@),
            output is Err ==> result is Err && final(self)@ == old(self)@,
            final(self).root() == old(self).root(),
    {
        match output {
            Ok(bytes) => {
                self.cache.put(key(image, resize), bytes.clone());
                Ok(bytes)
            },
            Err(_) => Err(ImageNotFound),
        }
    }

    /// Answers a request for `image` under `resize`. `source` holds the bytes
    /// of the image's source file, or `None` where the file cannot be read;
    /// it is looked at only where the store has no output for the request.
    /// A kept output is handed back as it is. Otherwise the source goes
    /// through the pipeline under the plan of the request, and the output is
    /// kept and handed back; the request fails where the source cannot be
    /// read or decoded or the encoder rejects the raster, and nowhere else.
    /// Among the requests that fail are those that `fresh_refused` describes.
    pub fn get_image(&mut self, image: &str, resize: &Resize, source: Option<&[u8]>) -> (result:
        Result<Vec<u8>, ImageNotFound>)
        ensures
            answer(result) == answered(old(self)@, read(source), *resize, image@),
            final(self)@ == kept_after(old(self)@, read(source), *resize, image@),
            !old(self)@.contains_key(key_of(image@, *resize)) ==> fresh_shaped(
                read(source),
                *resize,
                image@,
            ),
            !old(self)@.contains_key(key_of(image@, *resize)) && fresh_refused(
                read(source),
                *resize,
                image@,
            ) ==> result is Err && final(self)@ == old(self)@,
            final(self).root() == old(self).root(),
    {
        match self.cached(image, resize) {
            Some(bytes) => Ok(bytes),
            None => match source {
                Some(bytes) => {
                    let output = render(bytes, resize, image);
                    self.keep(image, resize, output)
                },
                None => Err(ImageNotFound),
            },
        }
    }
}

/// A request that was answered with bytes is answered with the same bytes
/// when it is made again, whatever has become of the source, and the second
/// answer leaves the store as it is.
pub proof fn lemma_repeat_is_stable(
    before: Map<Seq<char>, Seq<u8>>,
    first: Option<Seq<u8>>,
    second: Option<Seq<u8>>,
    resize: Resize,
    image: Seq<char>,
)
    requires
        answered(before, first, resize, image) is Some,
    ensures
        answered(kept_after(before, first, resize, image), second, resize, image) == answered(
            before,
            first,
            resize,
            image,
        ),
        kept_after(kept_after(before, first, resize, image), second, resize, image) == kept_after(
            before,
            first,
            resize,
            image,
        ),
{
}

/// A request whose output is not kept and whose source cannot be read
/// fails, and leaves the store as it is.
pub proof fn lemma_unreadable_fails(before: Map<Seq<char>, Seq<u8>>, resize: Resize, image: Seq<char>)
    requires
        !before.contains_key(key_of(image, resize)),
    ensures
        answered(before, None, resize, image) is None,
        kept_after(before, None, resize, image) == before,
{
}

/// A request is refused only where the pipeline fails on it: one whose
/// output is not kept gets bytes exactly when its source can be read and the
/// pipeline renders it, and those bytes are what the pipeline rendered.
pub proof fn lemma_miss_follows_pipeline(
    before: Map<Seq<char>, Seq<u8>>,
    source: Seq<u8>,
    resize: Resize,
    image: Seq<char>,
)
    requires
        !before.contains_key(key_of(image, resize)),
    ensures
        rendered(source, resize, image) is Ok ==> answered(before, Some(source), resize, image)
            == Some(rendered(source, resize, image)->Ok_0),
        rendered(source, resize, image) is Err ==> answered(before, Some(source), resize, image)
            is None,
{
}

} // verus!
