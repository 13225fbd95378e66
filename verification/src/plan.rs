//! What a request asks the pipeline to do, decided before any pixel is
//! touched.

use vstd::prelude::*;
use crate::content::{encoding_for, select_encoding, Encoding};
use crate::key_laws::lemma_key_distinct;
use crate::resize::{key_of, Resize};

verus! {

/// The bound that stands for an axis on which a resize puts no constraint.
pub const UNBOUNDED_FIT: u32 = 65535;

/// A rectangle inside a raster: its top left corner and its size.
#[derive(Debug, Clone, Copy, PartialEq, Eq)]
pub struct Rect {
    pub x: u32,
    pub y: u32,
    pub width: u32,
    pub height: u32,
}

/// The steps that the pipeline takes for one request.
#[derive(Debug, Clone, Copy, PartialEq, Eq)]
pub struct Plan {
    /// The box to scale the raster into, where the request resizes.
    pub fit: Option<(u32, u32)>,
    /// The rectangle to cut out of the scaled raster, where the request crops.
    pub crop: Option<Rect>,
    /// The encoder of the output.
    pub encoding: Encoding,
}

/// A bound of the box: the field where it is present, else no constraint.
pub open spec fn bound(side: Option<u16>) -> u32 {
    match side {
        Some(n) => n as u32,
        None => UNBOUNDED_FIT,
    }
}

/// A corner coordinate of the crop: the field where it is present, else 0.
pub open spec fn origin(at: Option<u16>) -> u32 {
    match at {
        Some(n) => n as u32,
        None => 0,
    }
}

/// A side of the crop: the field where it is present, else as far as the
/// raster reaches.
pub open spec fn reach(side: Option<u16>) -> u32 {
    match side {
        Some(n) => n as u32,
        None => u32::MAX,
    }
}

impl Resize {
    /// Whether the request resizes: a width or a height is present.
    pub open spec fn resizes(self) -> bool {
        self.width is Some || self.height is Some
    }

    /// Whether the request crops: any of the four crop fields is present.
    pub open spec fn crops(self) -> bool {
        self.cx is Some || self.cy is Some || self.cwidth is Some || self.cheight is Some
    }
}

/// The plan of a request for `image`.
pub open spec fn plan_for(resize: Resize, image: Seq<char>) -> Plan {
    Plan {
        fit: if resize.resizes() {
            Some((bound(resize.width), bound(resize.height)))
        } else {
            None
        },
        crop: if resize.crops() {
            Some(
                Rect {
                    x: origin(resize.cx),
                    y: origin(resize.cy),
                    width: reach(resize.cwidth),
                    height: reach(resize.cheight),
                },
            )
        } else {
            None
        },
        encoding: encoding_for(resize, image),
    }
}

fn bound_of(side: Option<u16>) -> (b: u32)
    ensures
        b == bound(side),
{
    match side {
        Some(n) => n as u32,
        None => UNBOUNDED_FIT,
    }
}

fn origin_of(at: Option<u16>) -> (o: u32)
    ensures
        o == origin(at),
{
    match at {
        Some(n) => n as u32,
        None => 0,
    }
}

fn reach_of(side: Option<u16>) -> (r: u32)
    ensures
        r == reach(side),
{
    match side {
        Some(n) => n as u32,
        None => u32::MAX,
    }
}

/// Decides the steps of the pipeline for a request.
pub fn plan(resize: &Resize, image: &str) -> (p: Plan)
    ensures
        p == plan_for(*resize, image@),
{
    let fit = if resize.width.is_some() || resize.height.is_some() {
        Some((bound_of(resize.width), bound_of(resize.height)))
    } else {
        None
    };
    let crop = if resize.cx.is_some() || resize.cy.is_some() || resize.cwidth.is_some()
        || resize.cheight.is_some() {
        Some(
            Rect {
                x: origin_of(resize.cx),
                y: origin_of(resize.cy),
                width: reach_of(resize.cwidth),
                height: reach_of(resize.cheight),
            },
        )
    } else {
        None
    };
    Plan { fit, crop, encoding: select_encoding(resize, image) }
}

/// Without WebP the quality of a request changes no step of the pipeline:
/// two requests that differ in nothing else have the same plan. They are
/// still kept under different keys.
pub proof fn lemma_quality_unused_without_webp(a: Resize, b: Resize, image: Seq<char>)
    requires
        !a.wants_webp(),
        b == (Resize { quality: b.quality, ..a }),
    ensures
        plan_for(a, image) == plan_for(b, image),
        a.quality != b.quality ==> key_of(image, a) != key_of(image, b),
{
    lemma_key_distinct(image, a, b);
}

} // verus!
