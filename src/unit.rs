//! Data units, the annotations they carry, and the reconstruction of an
//! original unit from a transformed one.
use vstd::prelude::*;
use crate::format::{Caps, VideoGeometry};

verus! {

/// Timing of a data unit: presentation and decoding timestamps, duration
/// and stream offsets, as the host framework reports them.
#[derive(Clone, Copy, Debug, PartialEq, Eq, Structural)]
pub struct Timing {
    pub pts: Option<u64>,
    pub dts: Option<u64>,
    pub duration: Option<u64>,
    pub offset: u64,
    pub offset_end: u64,
}

/// What the stage needs to know of one annotation attached to a unit.
#[derive(Clone, Copy, Debug, PartialEq, Eq, Structural)]
pub struct Annotation {
    /// The annotation is the identity metadata itself.
    pub identity: bool,
    /// Tagged as describing the unit's memory.
    pub memory: bool,
    /// Tagged as referring to the unit's backing storage.
    pub memory_reference: bool,
    /// Tagged as describing the unit's structural size.
    pub size: bool,
}

/// Identity metadata: the original pre-transform content and the format
/// descriptor it was produced under, with the geometry derived from that
/// descriptor when it has one.
#[derive(Clone, Debug, PartialEq, Eq)]
pub struct Identity<P> {
    pub original: P,
    pub caps: Caps,
    pub vinfo: Option<VideoGeometry>,
}

/// A data unit as it reaches the stage. `payload` is the content, opaque to
/// the stage; `annotations` lists every annotation attached to the unit, in
/// order.
#[derive(Clone, Debug, PartialEq, Eq)]
pub struct DataUnit<P> {
    pub payload: P,
    pub timing: Timing,
    pub flags: u32,
    pub annotations: Vec<Annotation>,
    pub identity: Option<Identity<P>>,
}

/// A unit whose identity metadata has been read, on its way to
/// reconstruction.
#[derive(Clone, Debug, PartialEq, Eq)]
pub struct PendingUnit<P> {
    pub original: P,
    pub caps: Caps,
    pub vinfo: Option<VideoGeometry>,
    pub timing: Timing,
    pub flags: u32,
    pub annotations: Vec<Annotation>,
}

/// How an annotation of the transformed unit is carried onto the
/// reconstructed one.
#[derive(Clone, Copy, Debug, PartialEq, Eq, Structural)]
pub enum AnnotationTransform {
    /// A plain, non-destructive copy.
    Copy,
    /// A geometric rescale from `from` to `to`; where the rescale fails, a
    /// plain copy instead.
    Scale { from: VideoGeometry, to: VideoGeometry },
}

/// One annotation to carry over: its index among the transformed unit's
/// annotations, and how.
#[derive(Clone, Copy, Debug, PartialEq, Eq, Structural)]
pub struct Transplant {
    pub source: usize,
    pub transform: AnnotationTransform,
}

/// A reconstructed unit: the original content with the transformed unit's
/// timing and flags, and the annotations to carry over from it.
#[derive(Clone, Debug, PartialEq, Eq)]
pub struct Restored<P> {
    pub payload: P,
    pub timing: Timing,
    pub flags: u32,
    pub transplants: Vec<Transplant>,
}

/// How annotation `a` is carried over, if at all, given the geometry of
/// the original format (`meta`) and of the transformed stream (`sink`).
pub open spec fn transform_of(
    a: Annotation,
    meta: Option<VideoGeometry>,
    sink: Option<VideoGeometry>,
) -> Option<AnnotationTransform> {
    if a.identity || a.memory || a.memory_reference {
        None
    } else if a.size && meta is Some && sink is Some && meta->0.differs(sink->0) {
        Some(AnnotationTransform::Scale { from: meta->0, to: sink->0 })
    } else {
        Some(AnnotationTransform::Copy)
    }
}

/// The transplants for the first `n` annotations of `anns`, in order.
pub open spec fn planned(
    anns: Seq<Annotation>,
    meta: Option<VideoGeometry>,
    sink: Option<VideoGeometry>,
    n: nat,
) -> Seq<Transplant>
    decreases n,
{
    if n == 0 {
        Seq::empty()
    } else {
        let prev = planned(anns, meta, sink, (n - 1) as nat);
        match transform_of(anns[n - 1], meta, sink) {
            None => prev,
            Some(t) => prev.push(Transplant { source: (n - 1) as usize, transform: t }),
        }
    }
}

/// The transplants for all of `anns`.
pub open spec fn plan(
    anns: Seq<Annotation>,
    meta: Option<VideoGeometry>,
    sink: Option<VideoGeometry>,
) -> Seq<Transplant> {
    planned(anns, meta, sink, anns.len())
}

/// Whether `r` is the reconstruction of `p` under the given geometries.
pub open spec fn restores<P>(
    r: Restored<P>,
    p: PendingUnit<P>,
    meta: Option<VideoGeometry>,
    sink: Option<VideoGeometry>,
) -> bool {
    &&& r.payload == p.original
    &&& r.timing == p.timing
    &&& r.flags == p.flags
    &&& r.transplants@ == plan(p.annotations@, meta, sink)
}

/// How annotation `a` is carried over, if at all.
pub fn annotation_transform(
    a: &Annotation,
    meta: &Option<VideoGeometry>,
    sink: &Option<VideoGeometry>,
) -> (r: Option<AnnotationTransform>)
    ensures
        r == transform_of(*a, *meta, *sink),
{
    if a.identity || a.memory || a.memory_reference {
        return None;
    }
    if a.size {
        if let (Some(m), Some(s)) = (meta, sink) {
            if m.differs_from(s) {
                return Some(AnnotationTransform::Scale { from: *m, to: *s });
            }
        }
    }
    Some(AnnotationTransform::Copy)
}

/// The transplants for every annotation of a transformed unit, in order.
pub fn plan_transplants(
    anns: &Vec<Annotation>,
    meta: &Option<VideoGeometry>,
    sink: &Option<VideoGeometry>,
) -> (r: Vec<Transplant>)
    ensures
        r@ == plan(anns@, *meta, *sink),
{
    let mut out: Vec<Transplant> = Vec::new();
    let mut i: usize = 0;
    while i < anns.len()
        invariant
            i <= anns@.len(),
            out@ == planned(anns@, *meta, *sink, i as nat),
        decreases anns@.len() - i,
    {
        match annotation_transform(&anns[i], meta, sink) {
            None => {},
            Some(t) => {
                out.push(Transplant { source: i, transform: t });
            },
        }
        i = i + 1;
    }
    out
}

impl<P> DataUnit<P> {
    /// Splits off the identity metadata: `Err` gives back a unit that
    /// carries none, unchanged.
    pub fn into_pending(self) -> (r: Result<PendingUnit<P>, DataUnit<P>>)
        ensures
            self.identity is None ==> r == Err::<PendingUnit<P>, DataUnit<P>>(self),
            self.identity is Some ==> r == Ok::<PendingUnit<P>, DataUnit<P>>(self.pending()),
    {
        match self.identity {
            None => Err(DataUnit {
                payload: self.payload,
                timing: self.timing,
                flags: self.flags,
                annotations: self.annotations,
                identity: None,
            }),
            Some(id) => Ok(PendingUnit {
                original: id.original,
                caps: id.caps,
                vinfo: id.vinfo,
                timing: self.timing,
                flags: self.flags,
                annotations: self.annotations,
            }),
        }
    }

    /// The pending unit that `self` becomes once its identity metadata has
    /// been read.
    pub open spec fn pending(self) -> PendingUnit<P>
        recommends
            self.identity is Some,
    {
        PendingUnit {
            original: self.identity->0.original,
            caps: self.identity->0.caps,
            vinfo: self.identity->0.vinfo,
            timing: self.timing,
            flags: self.flags,
            annotations: self.annotations,
        }
    }
}

impl<P> PendingUnit<P> {
    /// Reconstructs the original unit: its content, with the transformed
    /// unit's timing and flags, and the annotations to carry over from the
    /// transformed unit given the geometry of the original format (`meta`)
    /// and of the transformed stream (`sink`).
    pub fn restore(self, meta: &Option<VideoGeometry>, sink: &Option<VideoGeometry>) -> (r:
        Restored<P>)
        ensures
            restores(r, self, *meta, *sink),
    {
        let transplants = plan_transplants(&self.annotations, meta, sink);
        Restored { payload: self.original, timing: self.timing, flags: self.flags, transplants }
    }
}

} // verus!
