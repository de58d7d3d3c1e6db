//! Format descriptors and the structure derived from them.
use vstd::prelude::*;

verus! {

/// A negotiated format descriptor, held in its canonical serialized form.
///
/// Two descriptors describe the same format exactly when their serialized
/// forms are equal.
#[derive(Clone, Debug, PartialEq, Eq)]
pub struct Caps {
    pub desc: String,
}

impl Caps {
    /// Builds a descriptor from its serialized form.
    pub fn new(desc: String) -> (r: Caps)
        ensures
            r.desc@ == desc@,
    {
        Caps { desc }
    }

    /// Whether `self` and `other` describe the same format.
    pub fn same_as(&self, other: &Caps) -> (r: bool)
        ensures
            r == (self.desc@ == other.desc@),
    {
        self.desc == other.desc
    }

    /// A copy of this descriptor.
    pub fn duplicate(&self) -> (r: Caps)
        ensures
            r == *self,
    {
        Caps { desc: self.desc.clone() }
    }
}

/// Geometry decoded from a video format descriptor.
#[derive(Clone, Copy, Debug, PartialEq, Eq, Structural)]
pub struct VideoGeometry {
    pub width: u32,
    pub height: u32,
}

impl VideoGeometry {
    /// Whether the two geometries have different dimensions.
    pub open spec fn differs(self, other: VideoGeometry) -> bool {
        self.width != other.width || self.height != other.height
    }

    /// Whether the two geometries have different dimensions.
    pub fn differs_from(&self, other: &VideoGeometry) -> (r: bool)
        ensures
            r == self.differs(*other),
    {
        self.width != other.width || self.height != other.height
    }
}

/// One slot of the format cache: the last descriptor seen on one side of
/// the stage and the geometry derived from it, when it has one.
#[derive(Clone, Debug, PartialEq, Eq)]
pub struct CapsState {
    pub caps: Option<Caps>,
    pub vinfo: Option<VideoGeometry>,
}

impl CapsState {
    /// The empty slot.
    pub open spec fn empty() -> CapsState {
        CapsState { caps: None, vinfo: None }
    }

    /// Whether the slot holds a descriptor equal to `caps`.
    pub open spec fn holds(self, caps: Caps) -> bool {
        self.caps matches Some(c) && c.desc@ == caps.desc@
    }

    /// Whether the slot holds a descriptor equal to `caps`.
    pub fn holds_caps(&self, caps: &Caps) -> (r: bool)
        ensures
            r == self.holds(*caps),
    {
        match &self.caps {
            Some(c) => c.same_as(caps),
            None => false,
        }
    }
}

impl Default for CapsState {
    fn default() -> (r: CapsState)
        ensures
            r == CapsState::empty(),
    {
        CapsState { caps: None, vinfo: None }
    }
}

} // verus!
