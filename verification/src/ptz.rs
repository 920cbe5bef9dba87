//! PTZ data model: movement kinds, directions, per-profile capabilities,
//! and the capability-driven movement-strategy selector.

use vstd::prelude::*;

verus! {

/// One of the three ONVIF addressing-space families for camera motion.
#[derive(Debug, Copy, Clone, PartialEq, Eq, Structural)]
pub enum MovementKind {
    Continuous,
    Relative,
    Absolute,
}

/// A high-level movement command, in two axis groups:
/// `Up`/`Down`/`Left`/`Right` address the pan/tilt axes,
/// `ZoomIn`/`ZoomOut` the zoom axis.
#[derive(Debug, Copy, Clone, PartialEq, Eq, Structural)]
pub enum PtzDirection {
    Up,
    Down,
    Left,
    Right,
    ZoomIn,
    ZoomOut,
}

impl PtzDirection {
    pub open spec fn spec_is_zoom(&self) -> bool {
        self is ZoomIn || self is ZoomOut
    }

    /// Whether this direction belongs to the zoom axis group.
    #[verifier::when_used_as_spec(spec_is_zoom)]
    pub fn is_zoom(&self) -> (r: bool)
        ensures
            r == self.spec_is_zoom(),
    {
        match self {
            PtzDirection::ZoomIn | PtzDirection::ZoomOut => true,
            _ => false,
        }
    }
}

/// The movement kinds one media profile advertises, per axis group.
#[derive(Debug, Clone)]
pub struct PtzCapabilities {
    pub profile_token: String,
    pub supported_movements: Vec<MovementKind>,
    pub supported_zoom: Vec<MovementKind>,
}

/// The mathematical value of a `PtzCapabilities`.
pub struct CapabilitiesView {
    pub profile_token: Seq<char>,
    pub supported_movements: Seq<MovementKind>,
    pub supported_zoom: Seq<MovementKind>,
}

impl View for PtzCapabilities {
    type V = CapabilitiesView;

    open spec fn view(&self) -> CapabilitiesView {
        CapabilitiesView {
            profile_token: self.profile_token@,
            supported_movements: self.supported_movements@,
            supported_zoom: self.supported_zoom@,
        }
    }
}

impl CapabilitiesView {
    /// Each advertised set lists a kind at most once.
    pub open spec fn wf(self) -> bool {
        self.supported_movements.no_duplicates() && self.supported_zoom.no_duplicates()
    }

    pub open spec fn spec_direction_group(self, direction: PtzDirection) -> Seq<MovementKind> {
        if direction.spec_is_zoom() {
            self.supported_zoom
        } else {
            self.supported_movements
        }
    }

    /// The selection rule: the group is chosen by the direction's axis,
    /// and the priority order is Relative over Absolute over Continuous.
    pub open spec fn spec_preferred_movement(self, direction: PtzDirection) -> Option<
        MovementKind,
    > {
        let group = self.spec_direction_group(direction);
        if group.contains(MovementKind::Relative) {
            Some(MovementKind::Relative)
        } else if group.contains(MovementKind::Absolute) {
            Some(MovementKind::Absolute)
        } else if group.contains(MovementKind::Continuous) {
            Some(MovementKind::Continuous)
        } else {
            None
        }
    }
}

/// Whether `v` lists `kind`.
pub fn contains_kind(v: &Vec<MovementKind>, kind: MovementKind) -> (r: bool)
    ensures
        r == v@.contains(kind),
{
    let mut i: usize = 0;
    while i < v.len()
        invariant
            i <= v.len(),
            forall|j: int| 0 <= j < i ==> v@[j] != kind,
        decreases v.len() - i,
    {
        if v[i] == kind {
            assert(v@.contains(kind));
            return true;
        }
        i = i + 1;
    }
    false
}

impl PtzCapabilities {
    /// The capability set that governs `direction`: the pan/tilt set for
    /// `Up`/`Down`/`Left`/`Right`, the zoom set for `ZoomIn`/`ZoomOut`.
    pub fn direction_group(&self, direction: PtzDirection) -> (r: &Vec<MovementKind>)
        ensures
            r@ == self@.spec_direction_group(direction),
    {
        match direction {
            PtzDirection::Up | PtzDirection::Down | PtzDirection::Left | PtzDirection::Right => {
                &self.supported_movements
            },
            PtzDirection::ZoomIn | PtzDirection::ZoomOut => &self.supported_zoom,
        }
    }

    /// Picks the movement kind for `direction` by priority
    /// Relative over Absolute over Continuous; `None` when the governing
    /// set offers nothing, in which case no movement is performed.
    pub fn preferred_movement(&self, direction: PtzDirection) -> (r: Option<MovementKind>)
        ensures
            r == self@.spec_preferred_movement(direction),
    {
        let group = self.direction_group(direction);
        if contains_kind(group, MovementKind::Relative) {
            Some(MovementKind::Relative)
        } else if contains_kind(group, MovementKind::Absolute) {
            Some(MovementKind::Absolute)
        } else if contains_kind(group, MovementKind::Continuous) {
            Some(MovementKind::Continuous)
        } else {
            None
        }
    }
}

/// Law: `Relative` wins whenever the direction's capability set lists it,
/// no matter what else the set holds; an empty set selects nothing.
pub proof fn lemma_relative_priority(caps: CapabilitiesView, direction: PtzDirection)
    ensures
        caps.spec_direction_group(direction).contains(MovementKind::Relative)
            ==> caps.spec_preferred_movement(direction) == Some(MovementKind::Relative),
        caps.spec_direction_group(direction).len() == 0 ==> caps.spec_preferred_movement(direction)
            is None,
{
}

} // verus!
