//! The ribbon below the avatar of somebody who has joined the project.
use vstd::prelude::*;

use crate::color::Paint;

verus! {

/// A ribbon in the colour of the replica's cursor, with its two ends curved down.
#[derive(Clone, Copy, Debug, PartialEq, Eq, Structural)]
pub struct AvatarRibbon {
    pub color: Paint,
}

/// The sizes that the surroundings allow.
#[derive(Debug)]
pub struct SizeConstraint<V> {
    pub min: V,
    pub max: V,
}

/// A corner of the area that is painted.
#[derive(Clone, Copy, Debug, PartialEq, Eq, Structural)]
pub enum Corner {
    UpperLeft,
    UpperRight,
    LowerLeft,
    LowerRight,
}

/// A point: a corner of the area, moved along its horizontal edge, away from the corner, by
/// `inset` times the height of the area.
#[derive(Clone, Copy, Debug, PartialEq, Eq, Structural)]
pub struct PathPoint {
    pub corner: Corner,
    pub inset: u8,
}

/// A step in drawing an outline.
#[derive(Clone, Copy, Debug, PartialEq, Eq, Structural)]
pub enum PathStep {
    /// Start here.
    Reset(PathPoint),
    /// A straight line.
    LineTo(PathPoint),
    /// A quadratic curve, bent towards `control`.
    CurveTo { to: PathPoint, control: PathPoint },
}

/// A filled outline.
#[derive(Debug, PartialEq, Eq)]
pub struct RibbonPath {
    pub steps: Vec<PathStep>,
    pub fill: Paint,
}

impl PathPoint {
    /// The point for an area whose upper left corner is at (`x`, `y`), with `y` growing downwards.
    pub open spec fn position(self, x: int, y: int, width: int, height: int) -> (int, int) {
        let shift = self.inset * height;
        match self.corner {
            Corner::UpperLeft => (x + shift, y),
            Corner::UpperRight => (x + width - shift, y),
            Corner::LowerLeft => (x + shift, y + height),
            Corner::LowerRight => (x + width - shift, y + height),
        }
    }
}

impl PathStep {
    /// Where the step ends.
    pub open spec fn end(self) -> PathPoint {
        match self {
            PathStep::Reset(to) => to,
            PathStep::LineTo(to) => to,
            PathStep::CurveTo { to, control } => to,
        }
    }

    /// The point that the step is bent towards; for a straight step, its end.
    pub open spec fn control(self) -> PathPoint {
        match self {
            PathStep::CurveTo { to, control } => control,
            _ => self.end(),
        }
    }
}

/// The outline of a ribbon: from the lower left corner, up along a curve as wide as the
/// ribbon is high, along the upper edge, down along a second such curve, and back.
pub open spec fn ribbon_outline() -> Seq<PathStep> {
    seq![
        PathStep::Reset(PathPoint { corner: Corner::LowerLeft, inset: 0 }),
        PathStep::CurveTo {
            to: PathPoint { corner: Corner::UpperLeft, inset: 1 },
            control: PathPoint { corner: Corner::UpperLeft, inset: 0 },
        },
        PathStep::LineTo(PathPoint { corner: Corner::UpperRight, inset: 1 }),
        PathStep::CurveTo {
            to: PathPoint { corner: Corner::LowerRight, inset: 0 },
            control: PathPoint { corner: Corner::UpperRight, inset: 0 },
        },
        PathStep::LineTo(PathPoint { corner: Corner::LowerLeft, inset: 0 }),
    ]
}

impl AvatarRibbon {
    /// A ribbon of the given colour.
    pub fn new(color: Paint) -> (ribbon: AvatarRibbon)
        ensures
            ribbon == (AvatarRibbon { color }),
    {
        AvatarRibbon { color }
    }

    /// A ribbon takes as much room as there is.
    pub fn layout<V>(&self, constraint: SizeConstraint<V>) -> (size: V)
        ensures
            size == constraint.max,
    {
        constraint.max
    }

    /// What is painted.
    pub fn paint(&self) -> (path: RibbonPath)
        ensures
            path.steps@ == ribbon_outline(),
            path.fill == self.color,
    {
        let lower_left = PathPoint { corner: Corner::LowerLeft, inset: 0 };
        let upper_left = PathPoint { corner: Corner::UpperLeft, inset: 0 };
        let upper_right = PathPoint { corner: Corner::UpperRight, inset: 0 };
        let lower_right = PathPoint { corner: Corner::LowerRight, inset: 0 };
        let mut steps: Vec<PathStep> = Vec::new();
        steps.push(PathStep::Reset(lower_left));
        steps.push(
            PathStep::CurveTo {
                to: PathPoint { corner: Corner::UpperLeft, inset: 1 },
                control: upper_left,
            },
        );
        steps.push(PathStep::LineTo(PathPoint { corner: Corner::UpperRight, inset: 1 }));
        steps.push(PathStep::CurveTo { to: lower_right, control: upper_right });
        steps.push(PathStep::LineTo(lower_left));
        assert(steps@ =~= ribbon_outline());
        RibbonPath { steps, fill: self.color }
    }
}

} // verus!
