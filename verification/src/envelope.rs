//! Envelopes: curves over the normalised playback position.
use vstd::prelude::*;
use crate::fixed::Fixed;
use crate::fixed::SCALE;

verus! {

/// A point of an envelope: at playback position `x` the curve has value `y`.
#[derive(Clone, Copy, Debug, PartialEq, Eq, Structural)]
pub struct Point {
    pub x: Fixed,
    pub y: Fixed,
}

/// A curve given by its points, in the order in which they are to be
/// interpolated.
///
/// The oscillator owns its envelopes and hands them through unchanged: the
/// interpolation between the points is the envelope evaluator's.
#[derive(Debug)]
pub struct Envelope {
    pub points: Vec<Point>,
}

impl View for Envelope {
    type V = Seq<Point>;

    open spec fn view(&self) -> Seq<Point> {
        self.points@
    }
}

impl Clone for Envelope {
    /// An envelope with the same points.
    fn clone(&self) -> (e: Envelope)
        ensures
            e@ == self@,
    {
        let mut points: Vec<Point> = Vec::new();
        let mut i: usize = 0;
        while i < self.points.len()
            invariant
                i <= self.points.len(),
                points@ == self.points@.take(i as int),
            decreases self.points.len() - i,
        {
            points.push(self.points[i]);
            i += 1;
        }
        Envelope { points }
    }
}

/// The points of the envelope that is zero from position 0 to position 1.
pub open spec fn zeroed_points() -> Seq<Point> {
    seq![
        Point { x: Fixed { raw: 0 }, y: Fixed { raw: 0 } },
        Point { x: Fixed { raw: SCALE }, y: Fixed { raw: 0 } },
    ]
}

impl Envelope {
    /// The envelope that is zero everywhere between position 0 and
    /// position 1.
    pub fn zeroed() -> (e: Envelope)
        ensures
            e@ == zeroed_points(),
    {
        let mut points: Vec<Point> = Vec::new();
        points.push(Point { x: Fixed { raw: 0 }, y: Fixed { raw: 0 } });
        points.push(Point { x: Fixed { raw: SCALE }, y: Fixed { raw: 0 } });
        Envelope { points }
    }
}

} // verus!
