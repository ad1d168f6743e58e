//! The fading trail of the pendulum's tip: a bounded history of recent
//! positions, each with an opacity that every frame lowers.
//!
//! The trail has no physical meaning. It is refreshed once per running frame
//! and read by whoever draws the scene.

use vstd::prelude::*;
use crate::state::Point;

verus! {

/// Opacity of a marker that was just recorded.
pub const FULL_OPACITY: u8 = 255;

/// Amount by which one decay pass lowers the opacity of a marker.
pub const FADE_STEP: u8 = 4;

/// The customary cap of a trail.
pub const DEFAULT_TRAIL_CAP: usize = 200;

/// One recorded position of the tip and the opacity it is drawn with.
#[derive(Clone, Copy, Debug, PartialEq, Eq, Structural)]
pub struct Marker {
    pub position: Point,
    pub alpha: u8,
}

/// The opacity that one decay pass leaves of `alpha`: lowered by
/// [`FADE_STEP`] while it stays above zero that way, else unchanged.
pub open spec fn faded(alpha: u8) -> u8 {
    if alpha > FADE_STEP {
        (alpha - FADE_STEP) as u8
    } else {
        alpha
    }
}

/// The opacity left of `alpha` after `passes` decay passes.
pub open spec fn faded_by(alpha: u8, passes: nat) -> u8
    decreases passes,
{
    if passes == 0 {
        alpha
    } else {
        faded(faded_by(alpha, (passes - 1) as nat))
    }
}

/// The marker that one decay pass makes of `m`.
pub open spec fn faded_marker(m: Marker) -> Marker {
    Marker { position: m.position, alpha: faded(m.alpha) }
}

/// The trail after one decay pass: every marker in place, faded once.
pub open spec fn decayed(markers: Seq<Marker>) -> Seq<Marker> {
    Seq::new(markers.len(), |i: int| faded_marker(markers[i]))
}

/// The trail after `position` was recorded in a buffer that holds at most
/// `cap` markers.
///
/// A buffer that is not full gains a fully opaque marker at its end. A full
/// buffer is emptied first, so the new marker is then its only one. A buffer
/// whose cap is zero stays empty.
pub open spec fn recorded(markers: Seq<Marker>, cap: nat, position: Point) -> Seq<Marker> {
    let fresh = Marker { position, alpha: FULL_OPACITY };
    if cap == 0 {
        Seq::empty()
    } else if markers.len() >= cap {
        seq![fresh]
    } else {
        markers.push(fresh)
    }
}

/// The trail after each of `positions` was recorded in turn.
pub open spec fn recorded_all(markers: Seq<Marker>, cap: nat, positions: Seq<Point>) -> Seq<Marker>
    decreases positions.len(),
{
    if positions.len() == 0 {
        markers
    } else {
        recorded(recorded_all(markers, cap, positions.drop_last()), cap, positions.last())
    }
}

/// Lowers an opacity by one decay pass.
pub fn fade(alpha: u8) -> (r: u8)
    ensures
        r == faded(alpha),
        r <= alpha,
        alpha > 0 ==> r > 0,
{
    if alpha > FADE_STEP {
        alpha - FADE_STEP
    } else {
        alpha
    }
}

/// A bounded history of the tip's positions, oldest first.
pub struct TrailBuffer {
    markers: Vec<Marker>,
    cap: usize,
}

impl View for TrailBuffer {
    type V = Seq<Marker>;

    closed spec fn view(&self) -> Seq<Marker> {
        self.markers@
    }
}

impl TrailBuffer {
    /// The greatest number of markers that the buffer holds.
    pub closed spec fn cap_value(&self) -> nat {
        self.cap as nat
    }

    /// What holds of every buffer: it holds no more markers than its cap.
    #[verifier::type_invariant]
    pub closed spec fn bounded(&self) -> bool {
        self.markers@.len() <= self.cap
    }

    /// An empty trail that will hold at most `cap` markers.
    pub fn new(cap: usize) -> (t: TrailBuffer)
        ensures
            t@ == Seq::<Marker>::empty(),
            t.cap_value() == cap,
            t.bounded(),
    {
        TrailBuffer { markers: Vec::new(), cap }
    }

    /// The greatest number of markers that the buffer holds.
    pub fn cap(&self) -> (c: usize)
        ensures
            c == self.cap_value(),
    {
        self.cap
    }

    /// The number of markers in the buffer, which never exceeds the cap.
    pub fn len(&self) -> (n: usize)
        ensures
            n == self@.len(),
            n <= self.cap_value(),
    {
        proof {
            use_type_invariant(self);
        }
        self.markers.len()
    }

    /// Whether the buffer holds no marker.
    pub fn is_empty(&self) -> (r: bool)
        ensures
            r == (self@.len() == 0),
    {
        self.markers.len() == 0
    }

    /// The marker at `index`, counted from the oldest, if there is one.
    pub fn get(&self, index: usize) -> (r: Option<Marker>)
        ensures
            r == (if index < self@.len() {
                Some(self@[index as int])
            } else {
                None
            }),
    {
        if index < self.markers.len() {
            Some(self.markers[index])
        } else {
            None
        }
    }

    /// The markers of the buffer, oldest first.
    pub fn markers(&self) -> (s: &[Marker])
        ensures
            s@ == self@,
    {
        self.markers.as_slice()
    }

    /// Records a new position of the tip with full opacity.
    ///
    /// If the buffer is full it is emptied before the marker is added.
    pub fn record(&mut self, position: Point)
        ensures
            final(self)@ == recorded(old(self)@, old(self).cap_value(), position),
            final(self).cap_value() == old(self).cap_value(),
            final(self)@.len() <= final(self).cap_value(),
    {
        proof {
            use_type_invariant(&*self);
        }
        if self.cap == 0 {
            assert(self.markers@ =~= Seq::<Marker>::empty());
            return ;
        }
        let fresh = Marker { position, alpha: FULL_OPACITY };
        let mut markers: Vec<Marker> = Vec::new();
        if self.markers.len() < self.cap {
            std::mem::swap(&mut markers, &mut self.markers);
        }
        markers.push(fresh);
        assert(markers@ =~= recorded(old(self)@, old(self).cap_value(), position));
        self.markers = markers;
    }

    /// Lowers the opacity of every marker by one decay pass.
    pub fn decay(&mut self)
        ensures
            final(self)@ == decayed(old(self)@),
            final(self).cap_value() == old(self).cap_value(),
    {
        proof {
            use_type_invariant(&*self);
        }
        let mut markers: Vec<Marker> = Vec::new();
        std::mem::swap(&mut markers, &mut self.markers);
        let n: usize = markers.len();
        let mut i: usize = 0;
        while i < n
            invariant
                i <= n,
                n == markers@.len(),
                n == old(self)@.len(),
                forall|j: int| 0 <= j < i ==> markers@[j] == faded_marker(old(self)@[j]),
                forall|j: int| i <= j < n ==> markers@[j] == old(self)@[j],
            decreases n - i,
        {
            let m: Marker = markers[i];
            markers.set(i, Marker { position: m.position, alpha: fade(m.alpha) });
            i = i + 1;
        }
        assert(markers@ =~= decayed(old(self)@));
        self.markers = markers;
    }
}

/// Recording keeps a trail within its cap: whatever the trail held, after
/// one more position it holds at most `cap` markers.
pub proof fn lemma_recorded_within_cap(markers: Seq<Marker>, cap: nat, position: Point)
    ensures
        recorded(markers, cap, position).len() <= cap,
        cap > 0 ==> recorded(markers, cap, position).last() == (Marker {
            position,
            alpha: FULL_OPACITY,
        }),
{
}

/// The trail never outgrows its cap: a trail within the cap stays within
/// it after any number of recordings, however many more than the cap.
pub proof fn lemma_trail_never_exceeds_cap(markers: Seq<Marker>, cap: nat, positions: Seq<Point>)
    requires
        markers.len() <= cap,
    ensures
        recorded_all(markers, cap, positions).len() <= cap,
    decreases positions.len(),
{
    if positions.len() > 0 {
        lemma_trail_never_exceeds_cap(markers, cap, positions.drop_last());
    }
}

/// Decay keeps the number, order and positions of the markers, lowers no
/// opacity below the least visible one and raises none.
pub proof fn lemma_decay_fades_in_place(markers: Seq<Marker>)
    ensures
        decayed(markers).len() == markers.len(),
        forall|i: int|
            0 <= i < markers.len() ==> {
                &&& (#[trigger] decayed(markers)[i]).position == markers[i].position
                &&& decayed(markers)[i].alpha <= markers[i].alpha
                &&& markers[i].alpha > 0 ==> decayed(markers)[i].alpha > 0
            },
{
}

/// Opacity falls monotonically with the number of decay passes and, once
/// it was above zero, never reaches zero.
pub proof fn lemma_fading_is_monotone(alpha: u8, fewer: nat, more: nat)
    requires
        fewer <= more,
    ensures
        faded_by(alpha, more) <= faded_by(alpha, fewer),
        alpha > 0 ==> faded_by(alpha, more) > 0,
    decreases more,
{
    if more > 0 {
        if fewer < more {
            lemma_fading_is_monotone(alpha, fewer, (more - 1) as nat);
        } else {
            lemma_fading_is_monotone(alpha, (fewer - 1) as nat, (more - 1) as nat);
        }
    }
}

/// The opacity of a marker by its age: a marker recorded with full opacity
/// loses [`FADE_STEP`] with each of its first 63 decay passes and then keeps
/// the opacity 3.
pub proof fn lemma_fresh_marker_fades_to_floor(passes: nat)
    ensures
        faded_by(FULL_OPACITY, passes) == (if passes <= 63 {
            255 - 4 * passes
        } else {
            3
        }),
    decreases passes,
{
    if passes > 0 {
        lemma_fresh_marker_fades_to_floor((passes - 1) as nat);
    }
}

} // verus!
