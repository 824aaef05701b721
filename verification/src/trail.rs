//! The body trail: the decaying segments that the head leaves behind.
//!
//! Segments are kept in the order in which they were created.  Each carries
//! the number of ticks it still has to live; ageing takes one tick from
//! every segment and drops those that have none left.

use vstd::prelude::*;
use crate::geometry::{Point, Position};

verus! {

/// Model of a [`BodySegment`].
pub struct Segment {
    pub position: Point,
    /// Ticks left to live.
    pub ttl: nat,
}

/// One segment of the trail.
#[derive(Clone, Copy, Debug, PartialEq, Eq, Structural)]
pub struct BodySegment {
    pub position: Position,
    /// Ticks left to live; at least 1 for a segment of a live trail.
    pub ttl: u32,
}

impl View for BodySegment {
    type V = Segment;

    open spec fn view(&self) -> Segment {
        Segment { position: self.position@, ttl: self.ttl as nat }
    }
}

/// The models of a sequence of segments, in the same order.
pub open spec fn segments_of(segments: Seq<BodySegment>) -> Seq<Segment> {
    segments.map_values(|s: BodySegment| s@)
}

/// Whether a segment outlives the tick that is about to age it.
pub open spec fn survives(s: Segment) -> bool {
    s.ttl > 1
}

/// The segment with one tick less to live.
pub open spec fn older(s: Segment) -> Segment {
    Segment { position: s.position, ttl: (s.ttl - 1) as nat }
}

/// The segment with one tick more to live.
pub open spec fn renewed(s: Segment) -> Segment {
    Segment { position: s.position, ttl: s.ttl + 1 }
}

/// The trail after one tick of decay: the segments on their last tick are
/// gone, every other segment has one tick less, and the order is kept.
pub open spec fn aged(trail: Seq<Segment>) -> Seq<Segment> {
    trail.filter(|s: Segment| survives(s)).map_values(|s: Segment| older(s))
}

/// The trail after the actor has grown by one: every segment gains a tick.
pub open spec fn extended(trail: Seq<Segment>) -> Seq<Segment> {
    trail.map_values(|s: Segment| renewed(s))
}

/// Whether some segment of the trail overlaps the cell at `target`.
pub open spec fn touches(trail: Seq<Segment>, target: Point) -> bool {
    exists|i: int| 0 <= i < trail.len() && (#[trigger] trail[i]).position.overlaps(target)
}

/// The shape of every trail an actor of the given length can have left:
/// each segment has between 1 and `length` ticks to live, and a segment
/// created later has strictly more ticks left than one created earlier.
pub open spec fn ordered(trail: Seq<Segment>, length: nat) -> bool {
    &&& forall|i: int| 0 <= i < trail.len() ==> 1 <= (#[trigger] trail[i]).ttl <= length
    &&& forall|i: int, j: int|
        0 <= i < j < trail.len() ==> (#[trigger] trail[i]).ttl < (#[trigger] trail[j]).ttl
}

/// Ageing a trail that ends in `s` ages what came before and then keeps
/// `s`, one tick older, exactly when `s` survives.
pub proof fn lemma_aged_push(trail: Seq<Segment>, s: Segment)
    ensures
        aged(trail.push(s)) == if survives(s) {
            aged(trail).push(older(s))
        } else {
            aged(trail)
        },
{
    reveal(Seq::filter);
    assert(trail.push(s).drop_last() =~= trail);
}

/// All but the last segment of a well-shaped trail form a well-shaped
/// trail themselves, each with fewer ticks left than the last one has.
pub proof fn lemma_ordered_front(trail: Seq<Segment>, length: nat)
    requires
        ordered(trail, length),
        trail.len() > 0,
    ensures
        trail.last().ttl >= 1,
        ordered(trail.drop_last(), (trail.last().ttl - 1) as nat),
{
    let front = trail.drop_last();
    let last = trail.len() - 1;
    assert forall|i: int| 0 <= i < front.len() implies 1 <= (#[trigger] front[i]).ttl
        <= trail[last].ttl - 1 by {
        assert(trail[i].ttl < trail[last].ttl);
    }
}

/// Ageing a well-shaped trail drops no more than it was given and leaves a
/// well-shaped trail, in which every segment has fewer ticks left than the
/// actor is long.
pub proof fn lemma_aged_ordered(trail: Seq<Segment>, length: nat)
    requires
        ordered(trail, length),
    ensures
        aged(trail).len() <= trail.len(),
        ordered(aged(trail), length),
        forall|i: int| 0 <= i < aged(trail).len() ==> (#[trigger] aged(trail)[i]).ttl < length,
    decreases trail.len(),
{
    if trail.len() == 0 {
        reveal(Seq::filter);
    } else {
        let front = trail.drop_last();
        let s = trail.last();
        assert(trail =~= front.push(s));
        lemma_ordered_front(trail, length);
        lemma_aged_ordered(front, (s.ttl - 1) as nat);
        lemma_aged_push(front, s);
    }
}

/// A well-shaped trail holds at most as many segments as the actor is long.
pub proof fn lemma_ordered_len(trail: Seq<Segment>, length: nat)
    requires
        ordered(trail, length),
    ensures
        trail.len() <= length,
    decreases trail.len(),
{
    if trail.len() > 0 {
        lemma_ordered_front(trail, length);
        lemma_ordered_len(trail.drop_last(), (trail.last().ttl - 1) as nat);
    }
}

/// The ordered collection of live segments, oldest first.
#[derive(Debug)]
pub struct BodyTrail {
    segments: Vec<BodySegment>,
}

impl View for BodyTrail {
    type V = Seq<Segment>;

    closed spec fn view(&self) -> Seq<Segment> {
        segments_of(self.segments@)
    }
}

impl BodyTrail {
    /// A trail without segments.
    pub fn new() -> (trail: BodyTrail)
        ensures
            trail@ == Seq::<Segment>::empty(),
    {
        BodyTrail { segments: Vec::new() }
    }

    /// Number of live segments.
    pub fn len(&self) -> (n: usize)
        ensures
            n == self@.len(),
    {
        self.segments.len()
    }

    /// The live segments, oldest first.
    pub fn segments(&self) -> (r: &Vec<BodySegment>)
        ensures
            segments_of(r@) == self@,
    {
        &self.segments
    }

    /// Appends a segment at `position` with `ttl` ticks to live.
    pub fn emit(&mut self, position: Position, ttl: u32)
        requires
            ttl >= 1,
        ensures
            final(self)@ == old(self)@.push(Segment { position: position@, ttl: ttl as nat }),
    {
        self.segments.push(BodySegment { position, ttl });
    }

    /// Lets one tick pass: every segment loses a tick, and those that had
    /// only one left are dropped.
    pub fn age(&mut self)
        ensures
            final(self)@ == aged(old(self)@),
    {
        let mut kept: Vec<BodySegment> = Vec::new();
        let mut i: usize = 0;
        proof {
            reveal(Seq::filter);
        }
        while i < self.segments.len()
            invariant
                i <= self.segments.len(),
                self.segments == old(self).segments,
                segments_of(kept@) == aged(segments_of(self.segments@.take(i as int))),
            decreases self.segments.len() - i,
        {
            let s: BodySegment = self.segments[i];
            proof {
                let before = self.segments@.take(i as int);
                assert(self.segments@.take(i + 1) =~= before.push(s));
                assert(segments_of(before.push(s)) =~= segments_of(before).push(s@));
                lemma_aged_push(segments_of(before), s@);
            }
            if s.ttl > 1 {
                kept.push(BodySegment { position: s.position, ttl: s.ttl - 1 });
            }
            i += 1;
        }
        assert(self.segments@.take(i as int) =~= self.segments@);
        self.segments = kept;
    }

    /// Gives every segment one more tick to live.
    pub fn extend(&mut self)
        requires
            forall|i: int| 0 <= i < old(self)@.len() ==> (#[trigger] old(self)@[i]).ttl < u32::MAX,
        ensures
            final(self)@ == extended(old(self)@),
    {
        let mut i: usize = 0;
        while i < self.segments.len()
            invariant
                i <= self.segments.len(),
                self.segments.len() == old(self).segments.len(),
                forall|k: int|
                    0 <= k < i ==> (#[trigger] self.segments[k])@ == renewed(old(self).segments[k]@),
                forall|k: int|
                    i <= k < self.segments.len() ==> (#[trigger] self.segments[k])
                        == old(self).segments[k],
                forall|k: int| 0 <= k < old(self)@.len() ==> (#[trigger] old(self)@[k]).ttl < u32::MAX,
            decreases self.segments.len() - i,
        {
            let s: BodySegment = self.segments[i];
            assert(old(self)@[i as int] == s@);
            self.segments.set(i, BodySegment { position: s.position, ttl: s.ttl + 1 });
            i += 1;
        }
    }

    /// Tells whether some segment overlaps the cell at `target`.
    pub fn touches(&self, target: Position) -> (b: bool)
        ensures
            b == touches(self@, target@),
    {
        let mut i: usize = 0;
        while i < self.segments.len()
            invariant
                i <= self.segments.len(),
                forall|k: int| 0 <= k < i ==> !(#[trigger] self@[k]).position.overlaps(target@),
            decreases self.segments.len() - i,
        {
            if self.segments[i].position.overlaps(target) {
                assert(self@[i as int].position.overlaps(target@));
                return true;
            }
            i += 1;
        }
        false
    }
}

} // verus!
