//! Geometry shapes and their traversal adaptors. Composite shapes implement
//! the traversal purely by recursing into their elements and forwarding the
//! closure, so new shapes never touch projection code.

use vstd::prelude::*;

use crate::errors::Error;
use crate::transform::{first_failure, Transform, TransformClosure};

verus! {

/// A single leaf coordinate pair.
#[derive(Debug, Clone, Copy)]
pub struct Coord<T> {
    pub x: T,
    pub y: T,
}

/// A point: one coordinate.
#[derive(Debug, Clone, Copy)]
pub struct Point<T>(pub Coord<T>);

/// A collection of points, traversed in order.
#[derive(Debug, Clone)]
pub struct MultiPoint<T>(pub Vec<Point<T>>);

/// A segment between two endpoints. It is reconstructed from its two
/// independently transformed endpoints rather than mutated field by field.
#[derive(Debug, Clone, Copy)]
pub struct Line<T> {
    pub start: Coord<T>,
    pub end: Coord<T>,
}

/// A chain of coordinates, traversed in order.
#[derive(Debug, Clone)]
pub struct LineString<T>(pub Vec<Coord<T>>);

impl<T: Copy> Line<T> {
    pub fn new(start: Coord<T>, end: Coord<T>) -> (r: Line<T>)
        ensures
            r.start == start,
            r.end == end,
    {
        Line { start, end }
    }
}

impl<T: Copy> Transform<T> for Coord<T> {
    open spec fn leaves(&self) -> Seq<(T, T)> {
        seq![(self.x, self.y)]
    }

    fn transform_coordinates<F: TransformClosure<T>>(&mut self, f: &mut F) -> (r: Result<
        (),
        Error,
    >) {
        proof {
            assert(old(self).leaves()[0] == (old(self).x, old(self).y));
        }
        match f.transform(self.x, self.y) {
            Ok(xy) => {
                *self = Coord { x: xy.0, y: xy.1 };
                proof {
                    assert(self.leaves()[0] == (self.x, self.y));
                }
                Ok(())
            },
            Err(e) => {
                proof {
                    assert(first_failure(*f, old(self).leaves(), 0, e));
                }
                Err(e)
            },
        }
    }
}

impl<T: Copy> Transform<T> for Point<T> {
    open spec fn leaves(&self) -> Seq<(T, T)> {
        self.0.leaves()
    }

    fn transform_coordinates<F: TransformClosure<T>>(&mut self, f: &mut F) -> (r: Result<
        (),
        Error,
    >) {
        self.0.transform_coordinates(f)
    }
}

impl<T: Copy> Transform<T> for Line<T> {
    open spec fn leaves(&self) -> Seq<(T, T)> {
        seq![(self.start.x, self.start.y), (self.end.x, self.end.y)]
    }

    fn transform_coordinates<F: TransformClosure<T>>(&mut self, f: &mut F) -> (r: Result<
        (),
        Error,
    >) {
        let ghost before = old(self).leaves();
        proof {
            assert(before[0] == (old(self).start.x, old(self).start.y));
            assert(before[1] == (old(self).end.x, old(self).end.y));
        }
        let mut start = self.start;
        let mut end = self.end;
        let ghost s0 = start;
        match start.transform_coordinates(f) {
            Ok(()) => {
                proof {
                    assert(s0.leaves()[0] == before[0]);
                    assert(start.leaves()[0] == (start.x, start.y));
                    assert(f.succeeds(before[0].0, before[0].1));
                    assert((start.x, start.y) == f.image(before[0].0, before[0].1));
                }
            },
            Err(e) => {
                proof {
                    assert(s0.leaves()[0] == before[0]);
                    let k = choose|k: int| first_failure(*f, s0.leaves(), k, e);
                    assert(k == 0);
                    assert(first_failure(*f, before, 0, e));
                }
                return Err(e);
            },
        }
        let ghost e0 = end;
        match end.transform_coordinates(f) {
            Ok(()) => {
                proof {
                    assert(e0.leaves()[0] == before[1]);
                    assert(end.leaves()[0] == (end.x, end.y));
                    assert(f.succeeds(before[1].0, before[1].1));
                    assert((end.x, end.y) == f.image(before[1].0, before[1].1));
                }
            },
            Err(e) => {
                proof {
                    assert(e0.leaves()[0] == before[1]);
                    let k = choose|k: int| first_failure(*f, e0.leaves(), k, e);
                    assert(k == 0);
                    assert(first_failure(*f, before, 1, e));
                }
                return Err(e);
            },
        }
        *self = Line::new(start, end);
        proof {
            assert(self.leaves()[0] == (self.start.x, self.start.y));
            assert(self.leaves()[1] == (self.end.x, self.end.y));
        }
        Ok(())
    }
}

impl<T: Copy> Transform<T> for MultiPoint<T> {
    open spec fn leaves(&self) -> Seq<(T, T)> {
        Seq::new(self.0@.len(), |i: int| (self.0@[i].0.x, self.0@[i].0.y))
    }

    fn transform_coordinates<F: TransformClosure<T>>(&mut self, f: &mut F) -> (r: Result<
        (),
        Error,
    >) {
        let ghost before = old(self).leaves();
        let n = self.0.len();
        let mut i: usize = 0;
        while i < n
            invariant
                i <= n,
                n == self.0@.len(),
                before == old(self).leaves(),
                before.len() == n,
                *f == *old(f),
                forall|j: int|
                    #![trigger before[j]]
                    0 <= j < i ==> f.succeeds(before[j].0, before[j].1),
                forall|j: int|
                    #![trigger self.0@[j]]
                    0 <= j < i ==> (self.0@[j].0.x, self.0@[j].0.y) == f.image(
                        before[j].0,
                        before[j].1,
                    ),
                forall|j: int| #![trigger self.0@[j]] i <= j < n ==> self.0@[j] == old(self).0@[j],
            decreases n - i,
        {
            proof {
                assert(self.0@[i as int] == old(self).0@[i as int]);
                assert(before[i as int] == (self.0@[i as int].0.x, self.0@[i as int].0.y));
            }
            let mut p = self.0[i];
            let ghost p0 = p;
            match p.transform_coordinates(f) {
                Ok(()) => {
                    proof {
                        assert(p0.leaves()[0] == before[i as int]);
                        assert(p.leaves()[0] == (p.0.x, p.0.y));
                        assert(f.succeeds(before[i as int].0, before[i as int].1));
                        assert((p.0.x, p.0.y) == f.image(before[i as int].0, before[i as int].1));
                    }
                    self.0.set(i, p);
                },
                Err(e) => {
                    proof {
                        assert(p0.leaves()[0] == before[i as int]);
                        let k = choose|k: int| first_failure(*f, p0.leaves(), k, e);
                        assert(k == 0);
                        assert(first_failure(*old(f), before, i as int, e));
                        assert forall|j: int|
                            0 <= j < before.len() implies #[trigger] self.leaves()[j] == before[j]
                            || (f.succeeds(before[j].0, before[j].1) && self.leaves()[j] == f.image(
                            before[j].0,
                            before[j].1,
                        )) by {
                            assert(self.leaves()[j] == (self.0@[j].0.x, self.0@[j].0.y));
                            if j >= i {
                                assert(self.0@[j] == old(self).0@[j]);
                                assert(before[j] == (old(self).0@[j].0.x, old(self).0@[j].0.y));
                            }
                        }
                    }
                    return Err(e);
                },
            }
            i += 1;
        }
        proof {
            assert forall|j: int| 0 <= j < before.len() implies f.succeeds(before[j].0, before[j].1)
                && #[trigger] self.leaves()[j] == f.image(before[j].0, before[j].1) by {
                assert(self.leaves()[j] == (self.0@[j].0.x, self.0@[j].0.y));
            }
        }
        Ok(())
    }
}

impl<T: Copy> Transform<T> for LineString<T> {
    open spec fn leaves(&self) -> Seq<(T, T)> {
        Seq::new(self.0@.len(), |i: int| (self.0@[i].x, self.0@[i].y))
    }

    fn transform_coordinates<F: TransformClosure<T>>(&mut self, f: &mut F) -> (r: Result<
        (),
        Error,
    >) {
        let ghost before = old(self).leaves();
        let n = self.0.len();
        let mut i: usize = 0;
        while i < n
            invariant
                i <= n,
                n == self.0@.len(),
                before == old(self).leaves(),
                before.len() == n,
                *f == *old(f),
                forall|j: int|
                    #![trigger before[j]]
                    0 <= j < i ==> f.succeeds(before[j].0, before[j].1),
                forall|j: int|
                    #![trigger self.0@[j]]
                    0 <= j < i ==> (self.0@[j].x, self.0@[j].y) == f.image(before[j].0, before[j].1),
                forall|j: int| #![trigger self.0@[j]] i <= j < n ==> self.0@[j] == old(self).0@[j],
            decreases n - i,
        {
            proof {
                assert(self.0@[i as int] == old(self).0@[i as int]);
                assert(before[i as int] == (self.0@[i as int].x, self.0@[i as int].y));
            }
            let mut c = self.0[i];
            let ghost c0 = c;
            match c.transform_coordinates(f) {
                Ok(()) => {
                    proof {
                        assert(c0.leaves()[0] == before[i as int]);
                        assert(c.leaves()[0] == (c.x, c.y));
                        assert(f.succeeds(before[i as int].0, before[i as int].1));
                        assert((c.x, c.y) == f.image(before[i as int].0, before[i as int].1));
                    }
                    self.0.set(i, c);
                },
                Err(e) => {
                    proof {
                        assert(c0.leaves()[0] == before[i as int]);
                        let k = choose|k: int| first_failure(*f, c0.leaves(), k, e);
                        assert(k == 0);
                        assert(first_failure(*old(f), before, i as int, e));
                        assert forall|j: int|
                            0 <= j < before.len() implies #[trigger] self.leaves()[j] == before[j]
                            || (f.succeeds(before[j].0, before[j].1) && self.leaves()[j] == f.image(
                            before[j].0,
                            before[j].1,
                        )) by {
                            assert(self.leaves()[j] == (self.0@[j].x, self.0@[j].y));
                            if j >= i {
                                assert(self.0@[j] == old(self).0@[j]);
                                assert(before[j] == (old(self).0@[j].x, old(self).0@[j].y));
                            }
                        }
                    }
                    return Err(e);
                },
            }
            i += 1;
        }
        proof {
            assert forall|j: int| 0 <= j < before.len() implies f.succeeds(before[j].0, before[j].1)
                && #[trigger] self.leaves()[j] == f.image(before[j].0, before[j].1) by {
                assert(self.leaves()[j] == (self.0@[j].x, self.0@[j].y));
            }
        }
        Ok(())
    }
}

} // verus!
