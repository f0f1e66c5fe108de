//! The generic geometry traversal framework: a per-coordinate transform
//! closure, the capability trait every geometry shape implements, and the
//! composed reprojection pipeline.
//!
//! Traversal is fail-fast: the first leaf coordinate the closure rejects
//! aborts the whole traversal and its error is returned; leaves transformed
//! before the failing one stay transformed (no rollback).

use vstd::prelude::*;

use crate::errors::Error;

verus! {

/// One fully composed per-coordinate transform step: a pure mapping from one
/// planar coordinate pair to another that may fail on some inputs. It is
/// stateless and deterministic: identical inputs give identical outcomes.
pub trait TransformClosure<T>: Sized {
    /// Whether the closure succeeds on the coordinate `(x, y)`.
    spec fn succeeds(&self, x: T, y: T) -> bool;

    /// The coordinate returned when the closure succeeds on `(x, y)`.
    spec fn image(&self, x: T, y: T) -> (T, T);

    /// The error returned when the closure fails on `(x, y)`.
    spec fn failure(&self, x: T, y: T) -> Error;

    /// Apply the transform to one coordinate pair.
    fn transform(&self, x: T, y: T) -> (r: Result<(T, T), Error>)
        ensures
            r is Ok <==> self.succeeds(x, y),
            r matches Ok(p) ==> p == self.image(x, y),
            r matches Err(e) ==> e == self.failure(x, y),
    ;
}

/// Every leaf with index below `k` satisfied the closure and was replaced by
/// its image under the closure.
pub open spec fn transformed_prefix<T, F: TransformClosure<T>>(
    f: F,
    before: Seq<(T, T)>,
    after: Seq<(T, T)>,
    k: int,
) -> bool {
    forall|i: int|
        #![trigger after[i]]
        0 <= i < k ==> f.succeeds(before[i].0, before[i].1) && after[i] == f.image(
            before[i].0,
            before[i].1,
        )
}

/// The traversal stopped at leaf `k`: every leaf before `k` satisfied the
/// closure, leaf `k` is the first one that did not, and the traversal
/// reported that leaf's error.
pub open spec fn first_failure<T, F: TransformClosure<T>>(
    f: F,
    before: Seq<(T, T)>,
    k: int,
    e: Error,
) -> bool {
    &&& 0 <= k < before.len()
    &&& !f.succeeds(before[k].0, before[k].1)
    &&& e == f.failure(before[k].0, before[k].1)
    &&& forall|i: int|
        #![trigger before[i]]
        0 <= i < k ==> f.succeeds(before[i].0, before[i].1)
}

/// No leaf ever holds anything but its original value or its image under the
/// closure: a traversal mutates in place and never invents coordinates.
pub open spec fn untouched_or_transformed<T, F: TransformClosure<T>>(
    f: F,
    before: Seq<(T, T)>,
    after: Seq<(T, T)>,
) -> bool {
    forall|i: int|
        #![trigger after[i]]
        0 <= i < before.len() ==> after[i] == before[i] || (f.succeeds(before[i].0, before[i].1)
            && after[i] == f.image(before[i].0, before[i].1))
}

/// The capability every geometry shape implements: apply a transform closure
/// to every leaf coordinate, in traversal order, mutating in place, aborting
/// at the first leaf the closure rejects.
pub trait Transform<T>: Sized {
    /// The leaf coordinates of the shape, in traversal order.
    spec fn leaves(&self) -> Seq<(T, T)>;

    fn transform_coordinates<F: TransformClosure<T>>(&mut self, f: &mut F) -> (r: Result<
        (),
        Error,
    >)
        ensures
            *final(f) == *old(f),
            final(self).leaves().len() == old(self).leaves().len(),
            untouched_or_transformed(*old(f), old(self).leaves(), final(self).leaves()),
            r is Ok ==> transformed_prefix(
                *old(f),
                old(self).leaves(),
                final(self).leaves(),
                old(self).leaves().len() as int,
            ),
            r matches Err(e) ==> exists|k: int| first_failure(*old(f), old(self).leaves(), k, e),
    ;
}

/// The composed reprojection pipeline: the source projection's inverse step
/// followed by the destination projection's forward step, as one closure.
pub struct Pipeline<A, B> {
    pub src_step: A,
    pub dst_step: B,
}

impl<T: Copy, A: TransformClosure<T>, B: TransformClosure<T>> TransformClosure<T> for Pipeline<
    A,
    B,
> {
    open spec fn succeeds(&self, x: T, y: T) -> bool {
        self.src_step.succeeds(x, y) && self.dst_step.succeeds(
            self.src_step.image(x, y).0,
            self.src_step.image(x, y).1,
        )
    }

    open spec fn image(&self, x: T, y: T) -> (T, T) {
        self.dst_step.image(self.src_step.image(x, y).0, self.src_step.image(x, y).1)
    }

    open spec fn failure(&self, x: T, y: T) -> Error {
        if !self.src_step.succeeds(x, y) {
            self.src_step.failure(x, y)
        } else {
            self.dst_step.failure(self.src_step.image(x, y).0, self.src_step.image(x, y).1)
        }
    }

    fn transform(&self, x: T, y: T) -> (r: Result<(T, T), Error>) {
        match self.src_step.transform(x, y) {
            Ok(p) => self.dst_step.transform(p.0, p.1),
            Err(e) => Err(e),
        }
    }
}

/// A geographic source or destination: coordinates are already longitude and
/// latitude in radians, so the step changes nothing and never fails.
pub struct GeographicStep;

impl<T: Copy> TransformClosure<T> for GeographicStep {
    open spec fn succeeds(&self, x: T, y: T) -> bool {
        true
    }

    open spec fn image(&self, x: T, y: T) -> (T, T) {
        (x, y)
    }

    open spec fn failure(&self, x: T, y: T) -> Error {
        Error::CoordinateOutOfRange
    }

    fn transform(&self, x: T, y: T) -> (r: Result<(T, T), Error>) {
        Ok((x, y))
    }
}

/// Transform every leaf coordinate of a geometry value through the pipeline
/// composed of a source step and a destination step, in place, fail-fast.
pub fn transform<T: Copy, A: TransformClosure<T>, B: TransformClosure<T>, G: Transform<T>>(
    src_step: A,
    dst_step: B,
    geometry: &mut G,
) -> (r: Result<(), Error>)
    ensures
        final(geometry).leaves().len() == old(geometry).leaves().len(),
        untouched_or_transformed(
            (Pipeline { src_step, dst_step }),
            old(geometry).leaves(),
            final(geometry).leaves(),
        ),
        r is Ok ==> transformed_prefix(
            (Pipeline { src_step, dst_step }),
            old(geometry).leaves(),
            final(geometry).leaves(),
            old(geometry).leaves().len() as int,
        ),
        r matches Err(e) ==> exists|k: int|
            first_failure((Pipeline { src_step, dst_step }), old(geometry).leaves(), k, e),
{
    let mut pipeline = Pipeline { src_step, dst_step };
    geometry.transform_coordinates(&mut pipeline)
}

/// Transforming a batch of identical coordinates gives identical outputs,
/// each equal to the single-coordinate result of the closure.
pub proof fn lemma_identical_leaves_identical_images<T, F: TransformClosure<T>>(
    f: F,
    before: Seq<(T, T)>,
    after: Seq<(T, T)>,
    x: T,
    y: T,
)
    requires
        before.len() == after.len(),
        transformed_prefix(f, before, after, before.len() as int),
        forall|i: int| #![trigger before[i]] 0 <= i < before.len() ==> before[i] == (x, y),
    ensures
        forall|i: int| #![trigger after[i]] 0 <= i < after.len() ==> after[i] == f.image(x, y),
{
    assert forall|i: int| #![trigger after[i]] 0 <= i < after.len() implies after[i] == f.image(
        x,
        y,
    ) by {
        assert(before[i] == (x, y));
        assert(after[i] == f.image(before[i].0, before[i].1));
    }
}

/// Fail-fast: a traversal can never report that every leaf was transformed
/// when some leaf is one the closure rejects, so a batch holding a failing
/// coordinate never returns a silently truncated success.
pub proof fn lemma_failing_leaf_forbids_success<T, F: TransformClosure<T>>(
    f: F,
    before: Seq<(T, T)>,
    after: Seq<(T, T)>,
    k: int,
)
    requires
        0 <= k < before.len(),
        !f.succeeds(before[k].0, before[k].1),
    ensures
        !transformed_prefix(f, before, after, before.len() as int),
{
    if transformed_prefix(f, before, after, before.len() as int) {
        assert(after[k] == f.image(before[k].0, before[k].1));
        assert(f.succeeds(before[k].0, before[k].1));
    }
}

} // verus!
