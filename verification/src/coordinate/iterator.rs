//! Contains [`CoordinateIterator`] an iterators for [`Coordinate`].
//! It is the type returned by [`Coordinate::into_iter`], [`Coordinate::iter`]
//! and [`Coordinate::iter_mut`].

use vstd::prelude::*;

use super::{Axis2D, Coordinate};

verus! {

/// The number of positions before the one that `val` marks: the position of
/// an axis, and `2` where there is no axis.
pub open spec fn mark(val: Option<Axis2D>) -> nat {
    match val {
        Some(axis) => axis.position(),
        None => 2,
    }
}

/// The steps of the two ends of a [`CoordinateIterator`].
impl Axis2D {
    /// gives the next index when use to index the front of [`CoordinateIterator`]
    pub fn next(self) -> (r: Option<Self>)
        ensures
            mark(r) == self.position() + 1,
    {
        match self {
            Self::Vertical => Some(Self::Horizontal),
            Self::Horizontal => None,
        }
    }

    /// gives the previous index when use to index the back of [`CoordinateIterator`]
    pub fn next_back(val: Option<Self>) -> (r: Option<Self>)
        ensures
            mark(val) > 0 ==> mark(r) == mark(val) - 1,
            mark(val) == 0 ==> r is None,
    {
        match val {
            Some(Self::Vertical) => None,
            Some(Self::Horizontal) => Some(Self::Vertical),
            None => Some(Self::Horizontal),
        }
    }

    /// gives the size hint for the index that should be used as `back - front`
    pub fn size_hint(val: Option<Self>) -> (r: usize)
        ensures
            r == mark(val),
    {
        match val {
            Some(axis) => axis.to_index(),
            None => 2_usize,
        }
    }
}

/// Iterator on a coordinate [`Coordinate`]: it hands out the x coordinate,
/// then the y coordinate, from the front, or the same in reverse from the
/// back.
#[derive(Debug, Clone, PartialEq, Eq, Hash)]
pub struct CoordinateIterator<T> {
    /// the storage of the iterator. As an [`Option`] in order to be able to move T and
    /// leave [`None`] behind.
    coord: Coordinate<Option<T>>,
    /// index on the front of the iterator
    front: Option<Axis2D>,
    /// index on the back of the iterator
    back: Option<Axis2D>,
}

impl<T> CoordinateIterator<T> {
    /// The front never passes the back, and every coordinate between them is
    /// still there.
    pub closed spec fn wf(self) -> bool {
        &&& mark(self.front) <= mark(self.back)
        &&& (mark(self.front) <= 0 && 0 < mark(self.back)) ==> self.coord.x is Some
        &&& (mark(self.front) <= 1 && 1 < mark(self.back)) ==> self.coord.y is Some
    }

    /// The items that the iterator has still to hand out, front first.
    pub closed spec fn remaining(self) -> Seq<T> {
        if mark(self.front) >= mark(self.back) {
            Seq::empty()
        } else if mark(self.front) == 0 && mark(self.back) == 2 {
            seq![self.coord.x->0, self.coord.y->0]
        } else if mark(self.front) == 0 {
            seq![self.coord.x->0]
        } else {
            seq![self.coord.y->0]
        }
    }

    /// Create a new iterator from a [`Coordinate`].
    pub fn new(coord: Coordinate<T>) -> (r: Self)
        ensures
            r.wf(),
            r.remaining() == seq![coord.x, coord.y],
    {
        Self { coord: Coordinate::new(Some(coord.x), Some(coord.y)), front: Some(Axis2D::Vertical), back: None }
    }

    /// converts a `&CoordinateIterator<T>` into a `CoordinateIterator<&T>`.
    pub fn as_ref(&self) -> (r: CoordinateIterator<&T>)
        ensures
            self.wf() ==> r.wf(),
            r.remaining().len() == self.remaining().len(),
            self.wf() ==> forall|i: int|
                0 <= i < self.remaining().len() ==> *r.remaining()[i] == self.remaining()[i],
    {
        CoordinateIterator {
            coord: Coordinate::new(self.coord.x.as_ref(), self.coord.y.as_ref()),
            front: self.front,
            back: self.back,
        }
    }

    /// converts a `&mut CoordinateIterator<T>` into a `CoordinateIterator<&mut T>`.
    pub fn as_mut(&mut self) -> (r: CoordinateIterator<&mut T>)
        requires
            old(self).wf(),
        ensures
            r.wf(),
            r.remaining().len() == old(self).remaining().len(),
            forall|i: int|
                0 <= i < old(self).remaining().len() ==> *r.remaining()[i] == old(
                    self,
                ).remaining()[i],
            final(self).wf(),
            final(self).remaining().len() == old(self).remaining().len(),
            forall|i: int|
                0 <= i < old(self).remaining().len() ==> final(self).remaining()[i] == *final(r.remaining()[i]),
    {
        CoordinateIterator {
            coord: Coordinate::new(self.coord.x.as_mut(), self.coord.y.as_mut()),
            front: self.front,
            back: self.back,
        }
    }

    /// The number of items that the iterator has still to hand out, as the
    /// lower and the upper bound that an iterator states.
    pub fn size_hint(&self) -> (r: (usize, Option<usize>))
        requires
            self.wf(),
        ensures
            r.0 == self.remaining().len(),
            r.1 == Some(r.0),
    {
        let val: usize = Axis2D::size_hint(self.back) - Axis2D::size_hint(self.front);
        (val, Some(val))
    }

    /// Hands out the item at the front, if there is one left.
    pub fn next(&mut self) -> (r: Option<T>)
        requires
            old(self).wf(),
        ensures
            final(self).wf(),
            old(self).remaining().len() == 0 ==> r is None && final(self).remaining() == old(
                self,
            ).remaining(),
            old(self).remaining().len() > 0 ==> r == Some(old(self).remaining()[0])
                && final(self).remaining() == old(self).remaining().drop_first(),
    {
        if Axis2D::size_hint(self.front) == Axis2D::size_hint(self.back) {
            return None;
        }
        match self.front {
            Some(Axis2D::Vertical) => {
                self.front = Some(Axis2D::Horizontal);
                let val = self.coord.x.take();
                assert(final(self).remaining() =~= old(self).remaining().drop_first());
                val
            },
            Some(Axis2D::Horizontal) => {
                self.front = None;
                let val = self.coord.y.take();
                assert(final(self).remaining() =~= old(self).remaining().drop_first());
                val
            },
            None => None,
        }
    }

    /// Hands out the item at the back, if there is one left.
    pub fn next_back(&mut self) -> (r: Option<T>)
        requires
            old(self).wf(),
        ensures
            final(self).wf(),
            old(self).remaining().len() == 0 ==> r is None && final(self).remaining() == old(
                self,
            ).remaining(),
            old(self).remaining().len() > 0 ==> r == Some(old(self).remaining().last())
                && final(self).remaining() == old(self).remaining().drop_last(),
    {
        if Axis2D::size_hint(self.front) == Axis2D::size_hint(self.back) {
            return None;
        }
        self.back = Axis2D::next_back(self.back);
        match self.back {
            Some(Axis2D::Vertical) => {
                let val = self.coord.x.take();
                assert(final(self).remaining() =~= old(self).remaining().drop_last());
                val
            },
            Some(Axis2D::Horizontal) => {
                let val = self.coord.y.take();
                assert(final(self).remaining() =~= old(self).remaining().drop_last());
                val
            },
            None => None,
        }
    }
}

/// Used for [`CoordinateIterator::new`].
impl<T> From<Coordinate<T>> for Coordinate<Option<T>> {
    fn from(coord: Coordinate<T>) -> (r: Self) {
        Self::new(Some(coord.x), Some(coord.y))
    }
}

impl<T> vstd::std_specs::convert::FromSpecImpl<Coordinate<T>> for Coordinate<Option<T>> {
    open spec fn obeys_from_spec() -> bool {
        true
    }

    open spec fn from_spec(coord: Coordinate<T>) -> Self {
        Coordinate { x: Some(coord.x), y: Some(coord.y) }
    }
}

impl<T> Coordinate<T> {
    /// Get an iterator that hands out the coordinate elements
    pub fn into_iter(self) -> (r: CoordinateIterator<T>)
        ensures
            r.wf(),
            r.remaining() == seq![self.x, self.y],
    {
        CoordinateIterator::new(self)
    }

    /// Get an iterator on the coordinate elements
    pub fn iter(&self) -> (r: CoordinateIterator<&T>)
        ensures
            r.wf(),
            r.remaining().len() == 2,
            *r.remaining()[0] == self.x,
            *r.remaining()[1] == self.y,
    {
        CoordinateIterator::new(self.as_ref())
    }

    /// Get an iterator on the coordinate elements as mutable reference
    pub fn iter_mut(&mut self) -> (r: CoordinateIterator<&mut T>)
        ensures
            r.wf(),
            r.remaining().len() == 2,
            *r.remaining()[0] == old(self).x,
            *r.remaining()[1] == old(self).y,
            *final(self) == (Coordinate {
                x: *final(r.remaining()[0]),
                y: *final(r.remaining()[1]),
            }),
    {
        CoordinateIterator::new(self.as_mut())
    }
}

/// Same as [`CoordinateIterator::as_ref`].
impl<'a, T> From<&'a CoordinateIterator<T>> for CoordinateIterator<&'a T> {
    fn from(value: &'a CoordinateIterator<T>) -> (r: Self)
        ensures
            value.wf() ==> r.wf(),
            r.remaining().len() == value.remaining().len(),
            value.wf() ==> forall|i: int|
                0 <= i < value.remaining().len() ==> *r.remaining()[i] == value.remaining()[i],
    {
        CoordinateIterator {
            coord: Coordinate::new(value.coord.x.as_ref(), value.coord.y.as_ref()),
            front: value.front,
            back: value.back,
        }
    }
}

impl<'a, T> vstd::std_specs::convert::FromSpecImpl<&'a CoordinateIterator<T>> for CoordinateIterator<&'a T> {
    open spec fn obeys_from_spec() -> bool {
        false
    }

    open spec fn from_spec(value: &'a CoordinateIterator<T>) -> Self {
        arbitrary()
    }
}

/// Create a new iterator with of a [`Coordinate`] with default element
impl<T: Default> Default for CoordinateIterator<T> {
    fn default() -> (r: Self)
        ensures
            r.wf(),
            r.remaining().len() == 2,
            T::default.ensures((), r.remaining()[0]),
            T::default.ensures((), r.remaining()[1]),
    {
        Self::new(Coordinate::default())
    }
}

/// equivalent as calling [`Coordinate::into_iter`].
impl<T> From<Coordinate<T>> for CoordinateIterator<T> {
    fn from(value: Coordinate<T>) -> (r: Self)
        ensures
            r.wf(),
            r.remaining() == seq![value.x, value.y],
    {
        value.into_iter()
    }
}

impl<T> vstd::std_specs::convert::FromSpecImpl<Coordinate<T>> for CoordinateIterator<T> {
    open spec fn obeys_from_spec() -> bool {
        false
    }

    open spec fn from_spec(value: Coordinate<T>) -> Self {
        arbitrary()
    }
}

/// equivalent as calling [`Coordinate::iter`].
impl<'a, T> From<&'a Coordinate<T>> for CoordinateIterator<&'a T> {
    fn from(value: &'a Coordinate<T>) -> (r: Self)
        ensures
            r.wf(),
            r.remaining().len() == 2,
            *r.remaining()[0] == value.x,
            *r.remaining()[1] == value.y,
    {
        value.iter()
    }
}

impl<'a, T> vstd::std_specs::convert::FromSpecImpl<&'a Coordinate<T>> for CoordinateIterator<&'a T> {
    open spec fn obeys_from_spec() -> bool {
        false
    }

    open spec fn from_spec(value: &'a Coordinate<T>) -> Self {
        arbitrary()
    }
}

/// equivalent as calling [`Coordinate::iter_mut`].
impl<'a, T> From<&'a mut Coordinate<T>> for CoordinateIterator<&'a mut T> {
    fn from(value: &'a mut Coordinate<T>) -> (r: Self)
        ensures
            r.wf(),
            r.remaining().len() == 2,
            *r.remaining()[0] == old(value).x,
            *r.remaining()[1] == old(value).y,
            *final(value) == (Coordinate {
                x: *final(r.remaining()[0]),
                y: *final(r.remaining()[1]),
            }),
    {
        value.iter_mut()
    }
}

impl<'a, T> vstd::std_specs::convert::FromSpecImpl<&'a mut Coordinate<T>> for CoordinateIterator<&'a mut T> {
    open spec fn obeys_from_spec() -> bool {
        false
    }

    open spec fn from_spec(value: &'a mut Coordinate<T>) -> Self {
        arbitrary()
    }
}

} // verus!
