use vstd::prelude::*;

verus! {

/// An axis held as a number: 0 stands for the x axis and 1 for the y axis.
/// It is used to look up values in 2d containers.
#[derive(Copy, Clone, Debug, PartialEq)]
#[must_use]
pub struct Axis(usize);

impl Axis {
    /// The number held is 0 or 1. Every `Axis` that this module hands out
    /// satisfies this.
    #[verifier::type_invariant]
    pub closed spec fn wf(self) -> bool {
        self.0 < 2
    }

    /// Whether this is the x axis.
    pub closed spec fn is_xaxis_spec(self) -> bool {
        self.0 == 0
    }

    /// The x axis for an even number, the y axis for an odd one.
    pub closed spec fn from_num_spec(num: usize) -> Axis {
        Axis(num % 2)
    }

    /// The other axis.
    pub closed spec fn next_spec(self) -> Axis {
        Axis((1 - self.0) as usize)
    }

    ///Returns x axis if the num is even.
    ///Returns y axis if the num is odd.
    pub fn from_num_even_xaxis(num: usize) -> (r: Axis)
        ensures
            r == Axis::from_num_spec(num),
            r.wf(),
            r.is_xaxis_spec() == (num % 2 == 0),
    {
        Axis(num % 2)
    }

    ///Returns the other axis.
    pub fn next(&self) -> (r: Axis)
        ensures
            r == self.next_spec(),
            r.wf(),
            r.is_xaxis_spec() != self.is_xaxis_spec(),
    {
        proof {
            use_type_invariant(self);
        }
        Axis(1 - self.0)
    }
}

/// Taking the other axis twice gives the axis back, and the other axis is
/// never the axis itself.
pub proof fn lemma_axis_next_involution(a: Axis)
    requires
        a.wf(),
    ensures
        a.next_spec().wf(),
        a.next_spec().next_spec() == a,
        a.next_spec().is_xaxis_spec() != a.is_xaxis_spec(),
{
}

/// An even number gives the x axis, an odd one the y axis, and these are
/// the only two axes there are.
pub proof fn lemma_axis_from_num(num: usize, a: Axis)
    requires
        a.wf(),
    ensures
        Axis::from_num_spec(num).wf(),
        Axis::from_num_spec(num).is_xaxis_spec() == (num % 2 == 0),
        a == Axis::from_num_spec(0) || a == Axis::from_num_spec(1),
        Axis::from_num_spec(0).next_spec() == Axis::from_num_spec(1),
{
}

///Iterator to iterate over the x and y axises.
pub struct AxisIter {
    val: usize,
}

impl AxisIter {
    /// The axes that are still to come, in the order in which they come.
    pub closed spec fn remaining(&self) -> Seq<Axis> {
        if self.val == 0 {
            seq![Axis::from_num_spec(0), Axis::from_num_spec(1)]
        } else if self.val == 1 {
            seq![Axis::from_num_spec(1)]
        } else {
            Seq::empty()
        }
    }

    /// Starts a new pass over the two axes: the x axis, then the y axis.
    pub fn new() -> (r: AxisIter)
        ensures
            r.remaining() == seq![Axis::from_num_spec(0), Axis::from_num_spec(1)],
    {
        AxisIter { val: 0 }
    }

    /// Hands out the next axis, or nothing once both were handed out.
    pub fn next(&mut self) -> (r: Option<Axis>)
        ensures
            old(self).remaining().len() == 0 ==> r is None && final(self).remaining()
                == old(self).remaining(),
            old(self).remaining().len() > 0 ==> r == Some(old(self).remaining()[0])
                && final(self).remaining() == old(self).remaining().drop_first(),
    {
        if self.val < 2 {
            let k = Some(Axis(self.val));
            self.val += 1;
            assert(final(self).remaining() =~= old(self).remaining().drop_first());
            k
        } else {
            None
        }
    }
}

///A 2d generic container. Elements can be accessed using an Axis.
#[derive(Copy, Clone, Debug)]
#[must_use]
pub struct VecCont<T> {
    x: T,
    y: T,
}

impl<T> VecCont<T> {
    /// The two elements: the one of the x axis, then the one of the y axis.
    pub closed spec fn view(&self) -> (T, T) {
        (self.x, self.y)
    }

    /// The element of the given axis.
    pub open spec fn get_axis_spec(&self, a: Axis) -> T {
        if a.is_xaxis_spec() {
            self@.0
        } else {
            self@.1
        }
    }

    /// Builds the container from the element of the x axis and the element
    /// of the y axis.
    pub fn new(x: T, y: T) -> (r: VecCont<T>)
        ensures
            r@ == (x, y),
    {
        VecCont { x, y }
    }

    /// The element of axis `a`, to be changed in place.
    pub fn get_axis_mut<'a>(&'a mut self, a: Axis) -> (r: &'a mut T)
        ensures
            *r == old(self).get_axis_spec(a),
            final(self)@ == (if a.is_xaxis_spec() {
                (*final(r), old(self)@.1)
            } else {
                (old(self)@.0, *final(r))
            }),
    {
        if a.0 == 0 {
            &mut self.x
        } else {
            &mut self.y
        }
    }

    /// The element of axis `a`.
    pub fn get_axis(&self, a: Axis) -> (r: &T)
        ensures
            *r == self.get_axis_spec(a),
    {
        if a.0 == 0 {
            &self.x
        } else {
            &self.y
        }
    }

    /// Both elements.
    pub fn get(&self) -> (r: (&T, &T))
        ensures
            *r.0 == self@.0,
            *r.1 == self@.1,
    {
        (&self.x, &self.y)
    }

    /// Both elements, to be changed in place.
    pub fn get_mut(&mut self) -> (r: (&mut T, &mut T))
        ensures
            *r.0 == old(self)@.0,
            *r.1 == old(self)@.1,
            final(self)@ == (*final(r.0), *final(r.1)),
    {
        (&mut self.x, &mut self.y)
    }
}

} // verus!
