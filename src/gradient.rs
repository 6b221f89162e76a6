use vstd::prelude::*;

use crate::color::Color;
use vstd::std_specs::cmp::PartialEqSpec;

verus! {

/// An ordered sequence of color stops, drawn as a one-pixel-tall strip
/// whose in-between colors come from texture sampling.
#[derive(Clone, Debug, Hash)]
pub struct Gradient(pub Vec<Color>);

impl View for Gradient {
    type V = Seq<Color>;

    open spec fn view(&self) -> Seq<Color> {
        self.0@
    }
}

impl Gradient {
    /// A gradient with the given stops, in the given order.
    pub fn construct(colors: Vec<Color>) -> (g: Gradient)
        ensures
            g@ == colors@,
    {
        Gradient(colors)
    }

    /// A gradient of one stop: a solid swatch.
    pub fn one_color(c: Color) -> (g: Gradient)
        ensures
            g@ == seq![c],
    {
        let mut v: Vec<Color> = Vec::new();
        v.push(c);
        proof {
            assert(v@ =~= seq![c]);
        }
        Gradient(v)
    }

    /// The number of stops.
    pub fn len(&self) -> (n: usize)
        ensures
            n == self@.len(),
    {
        self.0.len()
    }

    /// One pixel per stop, in stop order.
    pub fn to_pixel_row(&self) -> (row: Vec<Color>)
        ensures
            row@ == self@,
    {
        let mut row: Vec<Color> = Vec::new();
        let mut i: usize = 0;
        while i < self.0.len()
            invariant
                i <= self@.len(),
                row@ == self@.subrange(0, i as int),
            decreases self@.len() - i,
        {
            row.push(self.0[i]);
            i = i + 1;
            proof {
                assert(row@ =~= self@.subrange(0, i as int));
            }
        }
        proof {
            assert(row@ =~= self@);
        }
        row
    }
}

impl PartialEq for Gradient {
    fn eq(&self, other: &Gradient) -> (r: bool)
        ensures
            r == (self@ == other@),
    {
        if self.0.len() != other.0.len() {
            proof {
                assert(self@.len() != other@.len());
            }
            return false;
        }
        let mut i: usize = 0;
        while i < self.0.len()
            invariant
                i <= self@.len(),
                self@.len() == other@.len(),
                forall|j: int| 0 <= j < i ==> self@[j] == other@[j],
            decreases self@.len() - i,
        {
            if self.0[i] != other.0[i] {
                return false;
            }
            i = i + 1;
        }
        proof {
            assert(self@ =~= other@);
        }
        true
    }
}

impl vstd::std_specs::cmp::PartialEqSpecImpl for Gradient {
    open spec fn obeys_eq_spec() -> bool {
        true
    }

    open spec fn eq_spec(&self, other: &Gradient) -> bool {
        self@ == other@
    }
}

impl Eq for Gradient {
}

/// Two gradients with the same stops in the same order are equal keys.
pub proof fn lemma_same_stops_equal(g1: Gradient, g2: Gradient)
    requires
        g1@ == g2@,
    ensures
        g1.eq_spec(&g2),
        g2.eq_spec(&g1),
{
}

/// The order of the stops is part of the key: gradients whose stop
/// sequences differ, if only in order, are not equal.
pub proof fn lemma_order_sensitive(g1: Gradient, g2: Gradient)
    requires
        g1@ != g2@,
    ensures
        !g1.eq_spec(&g2),
{
}

} // verus!
