//! The colour cycler: a fixed palette and the colour now shown.

use crate::chance::draw_other;
use vstd::prelude::*;

verus! {

/// A colour as three 8-bit channels.
#[derive(Clone, Copy, Debug, PartialEq, Eq, Structural)]
pub struct Rgb {
    pub red: u8,
    pub green: u8,
    pub blue: u8,
}

/// The index that a draw among the other colours stands for.
///
/// A palette of `n` colours leaves `n - 1` others beside the current one. The
/// draws `0..n - 1` number them in palette order, passing over `current`.
pub open spec fn skip_over(current: nat, draw: nat) -> nat {
    if draw < current {
        draw
    } else {
        draw + 1
    }
}

/// The draw that leads to `index`: the inverse of [`skip_over`].
pub open spec fn draw_for(current: nat, index: nat) -> nat {
    if index < current {
        index
    } else {
        (index - 1) as nat
    }
}

/// A palette of at least two colours, one of which is current.
pub struct Color {
    colors: Vec<Rgb>,
    index: usize,
}

impl Color {
    /// The colours, in the order given at construction.
    pub closed spec fn palette(&self) -> Seq<Rgb> {
        self.colors@
    }

    /// The index of the current colour.
    pub closed spec fn current(&self) -> nat {
        self.index as nat
    }

    /// There are at least two colours, and the current one is among them.
    pub open spec fn wf(&self) -> bool {
        &&& self.palette().len() >= 2
        &&& self.current() < self.palette().len()
    }

    /// A cycler over `colors` that shows `colors[index]`. Fewer than two
    /// colours, or an index outside the palette, give `None`.
    pub fn new(colors: Vec<Rgb>, index: usize) -> (made: Option<Color>)
        ensures
            made is Some <==> colors@.len() >= 2 && index < colors@.len(),
            made matches Some(c) ==> c.wf() && c.palette() == colors@ && c.current() == index,
    {
        if colors.len() >= 2 && index < colors.len() {
            Some(Color { colors, index })
        } else {
            None
        }
    }

    /// The number of colours.
    pub fn len(&self) -> (n: usize)
        ensures
            n == self.palette().len(),
    {
        self.colors.len()
    }

    /// The index of the current colour.
    pub fn index(&self) -> (i: usize)
        ensures
            i == self.current(),
    {
        self.index
    }

    /// The current colour.
    pub fn get(&self) -> (rgb: &Rgb)
        requires
            self.wf(),
        ensures
            *rgb == self.palette()[self.current() as int],
    {
        &self.colors[self.index]
    }

    /// Moves to the colour that `draw` picks among the others.
    pub fn advance(&mut self, draw: usize)
        requires
            old(self).wf(),
            draw + 1 < old(self).palette().len(),
        ensures
            final(self).wf(),
            final(self).palette() == old(self).palette(),
            final(self).current() == skip_over(old(self).current(), draw as nat),
    {
        if draw < self.index {
            self.index = draw;
        } else {
            assert(draw + 1 < self.colors.len());
            self.index = draw + 1;
        }
    }

    /// Moves to another colour, each of the others being equally likely.
    ///
    /// The draw is random, so the contract says what holds of every draw: the
    /// palette stays, and the new colour is one of the others.
    pub fn next(&mut self)
        requires
            old(self).wf(),
        ensures
            final(self).wf(),
            final(self).palette() == old(self).palette(),
            final(self).current() != old(self).current(),
    {
        let draw: usize = draw_other(self.colors.len());
        self.advance(draw);
    }
}

/// Every draw leads to a colour of the palette other than the current one.
pub proof fn lemma_skip_over_changes(current: nat, draw: nat, len: nat)
    requires
        current < len,
        draw + 1 < len,
    ensures
        skip_over(current, draw) != current,
        skip_over(current, draw) < len,
{
}

/// Two different draws lead to two different colours, and every colour but
/// the current one is reached by a draw. With draws that are equally likely,
/// so are the other colours.
pub proof fn lemma_skip_over_bijective(current: nat, len: nat)
    requires
        current < len,
    ensures
        forall|a: nat, b: nat|
            a + 1 < len && b + 1 < len && #[trigger] skip_over(current, a) == #[trigger] skip_over(
                current,
                b,
            ) ==> a == b,
        forall|index: nat|
            index < len && index != current ==> #[trigger] draw_for(current, index) + 1 < len
                && skip_over(current, draw_for(current, index)) == index,
{
}

} // verus!
