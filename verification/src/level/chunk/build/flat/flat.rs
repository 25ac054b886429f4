//! Horizontal layers of blocks.

use vstd::prelude::*;
use crate::block::blocks::Block;
use crate::utils::position::global::{GlobalPosition, GlobalUnit};

verus! {

/// A horizontal layer of one kind of block: it reaches from its first
/// height up to, and not including, its second height.
pub struct Strata(pub GlobalUnit, pub GlobalUnit, pub Block);

impl Strata {
    /// Whether the layer holds the height `y`.
    pub open spec fn holds(self, y: int) -> bool {
        self.0@ <= y < self.1@
    }
}

/// A world of horizontal layers. Where layers overlap, the one that was
/// added first counts; where there is none, there is air.
pub struct StrataDescription(Vec<Strata>);

impl StrataDescription {
    /// The layers in the order in which they were added.
    pub closed spec fn view(&self) -> Seq<Strata> {
        self.0@
    }

    /// The block at the height `y` in a world of the given layers: that of
    /// the first layer that holds `y`, or air.
    pub open spec fn block_at(layers: Seq<Strata>, y: int) -> Block
        decreases layers.len(),
    {
        if layers.len() == 0 {
            Block::Air
        } else if layers[0].holds(y) {
            layers[0].2
        } else {
            Self::block_at(layers.subrange(1, layers.len() as int), y)
        }
    }

    /// Creates a world without layers.
    pub fn new() -> (r: Self)
        ensures
            r@ == Seq::<Strata>::empty(),
    {
        Self(Vec::new())
    }

    /// Adds a layer, behind those that are there.
    pub fn add(&mut self, strata: Strata)
        ensures
            final(self)@ == old(self)@.push(strata),
    {
        self.0.push(strata);
    }

    /// Returns the block at `position`, which depends on its height alone.
    pub fn get(&self, position: GlobalPosition) -> (r: Block)
        ensures
            r == Self::block_at(self@, position.1@),
    {
        let y = position.1.0;
        let mut i: usize = 0;
        assert(self.0@.subrange(0, self.0@.len() as int) =~= self.0@);
        while i < self.0.len()
            invariant
                i <= self.0@.len(),
                y == position.1@,
                Self::block_at(self.0@, y as int) == Self::block_at(
                    self.0@.subrange(i as int, self.0@.len() as int),
                    y as int,
                ),
            decreases self.0@.len() - i,
        {
            let strata = &self.0[i];
            let ghost rest = self.0@.subrange(i as int, self.0@.len() as int);
            assert(rest[0] == self.0@[i as int]);
            assert(rest.subrange(1, rest.len() as int) =~= self.0@.subrange(
                i as int + 1,
                self.0@.len() as int,
            ));
            if strata.0.0 <= y && y < strata.1.0 {
                return strata.2;
            }
            i = i + 1;
        }
        assert(self.0@.subrange(i as int, self.0@.len() as int).len() == 0);
        Block::Air
    }

    /// A world without layers is air, and a layer that is added shows only
    /// where no older layer is seen.
    pub proof fn lemma_block_at_push(layers: Seq<Strata>, strata: Strata, y: int)
        ensures
            Self::block_at(Seq::empty(), y) == Block::Air,
            Self::block_at(layers.push(strata), y) == if exists|i: int|
                0 <= i < layers.len() && (#[trigger] layers[i]).holds(y) {
                Self::block_at(layers, y)
            } else if strata.holds(y) {
                strata.2
            } else {
                Block::Air
            },
        decreases layers.len(),
    {
        if layers.len() == 0 {
            assert(layers.push(strata).subrange(1, 1) =~= Seq::<Strata>::empty());
        } else {
            let rest = layers.subrange(1, layers.len() as int);
            assert(layers.push(strata).subrange(1, layers.len() as int + 1) =~= rest.push(strata));
            if layers[0].holds(y) {
            } else {
                Self::lemma_block_at_push(rest, strata, y);
                if exists|i: int| 0 <= i < rest.len() && (#[trigger] rest[i]).holds(y) {
                    let i = choose|i: int| 0 <= i < rest.len() && (#[trigger] rest[i]).holds(y);
                    assert(layers[i + 1].holds(y));
                } else {
                    assert forall|i: int| 0 <= i < layers.len() implies !(
                    #[trigger] layers[i]).holds(y) by {
                        if i > 0 {
                            assert(rest[i - 1] == layers[i]);
                        }
                    }
                }
            }
        }
    }
}

} // verus!
