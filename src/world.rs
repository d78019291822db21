//! The world probe: what the engine knows of each voxel.
//!
//! A voxel the world has no data for is "unresolved"; the engine treats it as
//! passable with the default friction.
use vstd::prelude::*;
use crate::fixed::SCALE;
use crate::geometry::BlockLocation;

verus! {

/// Friction of an ordinary block, and of a voxel without data.
pub const DEFAULT_SLIP: i128 = 600_000_000_000_000;

/// The smallest friction coefficient a block may have.
pub const SLIP_MIN: i128 = 100_000_000_000_000;

/// How a voxel affects movement.
#[derive(Clone, Copy, Debug, PartialEq, Eq, Structural)]
pub enum SimpleType {
    Solid,
    WalkThrough,
    Water,
}

/// A known voxel: its class and its friction coefficient ("slip").
#[derive(Clone, Copy, Debug, PartialEq, Eq, Structural)]
pub struct Block {
    pub kind: SimpleType,
    pub slip: i128,
}

/// A friction coefficient between `SLIP_MIN` and one.
pub open spec fn valid_slip(s: int) -> bool {
    SLIP_MIN <= s <= SCALE
}

impl Block {
    pub open spec fn wf(&self) -> bool {
        valid_slip(self.slip as int)
    }
}

/// The block most recently stored at `p` among `s`, if any.
pub open spec fn lookup(s: Seq<(BlockLocation, Block)>, p: BlockLocation) -> Option<Block>
    decreases s.len(),
{
    if s.len() == 0 {
        None
    } else if s.last().0 == p {
        Some(s.last().1)
    } else {
        lookup(s.drop_last(), p)
    }
}

/// Replacing the last entry stored at `p` changes what is seen at `p` alone.
proof fn lemma_lookup_update(s: Seq<(BlockLocation, Block)>, i: int, p: BlockLocation, b: Block, q: BlockLocation)
    requires
        0 <= i < s.len(),
        s[i].0 == p,
        forall|j: int| i < j < s.len() ==> s[j].0 != p,
    ensures
        lookup(s.update(i, (p, b)), q) == if q == p { Some(b) } else { lookup(s, q) },
    decreases s.len(),
{
    let t = s.update(i, (p, b));
    assert(t.drop_last() =~= if i == s.len() - 1 { s.drop_last() } else { s.drop_last().update(i, (p, b)) });
    if i < s.len() - 1 {
        assert(s.last().0 != p);
        if s.last().0 != q {
            lemma_lookup_update(s.drop_last(), i, p, b, q);
        }
    }
}

/// The voxels the engine can see, each with its class and friction.
pub struct World {
    entries: Vec<(BlockLocation, Block)>,
}

impl World {
    /// What is known of the voxel at `p` (`None`: unresolved).
    pub closed spec fn block_at(&self, p: BlockLocation) -> Option<Block> {
        lookup(self.entries@, p)
    }

    /// Every stored block has a valid friction coefficient.
    pub closed spec fn wf(&self) -> bool {
        forall|k: int| 0 <= k < self.entries@.len() ==> (#[trigger] self.entries@[k]).1.wf()
    }

    /// The class of the voxel at `p`, if known.
    pub open spec fn spec_classify(&self, p: BlockLocation) -> Option<SimpleType> {
        match self.block_at(p) {
            Some(b) => Some(b.kind),
            None => None,
        }
    }

    /// The friction of the voxel at `p`, or the default when unresolved.
    pub open spec fn spec_slip_of(&self, p: BlockLocation) -> i128 {
        match self.block_at(p) {
            Some(b) => b.slip,
            None => DEFAULT_SLIP,
        }
    }

    /// The voxel at `p` is known to be solid.
    pub open spec fn is_solid(&self, p: BlockLocation) -> bool {
        self.spec_classify(p) == Some(SimpleType::Solid)
    }

    /// The voxel at `p` is known to be water.
    pub open spec fn is_water(&self, p: BlockLocation) -> bool {
        self.spec_classify(p) == Some(SimpleType::Water)
    }

    /// A world with no voxel data: everything is unresolved.
    pub fn new() -> (r: World)
        ensures
            r.wf(),
            forall|p: BlockLocation| r.block_at(p) == None::<Block>,
    {
        World { entries: Vec::new() }
    }

    /// Records what is known of the voxel at `p`.
    pub fn set_block(&mut self, p: BlockLocation, b: Block)
        requires
            old(self).wf(),
            b.wf(),
        ensures
            final(self).wf(),
            forall|q: BlockLocation| #[trigger] final(self).block_at(q) == if q == p {
                Some(b)
            } else {
                old(self).block_at(q)
            },
    {
        let mut i: usize = self.entries.len();
        while i > 0
            invariant
                i <= self.entries@.len(),
                self.entries@ == old(self).entries@,
                self.wf(),
                b.wf(),
                forall|j: int| i <= j < self.entries@.len() ==> self.entries@[j].0 != p,
            decreases i,
        {
            if self.entries[i - 1].0 == p {
                proof {
                    assert forall|q: BlockLocation| #[trigger] lookup(self.entries@.update(i - 1, (p, b)), q) == if q == p {
                        Some(b)
                    } else {
                        lookup(self.entries@, q)
                    } by {
                        lemma_lookup_update(self.entries@, i - 1, p, b, q);
                    }
                }
                let ghost s = self.entries@;
                self.entries.set(i - 1, (p, b));
                assert(self.entries@ == s.update(i - 1, (p, b)));
                assert forall|k: int| 0 <= k < self.entries@.len() implies (#[trigger] self.entries@[k]).1.wf() by {
                    if k != i - 1 {
                        assert(self.entries@[k] == s[k]);
                        assert(s[k].1.wf());
                    } else {
                        assert(self.entries@[k] == (p, b));
                    }
                }
                return;
            }
            i = i - 1;
        }
        let ghost s = self.entries@;
        self.entries.push((p, b));
        assert(self.entries@.drop_last() =~= s);
        assert forall|k: int| 0 <= k < self.entries@.len() implies (#[trigger] self.entries@[k]).1.wf() by {
            if k < s.len() {
                assert(self.entries@[k] == s[k]);
            }
        }
        assert forall|q: BlockLocation| #[trigger] lookup(self.entries@, q) == if q == p {
            Some(b)
        } else {
            lookup(s, q)
        } by {
            assert(self.entries@.last() == (p, b));
        }
    }

    /// What is known of the voxel at `p` (`None`: unresolved).
    pub fn get_block(&self, p: BlockLocation) -> (r: Option<Block>)
        requires
            self.wf(),
        ensures
            r == self.block_at(p),
            r matches Some(b) ==> b.wf(),
    {
        let mut i: usize = self.entries.len();
        assert(self.entries@.subrange(0, i as int) =~= self.entries@);
        while i > 0
            invariant
                i <= self.entries@.len(),
                self.wf(),
                lookup(self.entries@, p) == lookup(self.entries@.subrange(0, i as int), p),
            decreases i,
        {
            let ghost sub = self.entries@.subrange(0, i as int);
            assert(sub.drop_last() =~= self.entries@.subrange(0, i - 1));
            if self.entries[i - 1].0 == p {
                return Some(self.entries[i - 1].1);
            }
            i = i - 1;
        }
        assert(self.entries@.subrange(0, 0) =~= Seq::<(BlockLocation, Block)>::empty());
        None
    }

    /// The class of the voxel at `p`, if known.
    pub fn classify(&self, p: BlockLocation) -> (r: Option<SimpleType>)
        requires
            self.wf(),
        ensures
            r == self.spec_classify(p),
    {
        match self.get_block(p) {
            Some(b) => Some(b.kind),
            None => None,
        }
    }

    /// The friction of the voxel at `p`, or `DEFAULT_SLIP` when unresolved.
    pub fn slip_of(&self, p: BlockLocation) -> (r: i128)
        requires
            self.wf(),
        ensures
            r == self.spec_slip_of(p),
            valid_slip(r as int),
    {
        match self.get_block(p) {
            Some(b) => b.slip,
            None => DEFAULT_SLIP,
        }
    }
}

} // verus!
