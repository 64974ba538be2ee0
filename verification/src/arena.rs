//! Arena blocks: which block goes where when an arena floor is rebuilt or
//! crumbles, and the flags of a block-break event.

use vstd::prelude::*;

verus! {

/// The kinds of block the minigames place.
#[derive(Clone, Copy, Debug, PartialEq, Eq, Structural)]
pub enum BlockKind {
    SnowBlock,
    SmoothStone,
    Sand,
    Tnt,
    Air,
}

/// The registry name of each block kind.
pub open spec fn block_id(kind: BlockKind) -> Seq<char> {
    match kind {
        BlockKind::SnowBlock => "minecraft:snow_block"@,
        BlockKind::SmoothStone => "minecraft:smooth_stone"@,
        BlockKind::Sand => "minecraft:sand"@,
        BlockKind::Tnt => "minecraft:tnt"@,
        BlockKind::Air => "minecraft:air"@,
    }
}

impl BlockKind {
    /// The block's registry name, as the server knows it.
    pub fn id(&self) -> (s: &'static str)
        ensures
            s@ == block_id(*self),
    {
        match self {
            BlockKind::SnowBlock => "minecraft:snow_block",
            BlockKind::SmoothStone => "minecraft:smooth_stone",
            BlockKind::Sand => "minecraft:sand",
            BlockKind::Tnt => "minecraft:tnt",
            BlockKind::Air => "minecraft:air",
        }
    }
}

/// The registry name of each block kind.
pub proof fn law_block_ids(kind: BlockKind)
    ensures
        kind == BlockKind::SnowBlock ==> block_id(kind) == "minecraft:snow_block"@,
        kind == BlockKind::SmoothStone ==> block_id(kind) == "minecraft:smooth_stone"@,
        kind == BlockKind::Sand ==> block_id(kind) == "minecraft:sand"@,
        kind == BlockKind::Tnt ==> block_id(kind) == "minecraft:tnt"@,
        kind == BlockKind::Air ==> block_id(kind) == "minecraft:air"@,
{
}

/// One block to set in the world.
#[derive(Clone, Copy, Debug, PartialEq, Eq, Structural)]
pub struct BlockPlacement {
    pub x: i32,
    pub y: i32,
    pub z: i32,
    pub block: BlockKind,
}

/// The outcome flags of a block-break event: whether the break is cancelled,
/// and whether the broken block drops as an item.
#[derive(Clone, Copy, Debug, PartialEq, Eq, Structural)]
pub struct BreakFlags {
    pub cancelled: bool,
    pub should_drop: bool,
}

/// The placement of `block` at (x, y, z).
pub open spec fn placed(x: int, y: int, z: int, block: BlockKind) -> BlockPlacement {
    BlockPlacement { x: x as i32, y: y as i32, z: z as i32, block }
}

/// The placements for one floor cell at (x, y, z): `top` there, and `under`,
/// when given, right below it.
pub open spec fn cell(x: int, y: int, z: int, top: BlockKind, under: Option<BlockKind>) -> Seq<
    BlockPlacement,
> {
    match under {
        Some(u) => seq![placed(x, y, z, top), placed(x, y - 1, z, u)],
        None => seq![placed(x, y, z, top)],
    }
}

/// The cells of the row at `x`, for z from `min_z` up to but excluding `z_end`.
pub open spec fn row(
    x: int,
    y: int,
    min_z: int,
    z_end: int,
    top: BlockKind,
    under: Option<BlockKind>,
) -> Seq<BlockPlacement>
    decreases z_end - min_z,
{
    if z_end <= min_z {
        Seq::empty()
    } else {
        row(x, y, min_z, z_end - 1, top, under) + cell(x, y, z_end - 1, top, under)
    }
}

/// The rows of a floor at height `y`, for x from `min_x` up to but excluding
/// `x_end`, each row spanning z from `min_z` to `max_z` inclusive.
pub open spec fn layer(
    min_x: int,
    x_end: int,
    min_z: int,
    max_z: int,
    y: int,
    top: BlockKind,
    under: Option<BlockKind>,
) -> Seq<BlockPlacement>
    decreases x_end - min_x,
{
    if x_end <= min_x {
        Seq::empty()
    } else {
        layer(min_x, x_end - 1, min_z, max_z, y, top, under) + row(
            x_end - 1,
            y,
            min_z,
            max_z + 1,
            top,
            under,
        )
    }
}

/// Appends the floor at height `y` over the box `min_x..=max_x` by
/// `min_z..=max_z`, row by row in increasing x, each row in increasing z.
pub fn fill_layer(
    out: &mut Vec<BlockPlacement>,
    min_x: i32,
    max_x: i32,
    min_z: i32,
    max_z: i32,
    y: i32,
    top: BlockKind,
    under: Option<BlockKind>,
)
    requires
        under is Some ==> y > i32::MIN,
    ensures
        final(out)@ == old(out)@ + layer(
            min_x as int,
            max_x + 1,
            min_z as int,
            max_z as int,
            y as int,
            top,
            under,
        ),
{
    let ghost start = out@;
    let mut x: i64 = min_x as i64;
    while x <= max_x as i64
        invariant
            min_x <= x,
            x <= max_x + 1 || x == min_x,
            under is Some ==> y > i32::MIN,
            out@ == start + layer(min_x as int, x as int, min_z as int, max_z as int, y as int, top, under),
        decreases max_x + 1 - x,
    {
        let ghost before_row = out@;
        let mut z: i64 = min_z as i64;
        while z <= max_z as i64
            invariant
                min_x <= x <= max_x,
                min_z <= z,
                z <= max_z + 1 || z == min_z,
                under is Some ==> y > i32::MIN,
                out@ == before_row + row(x as int, y as int, min_z as int, z as int, top, under),
            decreases max_z + 1 - z,
        {
            let ghost before_cell = out@;
            out.push(BlockPlacement { x: x as i32, y, z: z as i32, block: top });
            match under {
                Some(u) => {
                    out.push(BlockPlacement { x: x as i32, y: y - 1, z: z as i32, block: u });
                },
                None => {},
            }
            proof {
                assert(out@ =~= before_cell + cell(x as int, y as int, z as int, top, under));
                assert(row(x as int, y as int, min_z as int, z + 1, top, under) == row(
                    x as int,
                    y as int,
                    min_z as int,
                    z as int,
                    top,
                    under,
                ) + cell(x as int, y as int, z as int, top, under));
                assert(out@ =~= before_row + row(
                    x as int,
                    y as int,
                    min_z as int,
                    z + 1,
                    top,
                    under,
                ));
            }
            z += 1;
        }
        proof {
            if min_z > max_z {
                assert(row(x as int, y as int, min_z as int, max_z + 1, top, under) =~= Seq::empty());
            }
            assert(z == max_z + 1 || (z == min_z && min_z > max_z));
            assert(out@ =~= start + layer(
                min_x as int,
                x + 1,
                min_z as int,
                max_z as int,
                y as int,
                top,
                under,
            ));
        }
        x += 1;
    }
    proof {
        if min_x > max_x {
            assert(layer(min_x as int, max_x + 1, min_z as int, max_z as int, y as int, top, under) =~= Seq::empty());
            assert(out@ =~= start);
        }
    }
}


/// Membership in a concatenation is membership in either part.
pub proof fn lemma_concat_contains(a: Seq<BlockPlacement>, b: Seq<BlockPlacement>, p: BlockPlacement)
    ensures
        (a + b).contains(p) <==> (a.contains(p) || b.contains(p)),
{
    if (a + b).contains(p) {
        let i = choose|i: int| 0 <= i < (a + b).len() && (a + b)[i] == p;
        if i < a.len() {
            assert(a[i] == p);
        } else {
            assert(b[i - a.len()] == p);
        }
    }
    if a.contains(p) {
        let i = choose|i: int| 0 <= i < a.len() && a[i] == p;
        assert((a + b)[i] == p);
    }
    if b.contains(p) {
        let i = choose|i: int| 0 <= i < b.len() && b[i] == p;
        assert((a + b)[a.len() + i] == p);
    }
}

/// `p` is one of the blocks of the floor cell at (x, y, z).
pub open spec fn in_cell(
    p: BlockPlacement,
    x: int,
    y: int,
    z: int,
    top: BlockKind,
    under: Option<BlockKind>,
) -> bool {
    &&& p.x == x
    &&& p.z == z
    &&& {
        ||| p.y == y && p.block == top
        ||| (under matches Some(u) && p.y == y - 1 && p.block == u)
    }
}

/// Coordinates that a placement can hold.
pub open spec fn fits_i32(v: int) -> bool {
    i32::MIN <= v <= i32::MAX
}

/// The blocks of a row are exactly those of its cells.
pub proof fn lemma_row_contains(
    x: int,
    y: int,
    min_z: int,
    z_end: int,
    top: BlockKind,
    under: Option<BlockKind>,
    p: BlockPlacement,
)
    requires
        fits_i32(x),
        fits_i32(y),
        under is Some ==> fits_i32(y - 1),
        fits_i32(min_z),
        z_end <= i32::MAX + 1,
    ensures
        row(x, y, min_z, z_end, top, under).contains(p) <==> (min_z <= p.z < z_end && in_cell(
            p,
            x,
            y,
            p.z as int,
            top,
            under,
        )),
    decreases z_end - min_z,
{
    if z_end <= min_z {
    } else {
        let z = z_end - 1;
        lemma_row_contains(x, y, min_z, z, top, under, p);
        lemma_concat_contains(row(x, y, min_z, z, top, under), cell(x, y, z, top, under), p);
        let c = cell(x, y, z, top, under);
        if c.contains(p) {
            let i = choose|i: int| 0 <= i < c.len() && c[i] == p;
            assert(in_cell(p, x, y, z, top, under));
        }
        if p.z == z && in_cell(p, x, y, z, top, under) {
            if p.y == y && p.block == top {
                assert(p == placed(x, y, z, top));
                assert(c[0] == p);
            } else {
                let u = under->0;
                assert(p == placed(x, y - 1, z, u));
                assert(c[1] == p);
            }
        }
    }
}

/// The blocks of a layer are exactly those of the cells in its box.
pub proof fn lemma_layer_contains(
    min_x: int,
    x_end: int,
    min_z: int,
    max_z: int,
    y: int,
    top: BlockKind,
    under: Option<BlockKind>,
    p: BlockPlacement,
)
    requires
        fits_i32(min_x),
        x_end <= i32::MAX + 1,
        fits_i32(min_z),
        fits_i32(max_z),
        fits_i32(y),
        under is Some ==> fits_i32(y - 1),
    ensures
        layer(min_x, x_end, min_z, max_z, y, top, under).contains(p) <==> (min_x <= p.x < x_end
            && min_z <= p.z <= max_z && in_cell(p, p.x as int, y, p.z as int, top, under)),
    decreases x_end - min_x,
{
    if x_end <= min_x {
    } else {
        let x = x_end - 1;
        lemma_layer_contains(min_x, x, min_z, max_z, y, top, under, p);
        lemma_concat_contains(
            layer(min_x, x, min_z, max_z, y, top, under),
            row(x, y, min_z, max_z + 1, top, under),
            p,
        );
        lemma_row_contains(x, y, min_z, max_z + 1, top, under, p);
    }
}

} // verus!

verus! {

/// A block position (x, y, z).
pub type BlockPos = (i32, i32, i32);

/// A set of block positions; no position occurs twice, and positions stay in
/// the order in which they were added.
///
/// The positions are held in a vector rather than a `HashSet`: vstd's
/// contracts for `HashSet` hold only for key types that it knows to hash
/// consistently with equality (`obeys_key_model`), which it establishes for
/// integers and `bool` but not for tuples.
pub struct BlockSet {
    cells: Vec<BlockPos>,
}

impl View for BlockSet {
    type V = Seq<BlockPos>;

    closed spec fn view(&self) -> Seq<BlockPos> {
        self.cells@
    }
}

impl BlockSet {
    /// No position occurs twice.
    #[verifier::type_invariant]
    pub open spec fn unique(&self) -> bool {
        self@.no_duplicates()
    }

    /// An empty set.
    pub fn new() -> (s: Self)
        ensures
            s@ == Seq::<BlockPos>::empty(),
    {
        BlockSet { cells: Vec::new() }
    }

    /// Index of `pos`, if present.
    fn position(&self, pos: BlockPos) -> (r: Option<usize>)
        ensures
            match r {
                Some(i) => {
                    &&& i < self@.len()
                    &&& self@[i as int] == pos
                    &&& forall|j: int| 0 <= j < i ==> self@[j] != pos
                },
                None => !self@.contains(pos),
            },
    {
        let mut i: usize = 0;
        while i < self.cells.len()
            invariant
                i <= self.cells@.len(),
                forall|j: int| 0 <= j < i ==> self@[j] != pos,
            decreases self.cells@.len() - i,
        {
            let c = self.cells[i];
            if c.0 == pos.0 && c.1 == pos.1 && c.2 == pos.2 {
                return Some(i);
            }
            i += 1;
        }
        None
    }

    /// Whether `pos` is in the set.
    pub fn contains(&self, pos: BlockPos) -> (b: bool)
        ensures
            b == self@.contains(pos),
    {
        self.position(pos).is_some()
    }

    /// Number of positions.
    pub fn len(&self) -> (n: usize)
        ensures
            n == self@.len(),
    {
        self.cells.len()
    }

    /// Adds `pos`; returns whether it was absent.
    pub fn insert(&mut self, pos: BlockPos) -> (added: bool)
        ensures
            added == !old(self)@.contains(pos),
            final(self)@ == (if added { old(self)@.push(pos) } else { old(self)@ }),
    {
        proof { use_type_invariant(&*self); }
        match self.position(pos) {
            Some(_) => false,
            None => {
                let mut cells: Vec<BlockPos> = Vec::new();
                std::mem::swap(&mut self.cells, &mut cells);
                cells.push(pos);
                self.cells = cells;
                true
            },
        }
    }

    /// Removes `pos`; returns whether it was present.
    pub fn remove(&mut self, pos: BlockPos) -> (removed: bool)
        ensures
            removed == old(self)@.contains(pos),
            final(self)@ == old(self)@.remove_value(pos),
    {
        proof {
            use_type_invariant(&*self);
            self@.index_of_first_ensures(pos);
        }
        match self.position(pos) {
            None => false,
            Some(i) => {
                let mut cells: Vec<BlockPos> = Vec::new();
                std::mem::swap(&mut self.cells, &mut cells);
                let ghost before = cells@;
                cells.remove(i);
                proof {
                    assert forall|a: int, b: int| 0 <= a < b < cells@.len() implies cells@[a]
                        != cells@[b] by {
                        let ia = if a < i { a } else { a + 1 };
                        let ib = if b < i { b } else { b + 1 };
                        assert(cells@[a] == before[ia]);
                        assert(cells@[b] == before[ib]);
                    }
                }
                self.cells = cells;
                true
            },
        }
    }

    /// Removes every position.
    pub fn clear(&mut self)
        ensures
            final(self)@ == Seq::<BlockPos>::empty(),
    {
        self.cells = Vec::new();
    }
}

} // verus!
