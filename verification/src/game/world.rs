//! Chunks of the voxel world.
use vstd::prelude::*;
use crate::game::seedrng::SeededRng;
use crate::game::GameState;
use crate::renderer::vertex::Vertex;

verus! {

/// Edge length of a chunk, in blocks.
pub const CHUNK_SIZE: usize = 32;

/// The character of a decimal digit.
pub open spec fn digit(value: nat) -> char
    recommends
        value < 10,
{
    seq!['0', '1', '2', '3', '4', '5', '6', '7', '8', '9'][value as int]
}

/// A number in decimal, without leading zeros.
pub open spec fn decimal(value: nat) -> Seq<char>
    decreases value,
{
    if value < 10 {
        seq![digit(value)]
    } else {
        decimal(value / 10).push(digit(value % 10))
    }
}

/// How a block is shown: air as an underscore, any other block by its id.
pub open spec fn cell_text(block: u32) -> Seq<char> {
    if block == 0 {
        seq!['_']
    } else {
        decimal(block as nat)
    }
}

/// The blocks of a row, shown one after the other.
pub open spec fn cells_text(row: Seq<u32>) -> Seq<char>
    decreases row.len(),
{
    if row.len() == 0 {
        seq![]
    } else {
        cells_text(row.drop_last()) + cell_text(row.last())
    }
}

/// What ends the line of a row.
pub open spec fn end_of_row() -> Seq<char> {
    seq![',', 'E', 'n', 'd', 'r', 'o', 'w', ',']
}

/// The line that ends a layer.
pub open spec fn end_of_layer() -> Seq<char> {
    seq![',', 'E', 'n', 'd', 'l', 'a', 'y', 'e', 'r', ',']
}

/// The line that starts a chunk.
pub open spec fn heading() -> Seq<char> {
    seq!['C', 'h', 'u', 'n', 'k', ':']
}

/// Blocks in a chunk.
pub const CHUNK_BLOCKS: usize = 32768;

/// Where the block at `(x, y, z)` stands when the blocks of a chunk are
/// listed layer after layer and row after row.
pub open spec fn place(x: int, y: int, z: int) -> int {
    (x * 32 + y) * 32 + z
}

/// Lines in the text of a layer: one for each row and one to end it.
pub const LAYER_LINES: usize = 33;

/// Lines in the text of a chunk: the heading and 32 layers.
pub const CHUNK_LINES: usize = 1057;

/// A cube of `CHUNK_SIZE`³ block ids at a chunk position.
pub struct Chunk {
    position: [u32; 3],
    blocks: [[[u32; 32]; 32]; 32],
}

impl Chunk {
    /// Where the chunk sits in the world, in chunk units.
    pub closed spec fn position(&self) -> Seq<u32> {
        self.position@
    }

    /// The block id stored at `(x, y, z)`.
    pub closed spec fn block(&self, x: int, y: int, z: int) -> u32 {
        self.blocks@[x]@[y]@[z]
    }

    /// Where the chunk sits in the world, in chunk units.
    pub fn get_position(&self) -> (position: [u32; 3])
        ensures
            position@ == self.position(),
    {
        self.position
    }

    /// The block id stored at `(x, y, z)`, if the place is in the chunk.
    pub fn get_block(&self, x: usize, y: usize, z: usize) -> (block: Option<u32>)
        ensures
            block == if x < 32 && y < 32 && z < 32 {
                Some(self.block(x as int, y as int, z as int))
            } else {
                None
            },
    {
        if x < 32 && y < 32 && z < 32 {
            Some(self.blocks[x][y][z])
        } else {
            None
        }
    }

    /// The chunk at `position` whose blocks are `ids`, layer after layer
    /// and row after row, or nothing when `ids` is not a chunk's worth.
    pub fn from_ids(position: [u32; 3], ids: &Vec<u32>) -> (made: Option<Self>)
        ensures
            match made {
                Some(chunk) => {
                    &&& ids@.len() == CHUNK_BLOCKS
                    &&& chunk.position() == position@
                    &&& forall|x: int, y: int, z: int|
                        0 <= x < 32 && 0 <= y < 32 && 0 <= z < 32 ==> (#[trigger] chunk.block(
                            x,
                            y,
                            z,
                        )) == ids@[place(x, y, z)]
                },
                None => ids@.len() != CHUNK_BLOCKS,
            },
    {
        if ids.len() != CHUNK_BLOCKS {
            None
        } else {
            Some(Chunk::fill(position, ids))
        }
    }

    /// The chunk at `position` whose blocks are `ids`.
    fn fill(position: [u32; 3], ids: &Vec<u32>) -> (chunk: Self)
        requires
            ids@.len() == CHUNK_BLOCKS,
        ensures
            chunk.position() == position@,
            forall|x: int, y: int, z: int|
                0 <= x < 32 && 0 <= y < 32 && 0 <= z < 32 ==> (#[trigger] chunk.block(x, y, z))
                    == ids@[place(x, y, z)],
    {
        let mut blocks: [[[u32; 32]; 32]; 32] = [[[0u32; 32]; 32]; 32];
        let mut x: usize = 0;
        while x < 32
            invariant
                x <= 32,
                ids@.len() == CHUNK_BLOCKS,
                forall|i: int, j: int, k: int|
                    0 <= i < x && 0 <= j < 32 && 0 <= k < 32 ==> (#[trigger] blocks@[i]@[j]@[k])
                        == ids@[place(i, j, k)],
            decreases 32 - x,
        {
            let mut y: usize = 0;
            while y < 32
                invariant
                    x < 32,
                    y <= 32,
                    ids@.len() == CHUNK_BLOCKS,
                    forall|i: int, j: int, k: int|
                        0 <= i < x && 0 <= j < 32 && 0 <= k < 32 ==> (#[trigger] blocks@[i]@[j]@[k])
                            == ids@[place(i, j, k)],
                    forall|j: int, k: int|
                        0 <= j < y && 0 <= k < 32 ==> (#[trigger] blocks@[x as int]@[j]@[k])
                            == ids@[place(x as int, j, k)],
                decreases 32 - y,
            {
                let mut z: usize = 0;
                while z < 32
                    invariant
                        x < 32,
                        y < 32,
                        z <= 32,
                        ids@.len() == CHUNK_BLOCKS,
                        forall|i: int, j: int, k: int|
                            0 <= i < x && 0 <= j < 32 && 0 <= k < 32 ==> (
                            #[trigger] blocks@[i]@[j]@[k]) == ids@[place(i, j, k)],
                        forall|j: int, k: int|
                            0 <= j < y && 0 <= k < 32 ==> (#[trigger] blocks@[x as int]@[j]@[k])
                                == ids@[place(x as int, j, k)],
                        forall|k: int|
                            0 <= k < z ==> (#[trigger] blocks@[x as int]@[y as int]@[k])
                                == ids@[place(x as int, y as int, k)],
                    decreases 32 - z,
                {
                    blocks[x][y][z] = ids[(x * 32 + y) * 32 + z];
                    z += 1;
                }
                y += 1;
            }
            x += 1;
        }
        Chunk { position, blocks }
    }

    /// A chunk whose every cell holds an id drawn from the known blocks,
    /// the cells filled in the order of `place`.
    pub fn new_rand(position: [u32; 3], game_state: &GameState, rng: &mut SeededRng) -> (chunk: Self)
        ensures
            chunk.position() == position@,
            forall|x: int, y: int, z: int|
                0 <= x < 32 && 0 <= y < 32 && 0 <= z < 32
                    ==> (#[trigger] chunk.block(x, y, z)) < game_state@.len(),
    {
        let mut ids: Vec<u32> = Vec::new();
        while ids.len() < CHUNK_BLOCKS
            invariant
                ids@.len() <= CHUNK_BLOCKS,
                forall|i: int| 0 <= i < ids@.len() ==> ids@[i] < game_state@.len(),
            decreases CHUNK_BLOCKS - ids@.len(),
        {
            ids.push(Chunk::rand_block(game_state, rng));
        }
        Chunk::fill(position, &ids)
    }

    /// The blocks of row `y` of layer `x`.
    pub open spec fn row(&self, x: int, y: int) -> Seq<u32> {
        Seq::new(32, |z: int| self.block(x, y, z))
    }

    /// Line `index` of the text of the chunk: the heading, then layer
    /// after layer, each as its rows followed by the line that ends it.
    pub open spec fn line(&self, index: int) -> Seq<char> {
        if index == 0 {
            heading()
        } else {
            let x = (index - 1) / (LAYER_LINES as int);
            let y = (index - 1) % (LAYER_LINES as int);
            if y == 32 {
                end_of_layer()
            } else {
                cells_text(self.row(x, y)) + end_of_row()
            }
        }
    }

    /// The text of the chunk, line by line, as it is printed.
    pub fn print_chunk(&self) -> (lines: Vec<Vec<char>>)
        ensures
            lines@.len() == CHUNK_LINES,
            forall|i: int| 0 <= i < CHUNK_LINES ==> (#[trigger] lines@[i])@ == self.line(i),
    {
        let mut lines: Vec<Vec<char>> = Vec::new();
        let mut first: Vec<char> = Vec::new();
        first.push('C');
        first.push('h');
        first.push('u');
        first.push('n');
        first.push('k');
        first.push(':');
        assert(first@ =~= heading());
        lines.push(first);
        let mut x: usize = 0;
        while x < 32
            invariant
                x <= 32,
                lines@.len() == 1 + 33 * x,
                forall|i: int| 0 <= i < lines@.len() ==> (#[trigger] lines@[i])@ == self.line(i),
            decreases 32 - x,
        {
            let mut y: usize = 0;
            while y < 32
                invariant
                    x < 32,
                    y <= 32,
                    lines@.len() == 1 + 33 * x + y,
                    forall|i: int| 0 <= i < lines@.len() ==> (#[trigger] lines@[i])@ == self.line(i),
                decreases 32 - y,
            {
                let mut text: Vec<char> = Vec::new();
                let mut z: usize = 0;
                while z < 32
                    invariant
                        x < 32,
                        y < 32,
                        z <= 32,
                        text@ == cells_text(self.blocks@[x as int]@[y as int]@.take(z as int)),
                    decreases 32 - z,
                {
                    let block = self.blocks[x][y][z];
                    let ghost row = self.blocks@[x as int]@[y as int]@;
                    proof {
                        assert(row.take(z + 1).drop_last() =~= row.take(z as int));
                        assert(row.take(z + 1).last() == block);
                    }
                    if block == 0 {
                        text.push('_');
                        assert(text@ =~= cells_text(row.take(z as int)) + cell_text(block));
                    } else {
                        push_decimal(&mut text, block);
                    }
                    z += 1;
                }
                proof {
                    let row = self.blocks@[x as int]@[y as int]@;
                    assert(row.take(32) =~= row);
                    assert(row =~= self.row(x as int, y as int));
                }
                let ghost cells = text@;
                text.push(',');
                text.push('E');
                text.push('n');
                text.push('d');
                text.push('r');
                text.push('o');
                text.push('w');
                text.push(',');
                proof {
                    assert(text@ =~= cells + end_of_row());
                    let index = 1 + 33 * x + y;
                    assert((index - 1) / 33 == x && (index - 1) % 33 == y) by (nonlinear_arith)
                        requires
                            index == 1 + 33 * x + y,
                            0 <= x,
                            0 <= y < 33,
                    ;
                }
                lines.push(text);
                y += 1;
            }
            let mut last: Vec<char> = Vec::new();
            last.push(',');
            last.push('E');
            last.push('n');
            last.push('d');
            last.push('l');
            last.push('a');
            last.push('y');
            last.push('e');
            last.push('r');
            last.push(',');
            proof {
                assert(last@ =~= end_of_layer());
                let index = 1 + 33 * x + 32;
                assert((index - 1) / 33 == x && (index - 1) % 33 == 32) by (nonlinear_arith)
                    requires
                        index == 1 + 33 * x + 32,
                        0 <= x,
                ;
            }
            lines.push(last);
            x += 1;
        }
        lines
    }

    /// The vertices that show the chunk. No block has a shape yet, so
    /// there are none.
    pub fn to_vertices(&self) -> (vertices: Vec<Vertex>)
        ensures
            vertices@.len() == 0,
    {
        Vec::new()
    }

    /// One block id drawn from the known blocks.
    fn rand_block(game_state: &GameState, rng: &mut SeededRng) -> (id: u32)
        ensures
            id < game_state@.len(),
    {
        let id = rng.get_u64_ranged(0, game_state.block_count() as u64);
        id as u32
    }
}

/// The character of a decimal digit.
fn digit_char(value: u32) -> (c: char)
    requires
        value < 10,
    ensures
        c == digit(value as nat),
{
    if value == 0 {
        '0'
    } else if value == 1 {
        '1'
    } else if value == 2 {
        '2'
    } else if value == 3 {
        '3'
    } else if value == 4 {
        '4'
    } else if value == 5 {
        '5'
    } else if value == 6 {
        '6'
    } else if value == 7 {
        '7'
    } else if value == 8 {
        '8'
    } else {
        '9'
    }
}

/// Appends a number in decimal to a text.
fn push_decimal(text: &mut Vec<char>, value: u32)
    ensures
        final(text)@ == old(text)@ + decimal(value as nat),
{
    let mut reversed: Vec<char> = Vec::new();
    let mut rest: u32 = value;
    let ghost mut suffix: Seq<char> = seq![];
    loop
        invariant_except_break
            reversed@.len() == suffix.len(),
            forall|j: int| 0 <= j < suffix.len() ==> suffix[j] == reversed@[suffix.len() - 1 - j],
            suffix.len() == 0 ==> rest == value,
            suffix.len() > 0 ==> rest > 0 && decimal(value as nat) == decimal(rest as nat) + suffix,
        ensures
            reversed@.len() == suffix.len(),
            forall|j: int| 0 <= j < suffix.len() ==> suffix[j] == reversed@[suffix.len() - 1 - j],
            decimal(value as nat) == suffix,
        decreases rest,
    {
        let low = digit_char(rest % 10);
        let ghost before = suffix;
        reversed.push(low);
        proof {
            suffix = seq![low] + before;
            if before.len() == 0 {
                assert(decimal(rest as nat) =~= if rest < 10 {
                    suffix
                } else {
                    decimal((rest / 10) as nat) + suffix
                });
            } else {
                assert(decimal(rest as nat) + before =~= if rest < 10 {
                    suffix
                } else {
                    decimal((rest / 10) as nat) + suffix
                });
            }
        }
        if rest < 10 {
            break ;
        }
        rest = rest / 10;
    }
    let mut left: usize = reversed.len();
    while left > 0
        invariant
            left <= reversed@.len(),
            reversed@.len() == suffix.len(),
            forall|j: int| 0 <= j < suffix.len() ==> suffix[j] == reversed@[suffix.len() - 1 - j],
            text@ == old(text)@ + suffix.take(suffix.len() - left),
        decreases left,
    {
        left -= 1;
        text.push(reversed[left]);
        assert(text@ =~= old(text)@ + suffix.take(suffix.len() - left));
    }
    assert(suffix.take(suffix.len() as int) =~= suffix);
}

} // verus!
