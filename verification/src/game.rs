//! The voxel world: block identifiers, chunks and the seeded generator.
use vstd::prelude::*;

pub mod seedrng;
pub mod world;

verus! {

/// The block identifiers known to the game. Identifier 0 is air.
pub struct GameState {
    blockids: Vec<String>,
}

impl GameState {
    /// The names of the known blocks, indexed by block id.
    pub closed spec fn view(&self) -> Seq<Seq<char>> {
        Seq::new(self.blockids@.len(), |i: int| self.blockids@[i]@)
    }

    /// There is at least one block id, and every id fits a block cell.
    #[verifier::type_invariant]
    spec fn has_blocks(&self) -> bool {
        1 <= self.blockids@.len() <= u32::MAX
    }


    /// The placeholder table: air followed by three unnamed blocks.
    pub fn new_temp() -> (state: Self)
        ensures
            state@ == seq!["Air"@, ""@, ""@, ""@],
    {
        let mut blockids: Vec<String> = Vec::new();
        blockids.push("Air".to_string());
        blockids.push("".to_string());
        blockids.push("".to_string());
        blockids.push("".to_string());
        let state = GameState { blockids };
        assert(state@ =~= seq!["Air"@, ""@, ""@, ""@]);
        state
    }

    /// The name of a block, if the id is known.
    pub fn block_name(&self, id: usize) -> (name: Option<&String>)
        ensures
            match name {
                Some(text) => id < self@.len() && text@ == self@[id as int],
                None => id >= self@.len(),
            },
    {
        if id < self.blockids.len() {
            Some(&self.blockids[id])
        } else {
            None
        }
    }

    /// How many block ids exist.
    pub fn block_count(&self) -> (count: usize)
        ensures
            count == self@.len(),
            1 <= count <= u32::MAX,
    {
        proof {
            use_type_invariant(self);
        }
        self.blockids.len()
    }
}

} // verus!
