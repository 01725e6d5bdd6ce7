//! The block registry: a catalog of block definitions, indexed by a
//! dense, zero-based id and searchable by name.

use vstd::prelude::*;

verus! {

/// Shape of a block, together with its texture file name. Only `Cube`
/// produces mesh faces.
#[derive(Debug)]
pub enum ModelType {
    Empty,
    Cube(String),
    Stair(String),
    Slab(String),
}

impl ModelType {
    /// Whether this model produces opaque faces.
    pub open spec fn spec_is_meshable(&self) -> bool {
        self is Cube
    }

    pub fn is_meshable(&self) -> (r: bool)
        ensures
            r == self.spec_is_meshable(),
    {
        match self {
            Self::Cube(_) => true,
            _ => false,
        }
    }
}

/// One block definition: a stable dense id, a unique name, a model.
#[derive(Debug)]
pub struct Block {
    pub id: u16,
    pub name: String,
    pub model: ModelType,
}

impl Block {
    pub fn is_meshable(&self) -> (r: bool)
        ensures
            r == self.model.spec_is_meshable(),
    {
        self.model.is_meshable()
    }
}

/// The id of the first block of `s` whose name is `name`, or 0 when no
/// block carries that name.
pub open spec fn spec_find_block(s: Seq<Block>, name: Seq<char>) -> u16
    decreases s.len(),
{
    if s.len() == 0 {
        0
    } else if s[0].name@ == name {
        s[0].id
    } else {
        spec_find_block(s.skip(1), name)
    }
}

/// In-memory registry of block definitions, id-indexed by position.
#[derive(Debug)]
pub struct BlocksHandler {
    pub values: Vec<Block>,
}

impl BlocksHandler {
    /// Ids are dense and zero-based: the block at position `i` has id `i`,
    /// and the catalog never outgrows the 12-bit id width.
    pub open spec fn wf(&self) -> bool {
        &&& self.values@.len() <= 4096
        &&& forall|i: int| 0 <= i < self.values@.len() ==> self.values@[i].id == i
    }

    /// Whether the block with id `id` produces opaque faces: it must be
    /// catalogued and its model must be a cube.
    pub open spec fn spec_meshable(&self, id: u16) -> bool {
        id < self.values@.len() && self.values@[id as int].model.spec_is_meshable()
    }

    /// Builds the registry from `(name, model)` records, assigning ids
    /// by list position.
    pub fn new(records: Vec<(String, ModelType)>) -> (r: BlocksHandler)
        requires
            records@.len() <= 4096,
        ensures
            r.wf(),
            r.values@.len() == records@.len(),
            forall|i: int|
                0 <= i < records@.len() ==> r.values@[i].name == records@[i].0
                    && r.values@[i].model == records@[i].1,
    {
        let ghost orig = records@;
        let mut records = records;
        let mut values: Vec<Block> = Vec::new();
        while records.len() > 0
            invariant
                orig.len() <= 4096,
                values@.len() + records@.len() == orig.len(),
                records@ == orig.skip(values@.len() as int),
                forall|i: int| 0 <= i < values@.len() ==> #[trigger] values@[i].id == i,
                forall|i: int|
                    0 <= i < values@.len() ==> #[trigger] values@[i].name == orig[i].0
                        && values@[i].model == orig[i].1,
            decreases records@.len(),
        {
            let ghost done = values@.len() as int;
            let (name, model) = records.remove(0);
            assert(orig.skip(done)[0] == orig[done]);
            assert(records@ =~= orig.skip(done + 1));
            let id = values.len() as u16;
            values.push(Block { id, name, model });
        }
        BlocksHandler { values }
    }

    /// Looks a block id up by name; absent names fall back to id 0, the
    /// conventional empty block.
    pub fn find_block(&self, name: &str) -> (r: u16)
        requires
            self.wf(),
        ensures
            r == spec_find_block(self.values@, name@),
            r < 4096,
    {
        let key: String = name.to_owned();
        let n = self.values.len();
        assert(self.values@.skip(0) =~= self.values@);
        let mut i: usize = 0;
        while i < n
            invariant
                self.wf(),
                n == self.values@.len(),
                0 <= i <= n,
                spec_find_block(self.values@, name@) == spec_find_block(
                    self.values@.skip(i as int),
                    name@,
                ),
                key@ == name@,
            decreases n - i,
        {
            if self.values[i].name == key {
                assert(self.values@.skip(i as int)[0] == self.values@[i as int]);
                return self.values[i].id;
            }
            assert(self.values@.skip(i as int)[0] == self.values@[i as int]);
            assert(self.values@.skip(i as int).skip(1) =~= self.values@.skip(i + 1));
            i = i + 1;
        }
        0
    }

    /// The block definition with the given id, or none when the id is
    /// out of range.
    pub fn block(&self, id: u16) -> (r: Option<&Block>)
        ensures
            match r {
                Some(b) => id < self.values@.len() && *b == self.values@[id as int],
                None => id >= self.values@.len(),
            },
    {
        if (id as usize) < self.values.len() {
            Some(&self.values[id as usize])
        } else {
            None
        }
    }
}

} // verus!
