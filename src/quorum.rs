use vstd::prelude::*;
use vstd::set_lib::*;

verus! {

/// Why a quorum configuration was rejected.
#[derive(Debug, Clone, Copy, PartialEq, Eq, Structural)]
pub enum ConfigError {
    /// The write quorum asks for more stores than the multiplex has.
    NotEnoughBlobstores { have: usize, need: usize },
    /// A write quorum of zero would let a put succeed without any store.
    ZeroWriteQuorum,
}

/// Read and write quorums over `N` normal stores: `1 <= write <= N` and
/// `read == N - write + 1`, so that every read quorum meets every write quorum.
#[derive(Debug, Clone, Copy)]
pub struct MultiplexQuorum {
    read: usize,
    write: usize,
}

impl MultiplexQuorum {
    pub closed spec fn read_spec(self) -> nat {
        self.read as nat
    }

    pub closed spec fn write_spec(self) -> nat {
        self.write as nat
    }

    /// The quorums are a valid configuration for `num_stores` normal stores.
    pub open spec fn valid_for(self, num_stores: nat) -> bool {
        &&& 1 <= self.write_spec() <= num_stores
        &&& self.read_spec() == num_stores - self.write_spec() + 1
    }

    /// Derives the read quorum from the number of normal stores and the
    /// requested write quorum.
    pub fn new(num_stores: usize, write: usize) -> (r: Result<Self, ConfigError>)
        ensures
            write > num_stores ==> r == Err::<Self, ConfigError>(
                ConfigError::NotEnoughBlobstores { have: num_stores, need: write },
            ),
            write == 0 ==> r == Err::<Self, ConfigError>(ConfigError::ZeroWriteQuorum),
            1 <= write <= num_stores ==> (r matches Ok(q) && q.valid_for(num_stores as nat)
                && q.write_spec() == write as nat),
    {
        if write > num_stores {
            return Err(ConfigError::NotEnoughBlobstores { have: num_stores, need: write });
        }
        if write == 0 {
            return Err(ConfigError::ZeroWriteQuorum);
        }
        Ok(MultiplexQuorum { read: num_stores - write + 1, write })
    }

    /// Number of "not found" answers that settle a read as absent.
    pub fn read(&self) -> (r: usize)
        ensures
            r as nat == self.read_spec(),
    {
        self.read
    }

    /// Number of successful writes that settle a put.
    pub fn write(&self) -> (r: usize)
        ensures
            r as nat == self.write_spec(),
    {
        self.write
    }
}

/// For every valid configuration the two quorums add up to one more than the
/// number of stores, so any set of `read` stores and any set of `write` stores
/// drawn from the same `num_stores` stores share at least one store.
pub proof fn lemma_quorums_intersect(
    q: MultiplexQuorum,
    num_stores: nat,
    readers: Set<int>,
    writers: Set<int>,
)
    requires
        q.valid_for(num_stores),
        readers.subset_of(set_int_range(0, num_stores as int)),
        writers.subset_of(set_int_range(0, num_stores as int)),
        readers.finite(),
        writers.finite(),
        readers.len() >= q.read_spec(),
        writers.len() >= q.write_spec(),
    ensures
        q.read_spec() + q.write_spec() == num_stores + 1,
        exists|i: int| readers.contains(i) && writers.contains(i),
{
    let all = set_int_range(0, num_stores as int);
    lemma_int_range(0, num_stores as int);
    lemma_set_intersect_union_lens(readers, writers);
    assert((readers + writers).subset_of(all));
    lemma_len_subset(readers + writers, all);
    let common = readers.intersect(writers);
    assert(common.len() > 0);
    let i = common.choose();
    assert(common.contains(i)) by {
        if !common.contains(i) {
            common.lemma_len0_is_empty();
            assert(false);
        }
    }
}

} // verus!
