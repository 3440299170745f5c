//! Distribution of a dataset's files among the ranks of a group.

use vstd::prelude::*;
use crate::uri::str_eq;

verus! {

/// Views of a sequence of strings.
pub open spec fn views_of(files: Seq<String>) -> Seq<Seq<char>> {
    files.map_values(|f: String| f@)
}

/// Files whose position is `rank` modulo `world_size`, in order.
pub open spec fn interleaved_shard(files: Seq<Seq<char>>, rank: int, world_size: int) -> Seq<Seq<char>>
    decreases files.len(),
{
    if files.len() == 0 {
        Seq::empty()
    } else {
        let before = interleaved_shard(files.drop_last(), rank, world_size);
        if (files.len() - 1) % world_size == rank {
            before.push(files.last())
        } else {
            before
        }
    }
}

/// First file of the block of `rank`: blocks are of `n / world_size` files,
/// the first `n % world_size` ranks taking one more.
pub open spec fn block_start(n: int, rank: int, world_size: int) -> int {
    rank * (n / world_size) + if rank < n % world_size {
        rank
    } else {
        n % world_size
    }
}

/// One past the last file of the block of `rank`.
pub open spec fn block_end(n: int, rank: int, world_size: int) -> int {
    block_start(n, rank, world_size) + n / world_size + if rank < n % world_size {
        1int
    } else {
        0
    }
}

/// The contiguous block of files of `rank`.
pub open spec fn contiguous_shard(files: Seq<Seq<char>>, rank: int, world_size: int) -> Seq<Seq<char>> {
    files.subrange(block_start(files.len() as int, rank, world_size), block_end(files.len() as int, rank, world_size))
}

/// Files whose hash is `rank` modulo `world_size`, in order.
pub open spec fn hashed_shard(files: Seq<Seq<char>>, hashes: Seq<u64>, rank: int, world_size: int) -> Seq<Seq<char>>
    decreases files.len(),
{
    if files.len() == 0 || hashes.len() < files.len() {
        Seq::empty()
    } else {
        let before = hashed_shard(files.drop_last(), hashes, rank, world_size);
        if hashes[files.len() - 1] as int % world_size == rank {
            before.push(files.last())
        } else {
            before
        }
    }
}

/// Errors of sharding.
#[derive(Debug, Clone, PartialEq, Eq)]
pub enum ShardError {
    /// The strategy is none of interleaved, contiguous, hash.
    UnknownStrategy(String),
}

/// Round-robin share of `rank`: files `rank`, `rank + world_size`, ...
pub fn shard_interleaved(files: &Vec<String>, rank: u32, world_size: u32) -> (r: Vec<String>)
    requires
        world_size > 0,
    ensures
        views_of(r@) == interleaved_shard(views_of(files@), rank as int, world_size as int),
{
    let mut out: Vec<String> = Vec::new();
    let mut i: usize = 0;
    while i < files.len()
        invariant
            i <= files@.len(),
            world_size > 0,
            views_of(out@) == interleaved_shard(views_of(files@).take(i as int), rank as int, world_size as int),
        decreases files.len() - i,
    {
        let ghost fv = views_of(files@);
        assert(fv.take(i as int + 1).drop_last() =~= fv.take(i as int));
        if i % (world_size as usize) == rank as usize {
            let f = files[i].clone();
            out.push(f);
            assert(views_of(out@) =~= interleaved_shard(fv.take(i as int), rank as int, world_size as int).push(fv[i as int]));
        }
        i = i + 1;
    }
    assert(views_of(files@).take(i as int) =~= views_of(files@));
    out
}

proof fn lemma_block_bounds(n: int, rank: int, world_size: int)
    requires
        0 <= n,
        0 <= rank < world_size,
    ensures
        0 <= block_start(n, rank, world_size) <= block_end(n, rank, world_size) <= n,
        rank * (n / world_size) <= n,
{
    let c = n / world_size;
    let m = n % world_size;
    assert(n == world_size * c + m) by (nonlinear_arith)
        requires
            c == n / world_size,
            m == n % world_size,
            world_size > 0,
    ;
    assert(0 <= c && 0 <= m < world_size) by (nonlinear_arith)
        requires
            c == n / world_size,
            m == n % world_size,
            world_size > 0,
            n >= 0,
    ;
    assert((rank + 1) * c <= world_size * c) by (nonlinear_arith)
        requires
            rank + 1 <= world_size,
            c >= 0,
    ;
    assert(rank * c <= (rank + 1) * c) by (nonlinear_arith)
        requires
            c >= 0,
    ;
    assert((rank + 1) * c == rank * c + c) by (nonlinear_arith);
    assert(0 <= rank * c) by (nonlinear_arith)
        requires
            c >= 0,
            rank >= 0,
    ;
}

/// Contiguous share of `rank`: the files are cut into `world_size` blocks
/// in order, of sizes differing by at most one, the larger ones first.
pub fn shard_contiguous(files: &Vec<String>, rank: u32, world_size: u32) -> (r: Vec<String>)
    requires
        rank < world_size,
    ensures
        views_of(r@) == contiguous_shard(views_of(files@), rank as int, world_size as int),
{
    let n = files.len();
    let ws = world_size as usize;
    let rk = rank as usize;
    proof {
        lemma_block_bounds(n as int, rk as int, ws as int);
    }
    let chunk = n / ws;
    let rem = n % ws;
    let start = rk * chunk + if rk < rem {
        rk
    } else {
        rem
    };
    let end = start + chunk + if rk < rem {
        1
    } else {
        0
    };
    let mut out: Vec<String> = Vec::new();
    let mut i: usize = start;
    while i < end
        invariant
            start <= i <= end <= n,
            n == files@.len(),
            views_of(out@) == views_of(files@).subrange(start as int, i as int),
        decreases end - i,
    {
        let ghost before = out@;
        out.push(files[i].clone());
        assert(views_of(out@) =~= views_of(before).push(views_of(files@)[i as int]));
        assert(views_of(files@).subrange(start as int, i as int + 1) =~= views_of(files@).subrange(start as int, i as int).push(views_of(files@)[i as int]));
        i = i + 1;
    }
    out
}

/// Share of `rank` by hash: the files whose hash, given in `hashes` by
/// position, is `rank` modulo `world_size`.
pub fn shard_by_hash(files: &Vec<String>, hashes: &Vec<u64>, rank: u32, world_size: u32) -> (r: Vec<String>)
    requires
        world_size > 0,
        hashes@.len() == files@.len(),
    ensures
        views_of(r@) == hashed_shard(views_of(files@), hashes@, rank as int, world_size as int),
{
    let mut out: Vec<String> = Vec::new();
    let mut i: usize = 0;
    while i < files.len()
        invariant
            i <= files@.len(),
            hashes@.len() == files@.len(),
            world_size > 0,
            views_of(out@) == hashed_shard(views_of(files@).take(i as int), hashes@, rank as int, world_size as int),
        decreases files.len() - i,
    {
        let ghost fv = views_of(files@);
        assert(fv.take(i as int + 1).drop_last() =~= fv.take(i as int));
        if hashes[i] % (world_size as u64) == rank as u64 {
            out.push(files[i].clone());
            assert(views_of(out@) =~= hashed_shard(fv.take(i as int), hashes@, rank as int, world_size as int).push(fv[i as int]));
        }
        i = i + 1;
    }
    assert(views_of(files@).take(i as int) =~= views_of(files@));
    out
}

/// The hash that `DefaultHasher::new()` gives a string.
pub uninterp spec fn default_hash_of(s: Seq<char>) -> u64;

/// Relies on `std::hash::DefaultHasher::new` and `Hash for String`: a hasher
/// built by `new` always starts from the same keys, so the hash depends on
/// the string alone.
#[verifier::external_body]
fn default_hash(s: &String) -> (r: u64)
    ensures
        r == default_hash_of(s@),
{
    let mut h = std::hash::DefaultHasher::new();
    std::hash::Hash::hash(s, &mut h);
    std::hash::Hasher::finish(&h)
}

/// Hashes of the files, by position.
pub fn file_hashes(files: &Vec<String>) -> (r: Vec<u64>)
    ensures
        r@.len() == files@.len(),
        forall|i: int| 0 <= i < files@.len() ==> r@[i] == default_hash_of(#[trigger] files@[i]@),
{
    let mut out: Vec<u64> = Vec::new();
    let mut i: usize = 0;
    while i < files.len()
        invariant
            i <= files@.len(),
            out@.len() == i,
            forall|j: int| 0 <= j < i ==> out@[j] == default_hash_of(#[trigger] files@[j]@),
        decreases files.len() - i,
    {
        out.push(default_hash(&files[i]));
        i = i + 1;
    }
    out
}

/// The share of `rank` under a named strategy: "interleaved", "contiguous"
/// or "hash" (by `DefaultHasher`). No files give an empty share whatever
/// the strategy.
pub fn apply_sharding_strategy(files: &Vec<String>, rank: u32, world_size: u32, strategy: &str) -> (r: Result<Vec<String>, ShardError>)
    requires
        rank < world_size,
    ensures
        files@.len() == 0 ==> r is Ok && r->Ok_0@.len() == 0,
        files@.len() > 0 ==> (r is Ok <==> (strategy@ == "interleaved"@ || strategy@ == "contiguous"@ || strategy@ == "hash"@)),
        files@.len() > 0 && strategy@ == "interleaved"@ ==> r is Ok && views_of(r->Ok_0@) == interleaved_shard(views_of(files@), rank as int, world_size as int),
        files@.len() > 0 && strategy@ == "contiguous"@ ==> r is Ok && views_of(r->Ok_0@) == contiguous_shard(views_of(files@), rank as int, world_size as int),
        files@.len() > 0 && strategy@ == "hash"@ ==> r is Ok && views_of(r->Ok_0@) == hashed_shard(
            views_of(files@),
            files@.map_values(|f: String| default_hash_of(f@)),
            rank as int,
            world_size as int,
        ),
        r is Err ==> r->Err_0 is UnknownStrategy && r->Err_0->UnknownStrategy_0@ == strategy@,
{
    proof {
        reveal_strlit("interleaved");
        reveal_strlit("contiguous");
        reveal_strlit("hash");
        assert("interleaved"@.len() == 11 && "contiguous"@.len() == 10 && "hash"@.len() == 4);
    }
    if files.len() == 0 {
        return Ok(Vec::new());
    }
    if str_eq(strategy, "interleaved") {
        Ok(shard_interleaved(files, rank, world_size))
    } else if str_eq(strategy, "contiguous") {
        Ok(shard_contiguous(files, rank, world_size))
    } else if str_eq(strategy, "hash") {
        let hashes = file_hashes(files);
        assert(hashes@ =~= files@.map_values(|f: String| default_hash_of(f@)));
        Ok(shard_by_hash(files, &hashes, rank, world_size))
    } else {
        Err(ShardError::UnknownStrategy(String::from_str(strategy)))
    }
}

} // verus!
