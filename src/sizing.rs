//! Sizing of engine caches and worker pools from the host's memory and CPUs.

use vstd::prelude::*;

verus! {

pub const KB: u64 = 1024;

pub const MB: u64 = 1024 * 1024;

pub const GB: u64 = 1024 * 1024 * 1024;

pub const RAFTCF_MIN_MEM: u64 = 256 * MB;

pub const RAFTCF_MAX_MEM: u64 = 2 * GB;

pub const LOCKCF_MIN_MEM: u64 = 256 * MB;

pub const LOCKCF_MAX_MEM: u64 = GB;

/// The share of memory, in percent, of the block cache of each column
/// family.
pub const DEFAULTCF_CACHE_PERCENT: u64 = 25;

pub const WRITECF_CACHE_PERCENT: u64 = 15;

pub const RAFTCF_CACHE_PERCENT: u64 = 2;

pub const LOCKCF_CACHE_PERCENT: u64 = 2;

/// The shares of the four column families' block caches add up to no more
/// than all of memory.
pub open spec fn cache_shares_fit() -> bool {
    DEFAULTCF_CACHE_PERCENT + WRITECF_CACHE_PERCENT + RAFTCF_CACHE_PERCENT + LOCKCF_CACHE_PERCENT
        <= 100
}

/// Whether the column families' block cache shares fit in memory.
pub fn sanitize_memory_usage() -> (r: bool)
    ensures
        r == cache_shares_fit(),
{
    let ratio: u64 = DEFAULTCF_CACHE_PERCENT + WRITECF_CACHE_PERCENT + RAFTCF_CACHE_PERCENT
        + LOCKCF_CACHE_PERCENT;
    ratio <= 100
}

/// `n` rounded down to a whole number of MiB.
pub fn align_to_mb(n: u64) -> (r: u64)
    ensures
        r == n - n % MB,
        r % MB == 0,
        r <= n,
{
    let r = n & 0xFFFF_FFFF_FFF0_0000;
    assert(n & 0xFFFF_FFFF_FFF0_0000 == n - n % 0x10_0000) by (bit_vector);
    assert((n - n % 0x10_0000) % 0x10_0000 == 0) by (bit_vector);
    r
}

/// `cache_size` brought into `[min_limit, max_limit]`.
pub open spec fn clamp(cache_size: u64, min_limit: u64, max_limit: u64) -> u64 {
    if cache_size < min_limit {
        min_limit
    } else if cache_size > max_limit {
        max_limit
    } else {
        cache_size
    }
}

pub fn adjust_block_cache_size(cache_size: u64, min_limit: u64, max_limit: u64) -> (r: u64)
    ensures
        r == clamp(cache_size, min_limit, max_limit),
{
    if cache_size < min_limit {
        return min_limit;
    }
    if cache_size > max_limit {
        return max_limit;
    }
    cache_size
}

/// The coprocessor concurrency for a host's CPU count: four fifths of the
/// CPUs, rounded down, and at least four.
pub open spec fn end_points_for(cpus: int) -> int {
    if cpus * 4 / 5 >= 4 {
        cpus * 4 / 5
    } else {
        4
    }
}

pub fn adjust_end_points_by_cpu_num(total_cpu_num: usize) -> (r: usize)
    ensures
        r == end_points_for(total_cpu_num as int),
{
    let n = total_cpu_num;
    let scaled = n / 5 * 4 + n % 5 * 4 / 5;
    proof {
        let x = n as int;
        let q = x / 5;
        let m = x % 5;
        vstd::arithmetic::div_mod::lemma_fundamental_div_mod(x, 5);
        vstd::arithmetic::div_mod::lemma_fundamental_div_mod(m * 4, 5);
        assert(x * 4 == 5 * (q * 4 + m * 4 / 5) + (m * 4) % 5) by (nonlinear_arith)
            requires
                x == 5 * q + m,
                m * 4 == 5 * (m * 4 / 5) + (m * 4) % 5,
        ;
        vstd::arithmetic::div_mod::lemma_mod_bound(m * 4, 5);
        vstd::arithmetic::div_mod::lemma_fundamental_div_mod_converse(x * 4, 5, q * 4 + m * 4 / 5, (m * 4) % 5);
    }
    if scaled >= 4 {
        scaled
    } else {
        4
    }
}

/// A cache of `percent` percent of `total_mem`, rounded down to whole MiB.
pub open spec fn share_of(total_mem: u64, percent: u64) -> int {
    let raw = total_mem as int * percent as int / 100;
    raw - raw % MB as int
}

/// The block cache of `percent` percent of `total_mem`, in whole MiB.
pub fn cf_cache_share(total_mem: u64, percent: u64) -> (r: u64)
    requires
        percent <= 100,
    ensures
        r == share_of(total_mem, percent),
        r % MB == 0,
{
    proof {
        assert(total_mem as int * percent as int / 100 <= total_mem as int) by (nonlinear_arith)
            requires
                0 <= percent <= 100,
                total_mem >= 0,
        ;
    }
    let raw = (total_mem as u128 * percent as u128 / 100) as u64;
    align_to_mb(raw)
}

/// The block cache sizes of the four column families.
#[derive(Copy, Clone, Debug, PartialEq, Eq, Structural)]
pub struct BlockCacheSizes {
    pub default_cf: u64,
    pub write_cf: u64,
    pub raft_cf: u64,
    pub lock_cf: u64,
}

/// The block cache sizes for a host with `total_mem` bytes of memory: each
/// column family's share in whole MiB, the raft and lock shares brought
/// into their ranges.
pub open spec fn cache_sizes_for(total_mem: u64) -> BlockCacheSizes {
    BlockCacheSizes {
        default_cf: share_of(total_mem, DEFAULTCF_CACHE_PERCENT) as u64,
        write_cf: share_of(total_mem, WRITECF_CACHE_PERCENT) as u64,
        raft_cf: clamp(share_of(total_mem, RAFTCF_CACHE_PERCENT) as u64, RAFTCF_MIN_MEM, RAFTCF_MAX_MEM),
        lock_cf: clamp(share_of(total_mem, LOCKCF_CACHE_PERCENT) as u64, LOCKCF_MIN_MEM, LOCKCF_MAX_MEM),
    }
}

pub fn block_cache_sizes(total_mem: u64) -> (r: BlockCacheSizes)
    ensures
        r == cache_sizes_for(total_mem),
        RAFTCF_MIN_MEM <= r.raft_cf <= RAFTCF_MAX_MEM,
        LOCKCF_MIN_MEM <= r.lock_cf <= LOCKCF_MAX_MEM,
        r.default_cf % MB == 0,
        r.write_cf % MB == 0,
        r.raft_cf % MB == 0,
        r.lock_cf % MB == 0,
{
    let raft = cf_cache_share(total_mem, RAFTCF_CACHE_PERCENT);
    let lock = cf_cache_share(total_mem, LOCKCF_CACHE_PERCENT);
    BlockCacheSizes {
        default_cf: cf_cache_share(total_mem, DEFAULTCF_CACHE_PERCENT),
        write_cf: cf_cache_share(total_mem, WRITECF_CACHE_PERCENT),
        raft_cf: adjust_block_cache_size(raft, RAFTCF_MIN_MEM, RAFTCF_MAX_MEM),
        lock_cf: adjust_block_cache_size(lock, LOCKCF_MIN_MEM, LOCKCF_MAX_MEM),
    }
}

pub proof fn lemma_share_bounds(total_mem: u64, percent: u64)
    requires
        percent <= 100,
    ensures
        0 <= share_of(total_mem, percent) <= total_mem as int * percent as int / 100,
        share_of(total_mem, percent) % MB as int == 0,
{
    let raw = total_mem as int * percent as int / 100;
    assert(raw >= 0) by (nonlinear_arith)
        requires
            raw == total_mem as int * percent as int / 100,
            total_mem >= 0,
            percent >= 0,
    ;
    vstd::arithmetic::div_mod::lemma_mod_bound(raw, MB as int);
    vstd::arithmetic::div_mod::lemma_fundamental_div_mod(raw, MB as int);
    assert((raw - raw % MB as int) == MB as int * (raw / MB as int));
    vstd::arithmetic::div_mod::lemma_mod_multiples_basic(raw / MB as int, MB as int);
    assert((raw / MB as int) * MB as int == MB as int * (raw / MB as int)) by (nonlinear_arith);
}

/// Every block cache size is a whole number of MiB.
pub proof fn law_cache_sizes_aligned(total_mem: u64)
    ensures
        cache_sizes_for(total_mem).default_cf % MB == 0,
        cache_sizes_for(total_mem).write_cf % MB == 0,
        cache_sizes_for(total_mem).raft_cf % MB == 0,
        cache_sizes_for(total_mem).lock_cf % MB == 0,
{
    lemma_share_bounds(total_mem, DEFAULTCF_CACHE_PERCENT);
    lemma_share_bounds(total_mem, WRITECF_CACHE_PERCENT);
    lemma_share_bounds(total_mem, RAFTCF_CACHE_PERCENT);
    lemma_share_bounds(total_mem, LOCKCF_CACHE_PERCENT);
}

/// The raft cache lies within 256 MiB and 2 GiB, the lock cache within
/// 256 MiB and 1 GiB.
pub proof fn law_cache_sizes_clamped(total_mem: u64)
    ensures
        RAFTCF_MIN_MEM <= cache_sizes_for(total_mem).raft_cf <= RAFTCF_MAX_MEM,
        LOCKCF_MIN_MEM <= cache_sizes_for(total_mem).lock_cf <= LOCKCF_MAX_MEM,
{
}

/// On a host with at least 851 MiB of memory, the block caches together
/// take no more than all of it. (Below that the lower bounds of the raft and
/// lock caches, 256 MiB each, leave too little: 850 MiB of memory gives
/// caches of 212, 127, 256 and 256 MiB.)
pub proof fn law_cache_sizes_fit(total_mem: u64)
    requires
        total_mem >= 851 * MB,
    ensures
        cache_sizes_for(total_mem).default_cf + cache_sizes_for(total_mem).write_cf
            + cache_sizes_for(total_mem).raft_cf + cache_sizes_for(total_mem).lock_cf <= total_mem,
{
    lemma_share_bounds(total_mem, DEFAULTCF_CACHE_PERCENT);
    lemma_share_bounds(total_mem, WRITECF_CACHE_PERCENT);
    lemma_share_bounds(total_mem, RAFTCF_CACHE_PERCENT);
    lemma_share_bounds(total_mem, LOCKCF_CACHE_PERCENT);
    let t = total_mem as int;
    let m = MB as int;
    let d = share_of(total_mem, DEFAULTCF_CACHE_PERCENT);
    let w = share_of(total_mem, WRITECF_CACHE_PERCENT);
    if t * 2 / 100 <= 256 * m {
        let q = t / m;
        let a = d / m;
        let b = w / m;
        vstd::arithmetic::div_mod::lemma_fundamental_div_mod(t, m);
        vstd::arithmetic::div_mod::lemma_fundamental_div_mod(d, m);
        vstd::arithmetic::div_mod::lemma_fundamental_div_mod(w, m);
        assert(d == m * a && w == m * b);
        assert(q * m <= t < q * m + m);
        assert(4 * a <= q) by (nonlinear_arith)
            requires
                m * a <= t * 25 / 100,
                t < q * m + m,
                m == 1048576,
        ;
        assert(20 * b <= 3 * q + 2) by (nonlinear_arith)
            requires
                m * b <= t * 15 / 100,
                t < q * m + m,
                m == 1048576,
        ;
        assert(q >= 851) by (nonlinear_arith)
            requires
                t >= 851 * m,
                t < q * m + m,
                m == 1048576,
        ;
        assert(a + b + 512 <= q);
        assert(m * a + m * b + 512 * m <= q * m) by (nonlinear_arith)
            requires
                a + b + 512 <= q,
                m == 1048576,
        ;
    } else {
        assert(t * 25 / 100 + t * 15 / 100 + 2 * (t * 2 / 100) <= t) by (nonlinear_arith)
            requires
                t >= 0,
        ;
    }
}

} // verus!
