//! ShardRouter: maps (region, request body) to a concrete region-pinned
//! execution target. The shard index is a deterministic function of the body
//! bytes — a fixed-parameter 64-bit FNV-1a hash taken modulo the shard count —
//! so identical bodies always select the same shard, across calls, processes
//! and restarts.

use vstd::prelude::*;

use crate::classify::RegionCode;

verus! {

/// Number of equally-weighted shards per region.
pub const SHARD_COUNT: u64 = 10;

/// The FNV-1a offset basis.
pub const FNV_OFFSET: u64 = 0xcbf29ce484222325;

/// The FNV-1a 64-bit prime.
pub const FNV_PRIME: u64 = 0x100000001b3;

/// One FNV-1a round: fold a byte into the running hash.
pub open spec fn fnv1a_step(h: u64, b: u8) -> u64 {
    vstd::wrapping::u64_specs::wrapping_mul(h ^ (b as u64), FNV_PRIME)
}

/// The 64-bit FNV-1a hash of a byte sequence: a pure function of the bytes,
/// with fixed offset basis and prime, so it is stable across processes,
/// restarts and machines.
pub open spec fn fnv1a_hash(s: Seq<u8>) -> u64
    decreases s.len(),
{
    if s.len() == 0 {
        FNV_OFFSET
    } else {
        fnv1a_step(fnv1a_hash(s.drop_last()), s.last())
    }
}

/// The shard a body is pinned to.
pub open spec fn shard_of(body: Seq<u8>) -> u64 {
    fnv1a_hash(body) % SHARD_COUNT
}

/// Computes the FNV-1a hash of `bytes`.
pub fn fnv1a(bytes: &[u8]) -> (h: u64)
    ensures
        h == fnv1a_hash(bytes@),
{
    let mut h: u64 = FNV_OFFSET;
    assert(bytes@.subrange(0, 0) =~= Seq::<u8>::empty());
    for i in 0..bytes.len()
        invariant
            h == fnv1a_hash(bytes@.subrange(0, i as int)),
    {
        h = (h ^ (bytes[i] as u64)).wrapping_mul(FNV_PRIME);
        proof {
            let pre = bytes@.subrange(0, i as int);
            let post = bytes@.subrange(0, i + 1);
            assert(post.drop_last() =~= pre);
            assert(post.last() == bytes@[i as int]);
        }
    }
    assert(bytes@.subrange(0, bytes@.len() as int) =~= bytes@);
    h
}

/// The character spelling of each region code, as used in target names and
/// location hints.
pub open spec fn region_chars(c: RegionCode) -> Seq<char> {
    match c {
        RegionCode::Wnam => "wnam"@,
        RegionCode::Enam => "enam"@,
        RegionCode::Weur => "weur"@,
        RegionCode::Eeur => "eeur"@,
        RegionCode::Apac => "apac"@,
        RegionCode::Oc => "oc"@,
        RegionCode::Af => "af"@,
        RegionCode::Me => "me"@,
    }
}

/// The namespace that holds each region's pool of execution targets.
pub open spec fn namespace_chars(c: RegionCode) -> Seq<char> {
    match c {
        RegionCode::Wnam => "WNAM_PROCESSOR"@,
        RegionCode::Enam => "ENAM_PROCESSOR"@,
        RegionCode::Weur => "WEUR_PROCESSOR"@,
        RegionCode::Eeur => "EEUR_PROCESSOR"@,
        RegionCode::Apac => "APAC_PROCESSOR"@,
        RegionCode::Oc => "OC_PROCESSOR"@,
        RegionCode::Af => "AF_PROCESSOR"@,
        RegionCode::Me => "ME_PROCESSOR"@,
    }
}

/// The decimal spelling of a shard index below the shard count.
pub open spec fn shard_digit(i: u64) -> Seq<char> {
    if i == 0 {
        "0"@
    } else if i == 1 {
        "1"@
    } else if i == 2 {
        "2"@
    } else if i == 3 {
        "3"@
    } else if i == 4 {
        "4"@
    } else if i == 5 {
        "5"@
    } else if i == 6 {
        "6"@
    } else if i == 7 {
        "7"@
    } else if i == 8 {
        "8"@
    } else {
        "9"@
    }
}

/// The name of the target an input is routed to:
/// `<region code>-processor-<shard index>`.
pub open spec fn target_name_chars(c: RegionCode, shard: u64) -> Seq<char> {
    region_chars(c) + "-processor-"@ + shard_digit(shard)
}

/// An addressable region-pinned execution target. The location hint names the
/// jurisdiction the hosting platform must execute in; for the two European
/// regions it is a hard jurisdiction pin that the collaborator honors.
pub struct TargetDescriptor {
    /// Namespace the target lives in.
    pub namespace: String,
    /// Shard index, below the shard count.
    pub shard: u64,
    /// Name of the target within the namespace.
    pub name: String,
    /// Location hint handed to the hosting platform.
    pub location_hint: String,
    /// Whether the target is pinned to EU jurisdiction.
    pub is_eu: bool,
}

/// The region spelling as a string slice.
fn region_code_str(c: RegionCode) -> (r: &'static str)
    ensures
        r@ == region_chars(c),
{
    match c {
        RegionCode::Wnam => "wnam",
        RegionCode::Enam => "enam",
        RegionCode::Weur => "weur",
        RegionCode::Eeur => "eeur",
        RegionCode::Apac => "apac",
        RegionCode::Oc => "oc",
        RegionCode::Af => "af",
        RegionCode::Me => "me",
    }
}

/// The namespace name as a string slice.
fn namespace_str(c: RegionCode) -> (r: &'static str)
    ensures
        r@ == namespace_chars(c),
{
    match c {
        RegionCode::Wnam => "WNAM_PROCESSOR",
        RegionCode::Enam => "ENAM_PROCESSOR",
        RegionCode::Weur => "WEUR_PROCESSOR",
        RegionCode::Eeur => "EEUR_PROCESSOR",
        RegionCode::Apac => "APAC_PROCESSOR",
        RegionCode::Oc => "OC_PROCESSOR",
        RegionCode::Af => "AF_PROCESSOR",
        RegionCode::Me => "ME_PROCESSOR",
    }
}

/// The decimal spelling of a shard index as a string slice.
fn shard_digit_str(i: u64) -> (r: &'static str)
    requires
        i < SHARD_COUNT,
    ensures
        r@ == shard_digit(i),
{
    if i == 0 {
        "0"
    } else if i == 1 {
        "1"
    } else if i == 2 {
        "2"
    } else if i == 3 {
        "3"
    } else if i == 4 {
        "4"
    } else if i == 5 {
        "5"
    } else if i == 6 {
        "6"
    } else if i == 7 {
        "7"
    } else if i == 8 {
        "8"
    } else {
        "9"
    }
}

/// Routes a request body to its region-pinned target: the shard index is the
/// body's FNV-1a hash modulo the shard count, and every field of the
/// descriptor is a pure function of the region and the body bytes.
pub fn route(region: RegionCode, body: &[u8]) -> (t: TargetDescriptor)
    ensures
        t.shard == shard_of(body@),
        t.namespace@ == namespace_chars(region),
        t.name@ == target_name_chars(region, shard_of(body@)),
        t.location_hint@ == region_chars(region),
        t.is_eu == region.spec_is_eu(),
{
    let h = fnv1a(body);
    let shard = h % SHARD_COUNT;
    let mut name = region_code_str(region).to_owned();
    name.append("-processor-");
    name.append(shard_digit_str(shard));
    TargetDescriptor {
        namespace: namespace_str(region).to_owned(),
        shard,
        name,
        location_hint: region_code_str(region).to_owned(),
        is_eu: region.is_eu(),
    }
}

/// Routing is affinity-preserving: two requests with equal body bytes are
/// routed to the same shard and the same target, in any process and after any
/// restart, because the target is a pure function of region and bytes.
pub proof fn routing_deterministic(region: RegionCode, b1: Seq<u8>, b2: Seq<u8>)
    requires
        b1 == b2,
    ensures
        shard_of(b1) == shard_of(b2),
        target_name_chars(region, shard_of(b1)) == target_name_chars(region, shard_of(b2)),
{
}

} // verus!
