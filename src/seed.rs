use vstd::prelude::*;

verus! {

/// Length in bytes of a resolved seed.
pub const SEED_LEN: usize = 32;

/// A seed override that cannot be used.
#[derive(Debug, Clone, Copy, PartialEq, Eq, Structural)]
pub enum SeedError {
    /// The override holds more than `SEED_LEN` bytes; the value is its length.
    InvalidLength(usize),
}

/// The seed that an override resolves to: the override's bytes, then the
/// pool's bytes from the override's length on.
pub open spec fn resolved_seed(over: Seq<u8>, pool: Seq<u8>) -> Seq<u8> {
    over + pool.subrange(over.len() as int, SEED_LEN as int)
}

/// Resolves the 32-byte seed from an optional override and the process's
/// random pool. A missing override counts as an empty one; an override longer
/// than 32 bytes is rejected, never truncated.
pub fn get_seed(over: Option<&[u8]>, pool: &[u8]) -> (r: Result<Vec<u8>, SeedError>)
    requires
        pool@.len() == SEED_LEN,
    ensures
        match over {
            None => r matches Ok(s) && s@ == pool@,
            Some(o) => if o@.len() > SEED_LEN {
                r == Err::<Vec<u8>, SeedError>(SeedError::InvalidLength(o@.len() as usize))
            } else {
                r matches Ok(s) && s@ == resolved_seed(o@, pool@)
            },
        },
        r matches Ok(s) ==> s@.len() == SEED_LEN,
{
    let o: &[u8] = match over {
        None => &[],
        Some(o) => o,
    };
    if o.len() > SEED_LEN {
        return Err(SeedError::InvalidLength(o.len()));
    }
    let mut seed: Vec<u8> = Vec::new();
    let mut i: usize = 0;
    while i < o.len()
        invariant
            i <= o@.len(),
            seed@ == o@.subrange(0, i as int),
        decreases o@.len() - i,
    {
        seed.push(o[i]);
        i += 1;
    }
    assert(seed@ == o@);
    while i < SEED_LEN
        invariant
            o@.len() <= i <= SEED_LEN,
            pool@.len() == SEED_LEN,
            seed@ == o@ + pool@.subrange(o@.len() as int, i as int),
        decreases SEED_LEN - i,
    {
        seed.push(pool[i]);
        i += 1;
        assert(seed@ == o@ + pool@.subrange(o@.len() as int, i as int));
    }
    proof {
        if over is None {
            assert(pool@.subrange(0, SEED_LEN as int) == pool@);
        }
    }
    Ok(seed)
}

/// A resolved seed is 32 bytes long and begins with the override; every byte
/// past the override comes from the pool, so two overrides resolved against
/// the same pool share the padding tail, and resolving one override twice
/// gives one seed.
pub proof fn lemma_seed_padding(o1: Seq<u8>, o2: Seq<u8>, pool: Seq<u8>)
    requires
        o1.len() <= SEED_LEN,
        o2.len() <= SEED_LEN,
        pool.len() == SEED_LEN,
    ensures
        resolved_seed(o1, pool).len() == SEED_LEN,
        resolved_seed(o1, pool).subrange(0, o1.len() as int) == o1,
        forall|i: int| o1.len() <= i < SEED_LEN ==> #[trigger] resolved_seed(o1, pool)[i] == pool[i],
        forall|i: int| o1.len() <= i < SEED_LEN && o2.len() <= i
            ==> #[trigger] resolved_seed(o1, pool)[i] == resolved_seed(o2, pool)[i],
        o1 == o2 ==> resolved_seed(o1, pool) == resolved_seed(o2, pool),
{
    assert(resolved_seed(o1, pool).subrange(0, o1.len() as int) =~= o1);
}

} // verus!
