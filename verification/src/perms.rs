//! Permission adjustment: the three-by-three table from a requested
//! permission target to its numeric bit, and the monotone update that sets
//! the requested bit while keeping every bit already present.

use vstd::prelude::*;

verus! {

/// Whose access a permission bit governs.
#[derive(Clone, Copy, PartialEq, Eq, Structural, Debug)]
pub enum Reference {
    User,
    Group,
    World,
}

/// The kind of access a permission bit grants.
#[derive(Clone, Copy, PartialEq, Eq, Structural, Debug)]
pub enum Mode {
    Read,
    Write,
    Execute,
}

/// The numeric bit for one requested permission target. Each of the nine
/// (reference, mode) pairs maps to its own bit: group- and world-scoped
/// requests never touch the owner's bits.
pub open spec fn bit_spec(r: Reference, m: Mode) -> u32 {
    match (r, m) {
        (Reference::User, Mode::Read) => 0o400,
        (Reference::User, Mode::Write) => 0o200,
        (Reference::User, Mode::Execute) => 0o100,
        (Reference::Group, Mode::Read) => 0o040,
        (Reference::Group, Mode::Write) => 0o020,
        (Reference::Group, Mode::Execute) => 0o010,
        (Reference::World, Mode::Read) => 0o004,
        (Reference::World, Mode::Write) => 0o002,
        (Reference::World, Mode::Execute) => 0o001,
    }
}

/// Looks up the numeric bit for a requested permission target.
pub fn bit_for(r: Reference, m: Mode) -> (b: u32)
    ensures
        b == bit_spec(r, m),
{
    match (r, m) {
        (Reference::User, Mode::Read) => 0o400,
        (Reference::User, Mode::Write) => 0o200,
        (Reference::User, Mode::Execute) => 0o100,
        (Reference::Group, Mode::Read) => 0o040,
        (Reference::Group, Mode::Write) => 0o020,
        (Reference::Group, Mode::Execute) => 0o010,
        (Reference::World, Mode::Read) => 0o004,
        (Reference::World, Mode::Write) => 0o002,
        (Reference::World, Mode::Execute) => 0o001,
    }
}

/// The adjusted permission bits: the existing bits with the requested bit set.
pub open spec fn adjust_spec(mode: u32, r: Reference, m: Mode) -> u32 {
    mode | bit_spec(r, m)
}

/// Sets the requested permission bit, preserving every existing bit.
pub fn adjust(mode: u32, r: Reference, m: Mode) -> (n: u32)
    ensures
        n == adjust_spec(mode, r, m),
{
    mode | bit_for(r, m)
}

/// Permission monotonicity: adjusting a mode yields exactly the bitwise or of
/// the existing bits and the requested bit, the existing bits all survive,
/// and so the result never has fewer set bits than the mode it started from.
pub proof fn lemma_adjust_monotone(mode: u32, r: Reference, m: Mode)
    ensures
        adjust_spec(mode, r, m) == mode | bit_spec(r, m),
        adjust_spec(mode, r, m) & mode == mode,
        forall|i: u32|
            i < 32 && mode & (1u32 << i) != 0 ==> adjust_spec(mode, r, m) & (1u32 << i) != 0,
{
    let b = bit_spec(r, m);
    assert((mode | b) & mode == mode) by (bit_vector);
    assert forall|i: u32| i < 32 && mode & (1u32 << i) != 0 implies (mode | b) & (1u32 << i)
        != 0 by {
        assert((mode | b) & (1u32 << i) != 0) by (bit_vector)
            requires
                mode & (1u32 << i) != 0,
        ;
    }
}

/// The new permission bits for making a file readable and writeable by its
/// owner: user read and user write added, everything else kept.
pub fn user_read_write(mode: u32) -> (n: u32)
    ensures
        n == mode | 0o600,
{
    let readable = adjust(mode, Reference::User, Mode::Read);
    let n = adjust(readable, Reference::User, Mode::Write);
    assert((mode | 0o400u32) | 0o200u32 == mode | 0o600u32) by (bit_vector);
    n
}

} // verus!
