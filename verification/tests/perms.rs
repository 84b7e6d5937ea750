use sdlpatch::perms::{adjust, bit_for, user_read_write, Mode, Reference};

#[test]
fn adjust_is_noop_when_bit_already_set() {
    // 0o644 already has user write; requesting it changes nothing.
    assert_eq!(adjust(0o644, Reference::User, Mode::Write), 0o644);
}

#[test]
fn adjust_adds_missing_bit() {
    assert_eq!(adjust(0o644, Reference::User, Mode::Execute), 0o744);
}

#[test]
fn adjust_never_clears_existing_bits() {
    let modes = [0o000u32, 0o644, 0o755, 0o777, 0o421];
    let refs = [Reference::User, Reference::Group, Reference::World];
    let kinds = [Mode::Read, Mode::Write, Mode::Execute];
    for &m in &modes {
        for &r in &refs {
            for &k in &kinds {
                let n = adjust(m, r, k);
                assert_eq!(n & m, m, "an existing bit was cleared");
                assert_eq!(n, m | bit_for(r, k));
                assert!(n.count_ones() >= m.count_ones());
            }
        }
    }
}

#[test]
fn bit_table_is_the_full_three_by_three() {
    // Each of the nine targets maps to its own distinct bit: group- and
    // world-scoped requests never collapse onto the owner's bits.
    assert_eq!(bit_for(Reference::User, Mode::Read), 0o400);
    assert_eq!(bit_for(Reference::User, Mode::Write), 0o200);
    assert_eq!(bit_for(Reference::User, Mode::Execute), 0o100);
    assert_eq!(bit_for(Reference::Group, Mode::Read), 0o040);
    assert_eq!(bit_for(Reference::Group, Mode::Write), 0o020);
    assert_eq!(bit_for(Reference::Group, Mode::Execute), 0o010);
    assert_eq!(bit_for(Reference::World, Mode::Read), 0o004);
    assert_eq!(bit_for(Reference::World, Mode::Write), 0o002);
    assert_eq!(bit_for(Reference::World, Mode::Execute), 0o001);
}

#[test]
fn user_read_write_sets_only_owner_bits() {
    assert_eq!(user_read_write(0o000), 0o600);
    assert_eq!(user_read_write(0o644), 0o644);
    assert_eq!(user_read_write(0o044), 0o644);
    assert_eq!(user_read_write(0o777), 0o777);
}
