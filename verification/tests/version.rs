use nt_version::version::{OutputSlots, VersionTriple};

#[test]
fn slots_start_at_zero() {
    let slots = OutputSlots::zeroed();
    assert_eq!(slots.major, 0);
    assert_eq!(slots.minor, 0);
    assert_eq!(slots.build, 0);
}

#[test]
fn untouched_slots_give_the_all_zero_triple() {
    assert_eq!(OutputSlots::zeroed().triple(), (0, 0, 0));
}

#[test]
fn triple_is_major_minor_build_in_that_order() {
    let slots = OutputSlots { major: 1, minor: 2, build: 3 };
    assert_eq!(slots.triple(), (1, 2, 3));
}

#[test]
fn triple_shows_what_was_written_into_zeroed_slots() {
    let mut slots = OutputSlots::zeroed();
    slots.major = 6;
    slots.minor = 1;
    slots.build = 7601;
    assert_eq!(slots.triple(), (6, 1, 7601));
}

#[test]
fn triple_keeps_all_32_bits_of_each_slot() {
    let slots = OutputSlots { major: u32::MAX, minor: 0x8000_0000, build: 0xF000_4A64 };
    let version: VersionTriple = slots.triple();
    assert_eq!(version.0, 4_294_967_295);
    assert_eq!(version.1, 2_147_483_648);
    assert_eq!(version.2, 0xF000_4A64);
}

#[test]
fn windows_10_host_reports_ten_zero_and_its_build() {
    let mut slots = OutputSlots::zeroed();
    slots.major = 10;
    slots.minor = 0;
    slots.build = 19045;
    let (major, minor, build) = slots.triple();
    assert_eq!((major, minor), (10, 0));
    assert_eq!(build, 19045);
    assert!(build > 0);
}

#[test]
fn taking_the_triple_leaves_the_slots_alone() {
    let slots = OutputSlots { major: 5, minor: 1, build: 2600 };
    let first = slots.triple();
    let second = slots.triple();
    assert_eq!(first, second);
    assert_eq!(slots, OutputSlots { major: 5, minor: 1, build: 2600 });
}

#[test]
fn slots_that_differ_in_one_number_give_different_triples() {
    let base = OutputSlots { major: 10, minor: 0, build: 22000 };
    let other_major = OutputSlots { major: 6, ..base };
    let other_minor = OutputSlots { minor: 3, ..base };
    let other_build = OutputSlots { build: 22621, ..base };
    assert_ne!(base.triple(), other_major.triple());
    assert_ne!(base.triple(), other_minor.triple());
    assert_ne!(base.triple(), other_build.triple());
    assert_eq!(base.triple(), OutputSlots { major: 10, minor: 0, build: 22000 }.triple());
}
