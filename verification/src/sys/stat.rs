use vstd::prelude::*;

verus! {

/// The major device number packed into a raw Linux `dev_t`: bits 8..20 of
/// the device word form its low twelve bits and bits 32..64 the rest.
pub open spec fn major_of(dev: u64) -> u64 {
    ((dev >> 32) & 0xfffff000) | ((dev >> 8) & 0x00000fff)
}

/// The minor device number packed into a raw Linux `dev_t`: bits 0..8 of
/// the device word form its low eight bits and bits 20..44 the rest.
pub open spec fn minor_of(dev: u64) -> u64 {
    ((dev >> 12) & 0xffffff00) | (dev & 0x000000ff)
}

/// The raw Linux `dev_t` holding the given major and minor device numbers.
pub open spec fn makedev_of(major: u64, minor: u64) -> u64 {
    ((major & 0xfffff000) << 32) | ((major & 0x00000fff) << 8) | ((minor & 0xffffff00) << 12) | (
    minor & 0x000000ff)
}

/// Extracts the major device number from a raw device word.
pub fn major(dev: u64) -> (r: u64)
    ensures
        r == major_of(dev),
{
    ((dev >> 32) & 0xfffff000) | ((dev >> 8) & 0x00000fff)
}

/// Extracts the minor device number from a raw device word.
pub fn minor(dev: u64) -> (r: u64)
    ensures
        r == minor_of(dev),
{
    ((dev >> 12) & 0xffffff00) | (dev & 0x000000ff)
}

/// Packs a major and a minor device number into a raw device word.
pub fn makedev(major: u64, minor: u64) -> (r: u64)
    ensures
        r == makedev_of(major, minor),
{
    ((major & 0xfffff000) << 32) | ((major & 0x00000fff) << 8) | ((minor & 0xffffff00) << 12) | (
    minor & 0x000000ff)
}

/// Splitting a device word into its major and minor numbers and packing
/// them again restores the word exactly: the two fields partition its bits.
pub proof fn lemma_dev_round_trip(dev: u64)
    ensures
        makedev_of(major_of(dev), minor_of(dev)) == dev,
{
    assert(makedev_of(major_of(dev), minor_of(dev)) == dev) by (bit_vector);
}

/// Packing a major and a minor number that fit in 32 bits and splitting the
/// word again restores both numbers exactly.
pub proof fn lemma_makedev_round_trip(major: u64, minor: u64)
    requires
        major <= 0xffffffff,
        minor <= 0xffffffff,
    ensures
        major_of(makedev_of(major, minor)) == major,
        minor_of(makedev_of(major, minor)) == minor,
{
    assert(major_of(makedev_of(major, minor)) == major && minor_of(makedev_of(major, minor))
        == minor) by (bit_vector)
        requires
            major <= 0xffffffff,
            minor <= 0xffffffff,
    ;
}

} // verus!
