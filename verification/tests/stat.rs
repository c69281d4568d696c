use unixproc::sys::stat::{major, makedev, minor};

#[test]
fn test_makedev_small_numbers() {
    // the classic disk device 8:1 packs into 0x801
    assert_eq!(makedev(8, 1), 0x801);
    assert_eq!(major(0x801), 8);
    assert_eq!(minor(0x801), 1);
}

#[test]
fn test_dev_round_trips() {
    let pairs: Vec<(u64, u64)> = vec![(0, 0), (8, 1), (0xfff, 0xff), (0xfffff, 0xffffff)];
    for (ma, mi) in pairs {
        let dev = makedev(ma, mi);
        assert_eq!(major(dev), ma);
        assert_eq!(minor(dev), mi);
    }
}

#[test]
fn test_wide_fields_use_high_bits() {
    // a major number above 12 bits lands in the upper half of the word
    let dev = makedev(0x12345, 0x678);
    assert!(dev > 0xffff_ffff);
    assert_eq!(major(dev), 0x12345);
    assert_eq!(minor(dev), 0x678);
}
