use ozy::routines::{calculate_mipcount, mip_resolution};

#[test]
fn mipcount_of_single_texel_is_one() {
    assert_eq!(calculate_mipcount(1, 1), 1);
    assert_eq!(calculate_mipcount(0, 0), 1);
}

#[test]
fn mipcount_follows_longer_side() {
    assert_eq!(calculate_mipcount(256, 128), 9);
    assert_eq!(calculate_mipcount(1, 1024), 11);
    assert_eq!(calculate_mipcount(1000, 3), 10);
    assert_eq!(calculate_mipcount(4096, 4096), 13);
}

#[test]
fn mipcount_of_largest_size() {
    assert_eq!(calculate_mipcount(1 << 20, 7), 21);
}

#[test]
fn mip_resolution_halves_each_level() {
    assert_eq!(mip_resolution(256, 128, 0), (256, 128));
    assert_eq!(mip_resolution(256, 128, 3), (32, 16));
    assert_eq!(mip_resolution(300, 7, 1), (150, 3));
}

#[test]
fn mip_resolution_never_below_one() {
    assert_eq!(mip_resolution(256, 128, 8), (1, 1));
    assert_eq!(mip_resolution(4, 1, 5), (1, 1));
    assert_eq!(mip_resolution(u32::MAX, 0, 31), (1, 1));
}
