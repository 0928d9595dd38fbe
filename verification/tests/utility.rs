use particles::utility::roundup_multiple_of;
use particles::utility::roundup_next_power_of_two;
use particles::utility::size_of_slice;

#[test]
fn next_power_of_two() {
    assert_eq!(roundup_next_power_of_two(0), 0);
    assert_eq!(roundup_next_power_of_two(1), 1);
    assert_eq!(roundup_next_power_of_two(2), 2);
    assert_eq!(roundup_next_power_of_two(3), 4);
    assert_eq!(roundup_next_power_of_two(5), 8);
    assert_eq!(roundup_next_power_of_two(1000), 1024);
    assert_eq!(roundup_next_power_of_two(1024), 1024);
    assert_eq!(roundup_next_power_of_two(1025), 2048);
    assert_eq!(roundup_next_power_of_two(0x4000_0001), 0x8000_0000);
    assert_eq!(roundup_next_power_of_two(0x8000_0000), 0x8000_0000);
}

#[test]
fn next_multiple() {
    assert_eq!(roundup_multiple_of(0, 16), 16);
    assert_eq!(roundup_multiple_of(1, 16), 16);
    assert_eq!(roundup_multiple_of(15, 16), 16);
    assert_eq!(roundup_multiple_of(16, 16), 32);
    assert_eq!(roundup_multiple_of(17, 16), 32);
    assert_eq!(roundup_multiple_of(7, 1), 8);
    assert_eq!(roundup_multiple_of(10, 3), 12);
}

#[test]
fn bytes_of_a_slice() {
    assert_eq!(size_of_slice(&[1u32, 2, 3]), 12);
    assert_eq!(size_of_slice::<u64>(&[]), 0);
    assert_eq!(size_of_slice(&[0u8; 5]), 5);
    assert_eq!(size_of_slice(&[(0u16, 0u16); 4]), 16);
}
