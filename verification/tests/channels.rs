//! Channel arithmetic and construction.

use midix::Channel;

#[test]
fn test_add_channel() {
    let channel = Channel::Two;
    assert_eq!(channel + 0, Channel::Two);
    assert_eq!(channel + 1, Channel::Three);
    assert_eq!(channel + 28, Channel::Sixteen);
    assert_eq!(channel + 140, Channel::Sixteen);
}

#[test]
fn test_sub_channel() {
    let channel = Channel::Five;
    assert_eq!(channel - 0, Channel::Five);
    assert_eq!(channel - 1, Channel::Four);
    assert_eq!(channel - 5, Channel::One);
    assert_eq!(channel - 8, Channel::One);
}

#[test]
fn channel_from_status() {
    assert_eq!(Channel::Eight, Channel::from_status(0b1011_0111));
    assert_eq!(Channel::One, Channel::from_status(0b1011_0000));
    assert_eq!(Channel::Sixteen, Channel::from_status(0b0101_1111));
}

#[test]
fn channel_round_trips_through_byte() {
    for (i, c) in Channel::all().iter().enumerate() {
        assert_eq!(c.to_byte() as usize, i);
        assert_eq!(Channel::try_from_byte(c.to_byte()), Some(*c));
    }
    assert_eq!(Channel::try_from_byte(16), None);
    assert_eq!(Channel::try_from_byte(255), None);
}
