//! Identifier for a MIDI channel.

use vstd::prelude::*;

verus! {

/// Identifies one of the sixteen MIDI channels.
///
/// [`Channel::One`] is wire value 0 and [`Channel::Sixteen`] is wire
/// value 15.
#[derive(Clone, Copy, Debug, Hash, PartialEq, Eq, Structural)]
pub enum Channel {
    /// Wire value 0.
    One,
    /// Wire value 1.
    Two,
    /// Wire value 2.
    Three,
    /// Wire value 3.
    Four,
    /// Wire value 4.
    Five,
    /// Wire value 5.
    Six,
    /// Wire value 6.
    Seven,
    /// Wire value 7.
    Eight,
    /// Wire value 8.
    Nine,
    /// Wire value 9.
    ///
    /// MIDI gives channel ten a special role (drums), so this channel may
    /// behave differently than you would expect.
    Ten,
    /// Wire value 10.
    Eleven,
    /// Wire value 11.
    Twelve,
    /// Wire value 12.
    Thirteen,
    /// Wire value 13.
    Fourteen,
    /// Wire value 14.
    Fifteen,
    /// Wire value 15.
    Sixteen,
}

impl Channel {
    /// The 4-bit wire value of the channel, for contracts.
    pub open spec fn spec_byte(&self) -> u8 {
        match *self {
            Channel::One => 0,
            Channel::Two => 1,
            Channel::Three => 2,
            Channel::Four => 3,
            Channel::Five => 4,
            Channel::Six => 5,
            Channel::Seven => 6,
            Channel::Eight => 7,
            Channel::Nine => 8,
            Channel::Ten => 9,
            Channel::Eleven => 10,
            Channel::Twelve => 11,
            Channel::Thirteen => 12,
            Channel::Fourteen => 13,
            Channel::Fifteen => 14,
            Channel::Sixteen => 15,
        }
    }

    /// The channel with a given wire value, for contracts; values above 15
    /// name no channel.
    pub open spec fn spec_from_byte(byte: u8) -> Option<Channel> {
        if byte == 0 {
            Some(Channel::One)
        } else if byte == 1 {
            Some(Channel::Two)
        } else if byte == 2 {
            Some(Channel::Three)
        } else if byte == 3 {
            Some(Channel::Four)
        } else if byte == 4 {
            Some(Channel::Five)
        } else if byte == 5 {
            Some(Channel::Six)
        } else if byte == 6 {
            Some(Channel::Seven)
        } else if byte == 7 {
            Some(Channel::Eight)
        } else if byte == 8 {
            Some(Channel::Nine)
        } else if byte == 9 {
            Some(Channel::Ten)
        } else if byte == 10 {
            Some(Channel::Eleven)
        } else if byte == 11 {
            Some(Channel::Twelve)
        } else if byte == 12 {
            Some(Channel::Thirteen)
        } else if byte == 13 {
            Some(Channel::Fourteen)
        } else if byte == 14 {
            Some(Channel::Fifteen)
        } else if byte == 15 {
            Some(Channel::Sixteen)
        } else {
            None
        }
    }

    /// Return an array of all channels ordered [`Channel::One`] through
    /// [`Channel::Sixteen`].
    pub fn all() -> (r: [Channel; 16])
        ensures
            forall|i: int| 0 <= i < 16 ==> r@[i].spec_byte() == i,
    {
        let r = [
            Channel::One,
            Channel::Two,
            Channel::Three,
            Channel::Four,
            Channel::Five,
            Channel::Six,
            Channel::Seven,
            Channel::Eight,
            Channel::Nine,
            Channel::Ten,
            Channel::Eleven,
            Channel::Twelve,
            Channel::Thirteen,
            Channel::Fourteen,
            Channel::Fifteen,
            Channel::Sixteen,
        ];
        assert(forall|i: int| 0 <= i < 16 ==> r@[i].spec_byte() == i) by {
            assert(r@[0].spec_byte() == 0);
            assert(r@[1].spec_byte() == 1);
            assert(r@[2].spec_byte() == 2);
            assert(r@[3].spec_byte() == 3);
            assert(r@[4].spec_byte() == 4);
            assert(r@[5].spec_byte() == 5);
            assert(r@[6].spec_byte() == 6);
            assert(r@[7].spec_byte() == 7);
            assert(r@[8].spec_byte() == 8);
            assert(r@[9].spec_byte() == 9);
            assert(r@[10].spec_byte() == 10);
            assert(r@[11].spec_byte() == 11);
            assert(r@[12].spec_byte() == 12);
            assert(r@[13].spec_byte() == 13);
            assert(r@[14].spec_byte() == 14);
            assert(r@[15].spec_byte() == 15);
        }
        r
    }

    /// Send a voice event to this channel.
    pub fn send_event(self, event: crate::message::VoiceEvent) -> (r:
        crate::message::ChannelVoiceMessage)
        ensures
            r == crate::message::ChannelVoiceMessage::spec_make(self, event),
    {
        crate::message::ChannelVoiceMessage::new(self, event)
    }

    /// Create a `Channel` from a byte: 0 is [`Channel::One`] and 15 is
    /// [`Channel::Sixteen`]; anything larger is `None`.
    pub fn try_from_byte(byte: u8) -> (r: Option<Channel>)
        ensures
            r == Channel::spec_from_byte(byte),
            byte <= 15 ==> (r matches Some(c) && c.spec_byte() == byte),
            byte > 15 ==> r is None,
    {
        let channel = match byte {
            0 => Channel::One,
            1 => Channel::Two,
            2 => Channel::Three,
            3 => Channel::Four,
            4 => Channel::Five,
            5 => Channel::Six,
            6 => Channel::Seven,
            7 => Channel::Eight,
            8 => Channel::Nine,
            9 => Channel::Ten,
            10 => Channel::Eleven,
            11 => Channel::Twelve,
            12 => Channel::Thirteen,
            13 => Channel::Fourteen,
            14 => Channel::Fifteen,
            15 => Channel::Sixteen,
            _ => {
                return None;
            },
        };
        Some(channel)
    }

    /// Given a status byte from some channel-voice message, keep only its
    /// low nibble and name the channel it addresses.
    pub fn from_status(status: u8) -> (r: Self)
        ensures
            r.spec_byte() == status & 0x0F,
    {
        let low = status & 0x0F;
        assert(low <= 15) by (bit_vector)
            requires
                low == status & 0x0F,
        ;
        match Channel::try_from_byte(low) {
            Some(c) => c,
            None => Channel::One,
        }
    }

    /// Returns the 4-bit channel number (0-15).
    pub fn to_byte(&self) -> (r: u8)
        ensures
            r == self.spec_byte(),
            r <= 15,
    {
        match *self {
            Channel::One => 0,
            Channel::Two => 1,
            Channel::Three => 2,
            Channel::Four => 3,
            Channel::Five => 4,
            Channel::Six => 5,
            Channel::Seven => 6,
            Channel::Eight => 7,
            Channel::Nine => 8,
            Channel::Ten => 9,
            Channel::Eleven => 10,
            Channel::Twelve => 11,
            Channel::Thirteen => 12,
            Channel::Fourteen => 13,
            Channel::Fifteen => 14,
            Channel::Sixteen => 15,
        }
    }
}

/// What adding an offset to a channel means: the wire value moves up and
/// saturates at [`Channel::Sixteen`].
pub open spec fn channel_add_spec(c: Channel, rhs: u8) -> Channel {
    let sum = c.spec_byte() + rhs;
    if sum > 15 {
        Channel::Sixteen
    } else {
        Channel::spec_from_byte(sum as u8).unwrap()
    }
}

/// What subtracting an offset from a channel means: the wire value moves
/// down and saturates at [`Channel::One`].
pub open spec fn channel_sub_spec(c: Channel, rhs: u8) -> Channel {
    if rhs > c.spec_byte() {
        Channel::One
    } else {
        Channel::spec_from_byte((c.spec_byte() - rhs) as u8).unwrap()
    }
}

impl core::ops::Add<u8> for Channel {
    type Output = Channel;

    /// Move this many channels up, saturating at [`Channel::Sixteen`].
    fn add(self, rhs: u8) -> (r: Channel)
        ensures
            r == channel_add_spec(self, rhs),
    {
        let base = self.to_byte();
        let mut next = base.saturating_add(rhs);
        if next > 15 {
            next = 15;
        }
        match Channel::try_from_byte(next) {
            Some(c) => c,
            None => Channel::Sixteen,
        }
    }
}

impl vstd::std_specs::ops::AddSpecImpl<u8> for Channel {
    open spec fn obeys_add_spec() -> bool {
        true
    }

    open spec fn add_req(self, rhs: u8) -> bool {
        true
    }

    open spec fn add_spec(self, rhs: u8) -> Channel {
        channel_add_spec(self, rhs)
    }
}

impl core::ops::Sub<u8> for Channel {
    type Output = Channel;

    /// Move this many channels down, saturating at [`Channel::One`].
    fn sub(self, rhs: u8) -> (r: Channel)
        ensures
            r == channel_sub_spec(self, rhs),
    {
        let base = self.to_byte();
        let next = if rhs > base {
            0
        } else {
            base - rhs
        };
        match Channel::try_from_byte(next) {
            Some(c) => c,
            None => Channel::One,
        }
    }
}

impl vstd::std_specs::ops::SubSpecImpl<u8> for Channel {
    open spec fn obeys_sub_spec() -> bool {
        true
    }

    open spec fn sub_req(self, rhs: u8) -> bool {
        true
    }

    open spec fn sub_spec(self, rhs: u8) -> Channel {
        channel_sub_spec(self, rhs)
    }
}

} // verus!
