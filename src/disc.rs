use vstd::prelude::*;

verus! {

/// Sectors per second of disc time.
pub const FRAMES_PER_SECOND: u32 = 75;

/// Seconds per minute of disc time.
pub const SECONDS_PER_MINUTE: u32 = 60;

/// Packed binary-coded decimal of a two-digit number: tens digit in the high
/// nibble, ones digit in the low nibble.
pub open spec fn bcd_of(n: nat) -> nat {
    (n / 10) * 16 + n % 10
}

/// Encodes `n` (at most 99) as packed binary-coded decimal.
/// Numbers above 99 have no two-digit encoding and are not accepted.
pub fn decimal_to_bcd(n: u8) -> (r: u8)
    requires
        n <= 99,
    ensures
        r as nat == bcd_of(n as nat),
        r / 16 == n / 10,
        r % 16 == n % 10,
        r >> 4u8 == n / 10,
        r & 0xF == n % 10,
{
    let r = (n / 10) * 16 + n % 10;
    assert(r >> 4u8 == r / 16 && r & 0xF == r % 16) by (bit_vector);
    r
}

/// A position on the disc as minute, second and frame.
#[derive(Clone, Copy, Debug, PartialEq, Eq, Structural)]
pub struct DiscIndex {
    pub minutes: u8,
    pub seconds: u8,
    pub frames: u8,
}

impl DiscIndex {
    pub fn new(minutes: u8, seconds: u8, frames: u8) -> (r: DiscIndex)
        ensures
            r.minutes == minutes,
            r.seconds == seconds,
            r.frames == frames,
    {
        DiscIndex { minutes, seconds, frames }
    }

    /// Zero-based linear sector number of this position.
    pub open spec fn sector_spec(self) -> nat {
        ((self.minutes as nat) * 60 + self.seconds as nat) * 75 + self.frames as nat
    }

    /// Converts the position to a zero-based linear sector number.
    pub fn sector(&self) -> (r: u32)
        ensures
            r as nat == self.sector_spec(),
    {
        let m = self.minutes as u32;
        let s = self.seconds as u32;
        let f = self.frames as u32;
        (m * SECONDS_PER_MINUTE + s) * FRAMES_PER_SECOND + f
    }
}

/// The mounted disc, as far as the controller needs it: how many tracks its
/// single session holds.
///
/// The controller reports one past the track count as a two-digit BCD
/// number, so a disc it can describe holds at most 98 tracks.
pub struct Disc {
    track_count: u8,
}

impl Disc {
    #[verifier::type_invariant]
    spec fn inv(self) -> bool {
        self.track_count <= 98
    }

    /// Number of tracks on the disc.
    pub closed spec fn tracks(self) -> nat {
        self.track_count as nat
    }

    /// A disc with `track_count` tracks; `None` when the count is above 98.
    pub fn new(track_count: u8) -> (r: Option<Disc>)
        ensures
            r is Some <==> track_count <= 98,
            r matches Some(d) ==> d.tracks() == track_count,
    {
        if track_count <= 98 {
            Some(Disc { track_count })
        } else {
            None
        }
    }

    pub fn track_count(&self) -> (r: u8)
        ensures
            r as nat == self.tracks(),
            r <= 98,
    {
        proof {
            use_type_invariant(self);
        }
        self.track_count
    }
}

} // verus!
