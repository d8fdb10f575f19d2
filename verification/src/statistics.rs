use vstd::prelude::*;

verus! {

/// Calls `fxhash::hash64` on a byte slice. Nothing is stated of the result: the
/// hash reads the bytes in the machine's byte order, so the same bytes may hash
/// differently on another machine.
#[verifier::external_body]
fn fx_hash64_bytes(bytes: &[u8]) -> u64 {
    fxhash::hash64(bytes)
}

/// The lowest value a colour channel of a series may have, so that every line
/// stays visible on the dark background.
pub const MIN_CHANNEL: u8 = 100;

/// The byte of `h` that starts `shift` bits up, raised to at least `MIN_CHANNEL`.
pub open spec fn channel_spec(h: u64, shift: u64) -> u8 {
    let c = ((h >> shift) & 0xff) as u8;
    if c < MIN_CHANNEL {
        MIN_CHANNEL
    } else {
        c
    }
}

/// The colour of a series whose name hashes to `h`: red from bits 16 to 23,
/// green from bits 8 to 15, blue from bits 0 to 7, each at least `MIN_CHANNEL`.
pub open spec fn color_from_hash_spec(h: u64) -> (u8, u8, u8) {
    (channel_spec(h, 16), channel_spec(h, 8), channel_spec(h, 0))
}

fn channel(h: u64, shift: u64) -> (c: u8)
    requires
        shift < 64,
    ensures
        c == channel_spec(h, shift),
{
    let c = ((h >> shift) & 0xff) as u8;
    if c < MIN_CHANNEL {
        MIN_CHANNEL
    } else {
        c
    }
}

/// The colour, as red, green and blue, of a series whose name hashes to `h`.
pub fn series_color_from_hash(h: u64) -> (rgb: (u8, u8, u8))
    ensures
        rgb == color_from_hash_spec(h),
{
    (channel(h, 16), channel(h, 8), channel(h, 0))
}

/// A colour for the series `name`: the colour that `series_color_from_hash`
/// gives for the FxHash of its bytes, every channel at least `MIN_CHANNEL`. Which
/// hash comes out is not stated, as the hash reads the bytes in the machine's
/// byte order.
pub fn series_color(name: &str) -> (rgb: (u8, u8, u8))
    ensures
        exists|h: u64| rgb == color_from_hash_spec(h),
        rgb.0 >= MIN_CHANNEL,
        rgb.1 >= MIN_CHANNEL,
        rgb.2 >= MIN_CHANNEL,
{
    let h = fx_hash64_bytes(name.as_bytes());
    series_color_from_hash(h)
}

} // verus!
