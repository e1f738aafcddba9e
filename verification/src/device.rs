//! Device numbers: how a `dev_t` is put together from a major and a minor number.

use vstd::prelude::*;

verus! {

/// The device number with the given major and minor number.
pub open spec fn device(major: u32, minor: u32) -> u64 {
    (major as u64 & 0x0000_0fff) << 8 | (major as u64 & 0xffff_f000) << 32 | (minor as u64
        & 0x0000_00ff) | (minor as u64 & 0xffff_ff00) << 12
}

/// The major number of a device number.
pub open spec fn major_of(dev: u64) -> u32 {
    ((dev & 0x0000_0000_000f_ff00) >> 8 | (dev & 0xffff_f000_0000_0000) >> 32) as u32
}

/// The minor number of a device number.
pub open spec fn minor_of(dev: u64) -> u32 {
    (dev & 0x0000_0000_0000_00ff | (dev & 0x0000_0fff_fff0_0000) >> 12) as u32
}

/// Calls `libc::makedev`, which spreads the bits of the two numbers over a `dev_t` as
/// [`device`] says.
#[verifier::external_body]
pub(crate) fn makedev(major: u32, minor: u32) -> (dev: u64)
    ensures
        dev == device(major, minor),
{
    libc::makedev(major, minor)
}

/// Calls `libc::major`, which gathers the bits of the major number as [`major_of`] says.
#[verifier::external_body]
pub(crate) fn major(dev: u64) -> (number: u32)
    ensures
        number == major_of(dev),
{
    libc::major(dev)
}

/// Calls `libc::minor`, which gathers the bits of the minor number as [`minor_of`] says.
#[verifier::external_body]
pub(crate) fn minor(dev: u64) -> (number: u32)
    ensures
        number == minor_of(dev),
{
    libc::minor(dev)
}

/// Taking a device number apart and putting it together again gives it back.
pub proof fn law_device_parts(dev: u64)
    ensures
        device(major_of(dev), minor_of(dev)) == dev,
{
    let major = major_of(dev);
    let minor = minor_of(dev);
    assert((major as u64 & 0x0000_0fff) << 8 | (major as u64 & 0xffff_f000) << 32 | (minor as u64
        & 0x0000_00ff) | (minor as u64 & 0xffff_ff00) << 12 == dev) by (bit_vector)
        requires
            major == ((dev & 0x0000_0000_000f_ff00) >> 8 | (dev & 0xffff_f000_0000_0000)
                >> 32) as u32,
            minor == (dev & 0x0000_0000_0000_00ff | (dev & 0x0000_0fff_fff0_0000) >> 12) as u32,
    ;
}

/// Putting a major and a minor number together and taking them apart again gives them
/// back.
pub proof fn law_device_whole(major: u32, minor: u32)
    ensures
        major_of(device(major, minor)) == major,
        minor_of(device(major, minor)) == minor,
{
    let dev = device(major, minor);
    assert(((dev & 0x0000_0000_000f_ff00) >> 8 | (dev & 0xffff_f000_0000_0000) >> 32) as u32
        == major && (dev & 0x0000_0000_0000_00ff | (dev & 0x0000_0fff_fff0_0000) >> 12) as u32
        == minor) by (bit_vector)
        requires
            dev == (major as u64 & 0x0000_0fff) << 8 | (major as u64 & 0xffff_f000) << 32 | (
            minor as u64 & 0x0000_00ff) | (minor as u64 & 0xffff_ff00) << 12,
    ;
}

/// Small device numbers have the minor number in their low byte and the major number
/// above it.
pub proof fn law_small_devices(major: u32, minor: u32)
    requires
        major < 0x1000,
        minor < 0x100,
    ensures
        device(major, minor) == major * 0x100 + minor,
{
    assert((major as u64 & 0x0000_0fff) << 8 | (major as u64 & 0xffff_f000) << 32 | (minor as u64
        & 0x0000_00ff) | (minor as u64 & 0xffff_ff00) << 12 == major * 0x100 + minor)
        by (bit_vector)
        requires
            major < 0x1000,
            minor < 0x100,
    ;
}

} // verus!
