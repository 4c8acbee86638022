//! The environment string that tells the kernel which filesystem it was
//! loaded from.
//!
//! It has two lines, `REDOXFS_BLOCK=` with the filesystem's first block as 16
//! hexadecimal digits, and `REDOXFS_UUID=` with the filesystem's identifier
//! as hexadecimal bytes, dashes set as in a UUID. Only the first line ends in
//! a line feed. All letters among the digits are lower case.

use vstd::prelude::*;
use crate::bytes::push_bytes;

verus! {

/// The ASCII code of the hexadecimal digit for `value`, which is below 16.
pub open spec fn hex_digit(value: nat) -> u8 {
    if value < 10 {
        (0x30 + value) as u8
    } else {
        (0x61 + value - 10) as u8
    }
}

/// `value` in hexadecimal, as exactly `width` digits with the most
/// significant first.
pub open spec fn hex_digits(value: nat, width: nat) -> Seq<u8>
    decreases width,
{
    if width == 0 {
        Seq::empty()
    } else {
        hex_digits(value / 16, (width - 1) as nat).push(hex_digit(value % 16))
    }
}

/// Whether a dash comes before the byte at `index` of an identifier.
pub open spec fn dash_before(index: int) -> bool {
    index == 4 || index == 6 || index == 8 || index == 10
}

/// The text of the first `count` bytes of an identifier: two digits for each
/// byte, and a dash before the bytes at 4, 6, 8 and 10.
pub open spec fn uuid_text(uuid: Seq<u8>, count: nat) -> Seq<u8>
    decreases count,
{
    if count == 0 {
        Seq::empty()
    } else {
        let index = (count - 1) as nat;
        let before = uuid_text(uuid, index);
        let dashed = if dash_before(index as int) {
            before.push(0x2du8)
        } else {
            before
        };
        dashed + hex_digits(uuid[index as int] as nat, 2)
    }
}

/// `"REDOXFS_BLOCK="`
pub open spec fn block_key() -> Seq<u8> {
    seq![
        0x52u8, 0x45u8, 0x44u8, 0x4fu8, 0x58u8, 0x46u8, 0x53u8, 0x5fu8, 0x42u8, 0x4cu8, 0x4fu8,
        0x43u8, 0x4bu8, 0x3du8,
    ]
}

/// `"REDOXFS_UUID="`
pub open spec fn uuid_key() -> Seq<u8> {
    seq![
        0x52u8, 0x45u8, 0x44u8, 0x4fu8, 0x58u8, 0x46u8, 0x53u8, 0x5fu8, 0x55u8, 0x55u8, 0x49u8,
        0x44u8, 0x3du8,
    ]
}

/// The environment string for a filesystem that starts at `block` and is
/// identified by `uuid`.
pub open spec fn env_text(block: u64, uuid: Seq<u8>) -> Seq<u8> {
    block_key() + hex_digits(block as nat, 16).push(0x0au8) + uuid_key() + uuid_text(
        uuid,
        uuid.len(),
    )
}

fn digit(value: u8) -> (code: u8)
    requires
        value < 16,
    ensures
        code == hex_digit(value as nat),
{
    if value < 10 {
        0x30 + value
    } else {
        0x61 + (value - 10)
    }
}

/// Appends `value` to `out` as `width` hexadecimal digits.
pub fn push_hex(out: &mut Vec<u8>, value: u64, width: usize)
    ensures
        final(out)@ == old(out)@ + hex_digits(value as nat, width as nat),
    decreases width,
{
    if width > 0 {
        push_hex(out, value / 16, width - 1);
        out.push(digit((value % 16) as u8));
    }
}

/// Writes the environment string for a filesystem that starts at `block` and
/// is identified by `uuid`.
pub fn filesystem_env(block: u64, uuid: &[u8]) -> (env: Vec<u8>)
    ensures
        env@ == env_text(block, uuid@),
{
    let block_label: [u8; 14] = [
        0x52, 0x45, 0x44, 0x4f, 0x58, 0x46, 0x53, 0x5f, 0x42, 0x4c, 0x4f, 0x43, 0x4b, 0x3d,
    ];
    let uuid_label: [u8; 13] = [
        0x52, 0x45, 0x44, 0x4f, 0x58, 0x46, 0x53, 0x5f, 0x55, 0x55, 0x49, 0x44, 0x3d,
    ];
    let mut env: Vec<u8> = Vec::new();
    push_bytes(&mut env, block_label.as_slice(), 14);
    push_hex(&mut env, block, 16);
    env.push(0x0a);
    push_bytes(&mut env, uuid_label.as_slice(), 13);
    let ghost head: Seq<u8> = block_key() + hex_digits(block as nat, 16).push(0x0au8) + uuid_key();
    let mut i: usize = 0;
    while i < uuid.len()
        invariant
            i <= uuid.len(),
            env@ == head + uuid_text(uuid@, i as nat),
        decreases uuid.len() - i,
    {
        if i == 4 || i == 6 || i == 8 || i == 10 {
            env.push(0x2d);
        }
        push_hex(&mut env, uuid[i] as u64, 2);
        i += 1;
    }
    env
}

} // verus!
