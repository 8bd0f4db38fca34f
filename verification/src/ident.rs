//! Fixed-size identifier buffers: bounded copy with null termination, and
//! decimal rendering for the synthesized device name.
//!
//! The legacy identifier struct stores its strings in fixed-size byte
//! buffers; every string written into one is truncated to the buffer and is
//! null-terminated within it.

use vstd::prelude::*;

verus! {

/// Byte capacity of the driver-name buffer of the legacy identifier struct.
pub const DRIVER_BUFFER_LEN: usize = 512;

/// Byte capacity of the description buffer of the legacy identifier struct.
pub const DESCRIPTION_BUFFER_LEN: usize = 512;

/// Byte capacity of the device-name buffer of the legacy identifier struct.
pub const DEVICE_NAME_BUFFER_LEN: usize = 32;

/// A 128-bit unique adapter identifier, synthesized from the adapter's
/// stable 64-bit low-level identifier and its ordinal.
#[derive(Clone, Copy, Debug, PartialEq, Eq, Structural)]
pub struct Guid128 {
    pub low: u64,
    pub high: u64,
}

/// The legacy adapter identifier: identity fields passed through unchanged,
/// strings truncated into their fixed-size buffers.
#[derive(Clone, Debug)]
pub struct AdapterIdentifier {
    pub driver: Vec<u8>,
    pub description: Vec<u8>,
    pub device_name: Vec<u8>,
    pub driver_version: u64,
    pub vendor_id: u32,
    pub device_id: u32,
    pub subsys_id: u32,
    pub revision: u32,
    pub device_identifier: Guid128,
    pub whql_level: u32,
}

/// A buffer of exactly `cap` bytes: the longest prefix of `s` that leaves
/// room for a terminator, padded with zero bytes to the end.
pub open spec fn spec_truncated(s: Seq<u8>, cap: nat) -> Seq<u8>
    recommends
        cap >= 1,
{
    Seq::new(cap, |i: int| if i < s.len() && i < cap - 1 { s[i] } else { 0u8 })
}

/// The truncated buffer always ends in a zero byte, so the string stays
/// null-terminated within the buffer.
pub proof fn lemma_truncated_null_terminated(s: Seq<u8>, cap: nat)
    requires
        cap >= 1,
    ensures
        spec_truncated(s, cap).len() == cap,
        spec_truncated(s, cap)[cap - 1] == 0,
{
}

/// Copies `src` into a fresh buffer of exactly `cap` bytes, truncating it
/// to keep the final byte zero and zero-padding the rest.
pub fn truncate_to_buffer(src: &Vec<u8>, cap: usize) -> (r: Vec<u8>)
    requires
        cap >= 1,
    ensures
        r@ == spec_truncated(src@, cap as nat),
{
    let keep: usize = if src.len() < cap - 1 {
        src.len()
    } else {
        cap - 1
    };
    let mut out: Vec<u8> = Vec::new();
    let mut i: usize = 0;
    while i < keep
        invariant
            i <= keep,
            keep <= src@.len(),
            keep <= cap - 1,
            out@.len() == i,
            forall|j: int| 0 <= j < i ==> out@[j] == src@[j],
        decreases keep - i,
    {
        out.push(src[i]);
        i += 1;
    }
    while out.len() < cap
        invariant
            keep <= src@.len(),
            keep <= cap - 1,
            keep <= out@.len() <= cap,
            forall|j: int| 0 <= j < keep ==> out@[j] == src@[j],
            forall|j: int| keep <= j < out@.len() ==> out@[j] == 0,
        decreases cap - out.len(),
    {
        out.push(0);
    }
    proof {
        assert(out@ =~= spec_truncated(src@, cap as nat));
    }
    out
}

/// The decimal digits of `n`, most significant first.
pub open spec fn spec_decimal(n: nat) -> Seq<u8>
    decreases n,
{
    if n < 10 {
        seq![(48 + n) as u8]
    } else {
        spec_decimal(n / 10).push((48 + n % 10) as u8)
    }
}

/// Renders `n` in decimal.
pub fn decimal_bytes(n: u32) -> (r: Vec<u8>)
    ensures
        r@ == spec_decimal(n as nat),
    decreases n,
{
    if n < 10 {
        let mut v: Vec<u8> = Vec::new();
        v.push(48 + (n as u8));
        proof {
            assert(v@ =~= spec_decimal(n as nat));
        }
        v
    } else {
        let mut v = decimal_bytes(n / 10);
        v.push(48 + ((n % 10) as u8));
        proof {
            assert(v@ =~= spec_decimal(n as nat));
        }
        v
    }
}

/// Concatenates two byte strings.
pub fn concat_bytes(a: &Vec<u8>, b: &Vec<u8>) -> (r: Vec<u8>)
    ensures
        r@ == a@ + b@,
{
    let mut out: Vec<u8> = Vec::new();
    let mut i: usize = 0;
    while i < a.len()
        invariant
            i <= a@.len(),
            out@.len() == i,
            forall|j: int| 0 <= j < i ==> out@[j] == a@[j],
        decreases a.len() - i,
    {
        out.push(a[i]);
        i += 1;
    }
    let mut k: usize = 0;
    while k < b.len()
        invariant
            k <= b@.len(),
            out@.len() == a@.len() + k,
            forall|j: int| 0 <= j < a@.len() ==> out@[j] == a@[j],
            forall|j: int| 0 <= j < k ==> out@[a@.len() + j] == b@[j],
        decreases b.len() - k,
    {
        out.push(b[k]);
        k += 1;
    }
    proof {
        assert(out@ =~= a@ + b@);
    }
    out
}

/// The fixed name identifying this translation driver.
pub open spec fn spec_driver_name() -> Seq<u8> {
    seq![
        'D' as u8,
        '3' as u8,
        'D' as u8,
        ' ' as u8,
        '9' as u8,
        '-' as u8,
        't' as u8,
        'o' as u8,
        '-' as u8,
        '1' as u8,
        '1' as u8,
        ' ' as u8,
        'D' as u8,
        'r' as u8,
        'i' as u8,
        'v' as u8,
        'e' as u8,
        'r' as u8,
    ]
}

/// Builds the driver-name string ("D3D 9-to-11 Driver").
pub fn driver_name() -> (r: Vec<u8>)
    ensures
        r@ == spec_driver_name(),
{
    let mut v: Vec<u8> = Vec::new();
    v.push('D' as u8);
    v.push('3' as u8);
    v.push('D' as u8);
    v.push(' ' as u8);
    v.push('9' as u8);
    v.push('-' as u8);
    v.push('t' as u8);
    v.push('o' as u8);
    v.push('-' as u8);
    v.push('1' as u8);
    v.push('1' as u8);
    v.push(' ' as u8);
    v.push('D' as u8);
    v.push('r' as u8);
    v.push('i' as u8);
    v.push('v' as u8);
    v.push('e' as u8);
    v.push('r' as u8);
    proof {
        assert(v@ =~= spec_driver_name());
    }
    v
}

/// The fixed suffix appended to the modern API's description string to mark
/// the device as emulated.
pub open spec fn spec_description_suffix() -> Seq<u8> {
    seq![
        ' ' as u8,
        '(' as u8,
        'D' as u8,
        '3' as u8,
        'D' as u8,
        ' ' as u8,
        '9' as u8,
        '-' as u8,
        't' as u8,
        'o' as u8,
        '-' as u8,
        '1' as u8,
        '1' as u8,
        ' ' as u8,
        'D' as u8,
        'e' as u8,
        'v' as u8,
        'i' as u8,
        'c' as u8,
        'e' as u8,
        ')' as u8,
    ]
}

/// Builds the description suffix (" (D3D 9-to-11 Device)").
pub fn description_suffix() -> (r: Vec<u8>)
    ensures
        r@ == spec_description_suffix(),
{
    let mut v: Vec<u8> = Vec::new();
    v.push(' ' as u8);
    v.push('(' as u8);
    v.push('D' as u8);
    v.push('3' as u8);
    v.push('D' as u8);
    v.push(' ' as u8);
    v.push('9' as u8);
    v.push('-' as u8);
    v.push('t' as u8);
    v.push('o' as u8);
    v.push('-' as u8);
    v.push('1' as u8);
    v.push('1' as u8);
    v.push(' ' as u8);
    v.push('D' as u8);
    v.push('e' as u8);
    v.push('v' as u8);
    v.push('i' as u8);
    v.push('c' as u8);
    v.push('e' as u8);
    v.push(')' as u8);
    proof {
        assert(v@ =~= spec_description_suffix());
    }
    v
}

/// The prefix of the synthesized device name.
pub open spec fn spec_device_name_prefix() -> Seq<u8> {
    seq!['D' as u8, 'I' as u8, 'S' as u8, 'P' as u8, 'L' as u8, 'A' as u8, 'Y' as u8]
}

/// Builds the device-name prefix ("DISPLAY"); the adapter ordinal follows
/// it in decimal.
pub fn device_name_prefix() -> (r: Vec<u8>)
    ensures
        r@ == spec_device_name_prefix(),
{
    let mut v: Vec<u8> = Vec::new();
    v.push('D' as u8);
    v.push('I' as u8);
    v.push('S' as u8);
    v.push('P' as u8);
    v.push('L' as u8);
    v.push('A' as u8);
    v.push('Y' as u8);
    proof {
        assert(v@ =~= spec_device_name_prefix());
    }
    v
}

} // verus!
