//! The control codes of the sandbox driver, and the checks of its echo
//! test. Talking to the device is left to the caller.

use vstd::prelude::*;
use vstd::utf8::encode_utf8;

verus! {

/// Echo test (`CTL_CODE(FILE_DEVICE_UNKNOWN, 0x800, METHOD_BUFFERED,
/// FILE_READ_DATA | FILE_WRITE_DATA)`).
pub const BOXDRV_IO_ECHO: u32 = (0x0000_0022u32 << 16) | ((0x0001u32 | 0x0002u32) << 14) | (0x800u32 << 2);

/// Read the watch list (`CTL_CODE(FILE_DEVICE_UNKNOWN, 0x801,
/// METHOD_BUFFERED, FILE_READ_DATA)`).
pub const BOXDRV_IO_READLIST: u32 = (0x0000_0022u32 << 16) | (0x0001u32 << 14) | (0x801u32 << 2);

/// Add a PID to the watch list (`CTL_CODE(FILE_DEVICE_UNKNOWN, 0x802,
/// METHOD_BUFFERED, FILE_WRITE_DATA)`).
pub const BOXDRV_IO_WRITELIST: u32 = (0x0000_0022u32 << 16) | (0x0002u32 << 14) | (0x802u32 << 2);

/// Bytes of the echo buffers (the driver's is hard-coded).
pub const ECHO_BUFFER_BYTES: usize = 64;

/// Entries of the watch list that the driver reports.
pub const WATCH_LIST_ENTRIES: usize = 32;

/// The Windows `CTL_CODE` macro.
pub open spec fn ctl_code(device_type: u32, function: u32, method: u32, access: u32) -> u32 {
    (device_type << 16) | (access << 14) | (function << 2) | method
}

/// The control codes are those that the driver defines with `CTL_CODE`.
pub proof fn lemma_control_codes()
    ensures
        BOXDRV_IO_ECHO == ctl_code(0x22, 0x800, 0, 0x3),
        BOXDRV_IO_READLIST == ctl_code(0x22, 0x801, 0, 0x1),
        BOXDRV_IO_WRITELIST == ctl_code(0x22, 0x802, 0, 0x2),
        BOXDRV_IO_ECHO == 0x0022_E000,
        BOXDRV_IO_READLIST == 0x0022_6004,
        BOXDRV_IO_WRITELIST == 0x0022_A008,
{
    assert(((0x22u32 << 16) | ((1u32 | 2u32) << 14) | (0x800u32 << 2)) == ((0x22u32 << 16) | (3u32 << 14) | (0x800u32 << 2) | 0u32)) by (bit_vector);
    assert(((0x22u32 << 16) | (1u32 << 14) | (0x801u32 << 2)) == ((0x22u32 << 16) | (1u32 << 14) | (0x801u32 << 2) | 0u32)) by (bit_vector);
    assert(((0x22u32 << 16) | (2u32 << 14) | (0x802u32 << 2)) == ((0x22u32 << 16) | (2u32 << 14) | (0x802u32 << 2) | 0u32)) by (bit_vector);
    assert(((0x22u32 << 16) | ((1u32 | 2u32) << 14) | (0x800u32 << 2)) == 0x0022_E000u32) by (bit_vector);
    assert(((0x22u32 << 16) | (1u32 << 14) | (0x801u32 << 2)) == 0x0022_6004u32) by (bit_vector);
    assert(((0x22u32 << 16) | (2u32 << 14) | (0x802u32 << 2)) == 0x0022_A008u32) by (bit_vector);
}

/// The input of the echo test for `message`: its UTF-8 bytes, or `None`
/// when they overflow the driver's buffer.
pub fn echo_request(message: &str) -> (input: Option<Vec<u8>>)
    ensures
        encode_utf8(message@).len() > ECHO_BUFFER_BYTES ==> input is None,
        encode_utf8(message@).len() <= ECHO_BUFFER_BYTES ==> (input matches Some(bytes) && bytes@ == encode_utf8(message@)),
{
    let bytes = message.as_bytes();
    if bytes.len() > ECHO_BUFFER_BYTES {
        return None;
    }
    Some(vstd::slice::slice_to_vec(bytes))
}

/// Whether the driver's answer to the echo test (the whole of its output
/// buffer) is the message.
pub fn echo_matches(message: &str, response: &[u8]) -> (r: bool)
    ensures
        r == (response@ == encode_utf8(message@)),
{
    let expected = message.as_bytes();
    if expected.len() != response.len() {
        return false;
    }
    let mut i: usize = 0;
    while i < response.len()
        invariant
            expected@.len() == response@.len(),
            expected@ == encode_utf8(message@),
            i <= response@.len(),
            forall|j: int| 0 <= j < i ==> response@[j] == expected@[j],
        decreases response.len() - i,
    {
        if response[i] != expected[i] {
            return false;
        }
        i = i + 1;
    }
    assert(response@ =~= expected@);
    true
}

} // verus!
