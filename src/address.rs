use vstd::prelude::*;

verus! {

/// Lowest kernel-space address when pointers are four bytes wide.
pub const KERNEL_START_32: u64 = 0x8000_0000;

/// Lowest kernel-space address when pointers are eight bytes wide.
pub const KERNEL_START_64: u64 = 0xFFFF_0000_0000_0000;

/// Whether `ip` lies in kernel address space for the given pointer size.
pub open spec fn is_kernel_spec(ip: u64, pointer_size: u32) -> bool {
    if pointer_size == 4 {
        ip >= KERNEL_START_32
    } else {
        ip >= KERNEL_START_64
    }
}

/// Classifies an instruction pointer as kernel-mode or user-mode.
pub fn is_kernel_address(ip: u64, pointer_size: u32) -> (r: bool)
    ensures
        r == is_kernel_spec(ip, pointer_size),
{
    if pointer_size == 4 {
        ip >= KERNEL_START_32
    } else {
        ip >= KERNEL_START_64
    }
}

/// The little-endian 64-bit word stored at `b[off..off + 8]`.
pub open spec fn le_word(b: Seq<u8>, off: int) -> int {
    b[off] as int + b[off + 1] as int * 0x100 + b[off + 2] as int * 0x1_0000 + b[off + 3] as int
        * 0x100_0000 + b[off + 4] as int * 0x1_0000_0000 + b[off + 5] as int * 0x100_0000_0000
        + b[off + 6] as int * 0x1_0000_0000_0000 + b[off + 7] as int * 0x100_0000_0000_0000
}

/// The addresses of a raw stack payload, innermost frame first: the payload
/// holds them outermost first, one little-endian word each. A payload whose
/// length is not a multiple of eight is malformed.
pub open spec fn decoded_stack(b: Seq<u8>) -> Option<Seq<u64>> {
    if b.len() % 8 != 0 {
        None
    } else {
        let n = b.len() / 8;
        Some(Seq::new(n as nat, |i: int| le_word(b, (n - 1 - i) * 8) as u64))
    }
}

fn read_word(b: &Vec<u8>, off: usize) -> (r: u64)
    requires
        off + 8 <= b@.len(),
    ensures
        r as int == le_word(b@, off as int),
{
    let len = b.len();
    assert(off + 8 <= len);
    let w: u64 = b[off] as u64 + b[off + 1] as u64 * 0x100 + b[off + 2] as u64 * 0x1_0000
        + b[off + 3] as u64 * 0x100_0000 + b[off + 4] as u64 * 0x1_0000_0000 + b[off + 5] as u64
        * 0x100_0000_0000 + b[off + 6] as u64 * 0x1_0000_0000_0000 + b[off + 7] as u64
        * 0x100_0000_0000_0000;
    w
}

/// Decodes a raw stack payload into addresses, innermost frame first.
pub fn decode_stack(b: &Vec<u8>) -> (r: Option<Vec<u64>>)
    ensures
        match decoded_stack(b@) {
            Some(s) => r.is_some() && r.unwrap()@ == s,
            None => r.is_none(),
        },
{
    if b.len() % 8 != 0 {
        return None;
    }
    let n: usize = b.len() / 8;
    let mut out: Vec<u64> = Vec::with_capacity(n);
    let mut i: usize = 0;
    assert(n * 8 == b@.len());
    while i < n
        invariant
            n == b@.len() / 8,
            n * 8 == b@.len(),
            b@.len() <= usize::MAX,
            b@.len() % 8 == 0,
            i <= n,
            out@.len() == i,
            forall|j: int| 0 <= j < i ==> out@[j] as int == le_word(b@, (n - 1 - j) * 8),
        decreases n - i,
    {
        proof {
            let k = (n - 1 - i) as int;
            assert(0 <= k < n);
            assert(k * 8 + 8 <= n * 8) by (nonlinear_arith)
                requires
                    k < n,
            ;
        }
        let w = read_word(b, (n - 1 - i) * 8);
        out.push(w);
        i += 1;
    }
    assert(out@ =~= decoded_stack(b@).unwrap());
    Some(out)
}

} // verus!
