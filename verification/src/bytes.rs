//! Byte strings.

use vstd::prelude::*;

verus! {

/// Whether two byte strings are the same.
pub fn same(left: &[u8], right: &[u8]) -> (same: bool)
    ensures
        same == (left@ == right@),
{
    if left.len() != right.len() {
        return false;
    }
    let mut i: usize = 0;
    while i < left.len()
        invariant
            left@.len() == right@.len(),
            i <= left@.len(),
            forall|j: int| 0 <= j < i ==> left@[j] == right@[j],
        decreases left@.len() - i,
    {
        if left[i] != right[i] {
            return false;
        }
        i = i + 1;
    }
    assert(left@ =~= right@);
    true
}

/// The `len` lowest bytes of `n`, the lowest first.
pub open spec fn little_endian(n: nat, len: nat) -> Seq<u8>
    decreases len,
{
    if len == 0 {
        Seq::empty()
    } else {
        seq![(n % 256) as u8] + little_endian(n / 256, (len - 1) as nat)
    }
}

/// How many numbers `len` bytes can tell apart.
pub open spec fn range(len: nat) -> nat
    decreases len,
{
    if len == 0 {
        1
    } else {
        256 * range((len - 1) as nat)
    }
}

/// How many bytes a length has on this machine.
pub open spec fn width() -> nat {
    (usize::BITS / 8) as nat
}

/// Every length fits in its bytes.
pub proof fn lengths_fit(n: usize)
    ensures
        n < range(width()),
{
    reveal_with_fuel(range, 9);
}

/// Numbers that fit in `len` bytes are told apart by them.
pub proof fn little_endian_is_injective(m: nat, n: nat, len: nat)
    requires
        m < range(len),
        n < range(len),
        little_endian(m, len) == little_endian(n, len),
    ensures
        m == n,
    decreases len,
{
    if len > 0 {
        let (a, b) = (little_endian(m, len), little_endian(n, len));
        let rest = (len - 1) as nat;
        assert(a[0] == b[0]);
        assert(a.skip(1) =~= little_endian(m / 256, rest));
        assert(b.skip(1) =~= little_endian(n / 256, rest));
        little_endian_is_injective(m / 256, n / 256, rest);
    }
}

/// The bytes of a length, the lowest first.
pub fn length_bytes(n: usize) -> (bytes: Vec<u8>)
    ensures
        bytes@ == little_endian(n as nat, width()),
{
    let count: u32 = usize::BITS / 8;
    let mut bytes: Vec<u8> = Vec::new();
    let mut rest: usize = n;
    let mut i: u32 = 0;
    while i < count
        invariant
            i <= count,
            count == width(),
            bytes@ + little_endian(rest as nat, (count - i) as nat) == little_endian(
                n as nat,
                width(),
            ),
        decreases count - i,
    {
        let ghost before = bytes@;
        let byte: u8 = (rest % 256) as u8;
        bytes.push(byte);
        proof {
            let left = (count - i) as nat;
            assert(little_endian(rest as nat, left) == seq![(rest as nat % 256) as u8]
                + little_endian((rest / 256) as nat, (left - 1) as nat));
            assert(before + (seq![byte] + little_endian((rest / 256) as nat, (left - 1) as nat))
                =~= bytes@ + little_endian((rest / 256) as nat, (left - 1) as nat));
        }
        rest = rest / 256;
        i = i + 1;
    }
    assert(bytes@ + little_endian(rest as nat, 0) =~= bytes@);
    bytes
}

/// The bytes of a number are its remainder by 256 and then the bytes of the rest.
pub proof fn the_lowest_byte_comes_first(n: nat, len: nat)
    requires
        len > 0,
    ensures
        little_endian(n, 0).len() == 0,
        little_endian(n, len).len() == len,
        little_endian(n, len)[0] == n % 256,
        little_endian(n, len).skip(1) == little_endian(n / 256, (len - 1) as nat),
    decreases len,
{
    assert(little_endian(n, len).skip(1) =~= little_endian(n / 256, (len - 1) as nat));
    if len > 1 {
        the_lowest_byte_comes_first(n / 256, (len - 1) as nat);
    }
}

/// A length has as many bytes as its bits make.
pub proof fn a_length_has_its_bits_in_bytes()
    ensures
        8 * width() == usize::BITS,
        range(0) == 1,
        forall|len: nat| #[trigger] range(len + 1) == 256 * range(len),
{
}

} // verus!
