//! Conversion of SOCKS5 request addresses into the plain values the
//! surrounding program dials: IPv6 group decoding and the `host:port` byte
//! string handed to name resolution.

use vstd::prelude::*;

verus! {

/// The decimal digits of `n`, as ASCII bytes, most significant first and
/// without leading zeros (the single digit `0` for zero).
pub open spec fn dec_rep(n: nat) -> Seq<u8>
    decreases n,
{
    if n < 10 {
        seq![(48 + n) as u8]
    } else {
        dec_rep(n / 10).push((48 + n % 10) as u8)
    }
}

/// Appends the decimal digits of `n` to `out`.
pub fn push_decimal(n: u16, out: &mut Vec<u8>)
    ensures
        final(out)@ == old(out)@ + dec_rep(n as nat),
    decreases n,
{
    if n < 10 {
        out.push(48 + (n as u8));
        proof {
            assert(out@ =~= old(out)@ + dec_rep(n as nat));
        }
    } else {
        push_decimal(n / 10, out);
        out.push(48 + ((n % 10) as u8));
        proof {
            assert(out@ =~= old(out)@ + dec_rep(n as nat));
        }
    }
}

/// The `host:port` byte string for a domain target: the name bytes, an
/// ASCII colon, then the decimal digits of the port.
pub open spec fn host_port_rep(name: Seq<u8>, port: u16) -> Seq<u8> {
    name + seq![58u8] + dec_rep(port as nat)
}

/// Builds the `host:port` byte string used to resolve a domain target.
pub fn host_port_bytes(name: &Vec<u8>, port: u16) -> (r: Vec<u8>)
    ensures
        r@ == host_port_rep(name@, port),
{
    let mut out: Vec<u8> = Vec::new();
    let mut i: usize = 0;
    while i < name.len()
        invariant
            i <= name@.len(),
            out@ == name@.subrange(0, i as int),
        decreases name@.len() - i,
    {
        out.push(name[i]);
        proof {
            assert(out@ =~= name@.subrange(0, i + 1));
        }
        i += 1;
    }
    proof {
        assert(out@ =~= name@);
    }
    out.push(58);
    push_decimal(port, &mut out);
    proof {
        assert(out@ =~= host_port_rep(name@, port));
    }
    out
}

/// The `i`-th big-endian 16-bit group of a sixteen-byte IPv6 address.
pub open spec fn v6_group_at(b: Seq<u8>, i: int) -> u16 {
    (b[2 * i] * 256 + b[2 * i + 1]) as u16
}

/// Decodes the sixteen raw bytes of an IPv6 request address into its eight
/// big-endian 16-bit groups.
pub fn v6_groups(b: &Vec<u8>) -> (r: Vec<u16>)
    requires
        b@.len() == 16,
    ensures
        r@.len() == 8,
        forall|i: int| 0 <= i < 8 ==> r@[i] == v6_group_at(b@, i),
{
    let mut r: Vec<u16> = Vec::new();
    let mut i: usize = 0;
    while i < 8
        invariant
            b@.len() == 16,
            i <= 8,
            r@.len() == i,
            forall|j: int| 0 <= j < i ==> r@[j] == v6_group_at(b@, j),
        decreases 8 - i,
    {
        let hi = b[2 * i];
        let lo = b[2 * i + 1];
        let g: u16 = (hi as u16) * 256 + (lo as u16);
        r.push(g);
        i += 1;
    }
    r
}

} // verus!
