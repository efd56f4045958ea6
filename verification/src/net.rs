//! IP addresses as the configuration holds them, and their textual form.
//!
//! The text is the one the standard library's `Display` writes: dotted decimal for
//! IPv4; for IPv6 lower-case hexadecimal groups, with the first longest run of two or
//! more zero groups written as `::`, and the IPv4-mapped form `::ffff:a.b.c.d`.

use vstd::prelude::*;
use crate::text::{dec_text, hex_text, push_char, push_dec, push_hex};

verus! {

/// An IPv4 address (four octets) or an IPv6 address (eight 16-bit groups).
#[derive(Debug, Clone, Copy)]
pub enum IpAddr {
    V4([u8; 4]),
    V6([u16; 8]),
}

/// Dotted-decimal text of four octets.
pub open spec fn ipv4_text(a: nat, b: nat, c: nat, d: nat) -> Seq<char> {
    dec_text(a) + seq!['.'] + dec_text(b) + seq!['.'] + dec_text(c) + seq!['.'] + dec_text(d)
}

/// Hexadecimal groups joined by `:`.
pub open spec fn hex_join(groups: Seq<u16>) -> Seq<char>
    decreases groups.len(),
{
    if groups.len() == 0 {
        Seq::empty()
    } else if groups.len() == 1 {
        hex_text(groups[0] as nat)
    } else {
        hex_join(groups.drop_last()) + seq![':'] + hex_text(groups.last() as nat)
    }
}

/// `s[a .. a + l]` lies within `s` and holds only zero groups.
pub open spec fn is_zero_run(s: Seq<u16>, a: int, l: int) -> bool {
    &&& 0 <= a
    &&& 0 <= l
    &&& a + l <= s.len()
    &&& forall|i: int| a <= i < a + l ==> s[i] == 0
}

/// `s[a .. a + l]` is the first of the longest runs of zero groups (`a == 0` when there is none).
pub open spec fn is_first_longest_zero_run(s: Seq<u16>, a: int, l: int) -> bool {
    &&& is_zero_run(s, a, l)
    &&& forall|b: int, m: int| #[trigger] is_zero_run(s, b, m) ==> m <= l
    &&& forall|b: int| 0 <= b < a ==> !is_zero_run(s, b, l)
}

/// Start and length of the first longest run of zero groups.
pub open spec fn longest_zero_run(s: Seq<u16>) -> (int, int) {
    choose|p: (int, int)| is_first_longest_zero_run(s, p.0, p.1)
}

/// The groups `0:0:0:0:0:ffff:x:y` of an IPv4-mapped address.
pub open spec fn is_ipv4_mapped(s: Seq<u16>) -> bool {
    &&& s.len() == 8
    &&& s[0] == 0 && s[1] == 0 && s[2] == 0 && s[3] == 0 && s[4] == 0
    &&& s[5] == 0xffff
}

/// Text of an IPv6 address given by its groups.
pub open spec fn ipv6_text(s: Seq<u16>) -> Seq<char> {
    if is_ipv4_mapped(s) {
        seq![':', ':', 'f', 'f', 'f', 'f', ':'] + ipv4_text(
            (s[6] / 256) as nat,
            (s[6] % 256) as nat,
            (s[7] / 256) as nat,
            (s[7] % 256) as nat,
        )
    } else {
        let (a, l) = longest_zero_run(s);
        if l > 1 {
            hex_join(s.subrange(0, a)) + seq![':', ':'] + hex_join(s.subrange(a + l, s.len() as int))
        } else {
            hex_join(s)
        }
    }
}

/// Text of an IP address.
pub open spec fn ip_text(ip: IpAddr) -> Seq<char> {
    match ip {
        IpAddr::V4(o) => ipv4_text(o[0] as nat, o[1] as nat, o[2] as nat, o[3] as nat),
        IpAddr::V6(g) => ipv6_text(g@),
    }
}

/// There is at most one first longest run of zero groups.
pub proof fn lemma_first_longest_zero_run_unique(s: Seq<u16>, a: int, l: int, b: int, m: int)
    requires
        is_first_longest_zero_run(s, a, l),
        is_first_longest_zero_run(s, b, m),
    ensures
        a == b,
        l == m,
{
    assert(m <= l);
    assert(l <= m);
    if a < b {
        assert(!is_zero_run(s, a, l));
    }
    if b < a {
        assert(!is_zero_run(s, b, m));
    }
}

fn push_ipv4(out: &mut String, a: u8, b: u8, c: u8, d: u8)
    ensures
        final(out)@ == old(out)@ + ipv4_text(a as nat, b as nat, c as nat, d as nat),
{
    push_dec(out, a as u64);
    push_char(out, '.');
    push_dec(out, b as u64);
    push_char(out, '.');
    push_dec(out, c as u64);
    push_char(out, '.');
    push_dec(out, d as u64);
    assert(out@ =~= old(out)@ + ipv4_text(a as nat, b as nat, c as nat, d as nat));
}

fn push_hex_join(out: &mut String, g: &[u16; 8], from: usize, to: usize)
    requires
        from <= to <= 8,
    ensures
        final(out)@ == old(out)@ + hex_join(g@.subrange(from as int, to as int)),
{
    let mut i = from;
    assert(g@.subrange(from as int, from as int) =~= Seq::<u16>::empty());
    while i < to
        invariant
            from <= i <= to <= 8,
            g@.len() == 8,
            out@ == old(out)@ + hex_join(g@.subrange(from as int, i as int)),
        decreases to - i,
    {
        let ghost before = g@.subrange(from as int, i as int);
        let ghost after = g@.subrange(from as int, i + 1);
        assert(after.drop_last() =~= before);
        assert(after.last() == g@[i as int]);
        if i > from {
            push_char(out, ':');
        }
        push_hex(out, g[i] as u64);
        assert(out@ =~= old(out)@ + hex_join(after));
        i = i + 1;
    }
}

fn find_longest_zero_run(g: &[u16; 8]) -> (r: (usize, usize))
    ensures
        is_first_longest_zero_run(g@, r.0 as int, r.1 as int),
{
    let ghost s = g@;
    let mut best_start: usize = 0;
    let mut best_len: usize = 0;
    let mut cur_start: usize = 0;
    let mut cur_len: usize = 0;
    let mut i: usize = 0;
    while i < 8
        invariant
            s == g@,
            s.len() == 8,
            i <= 8,
            is_zero_run(s, best_start as int, best_len as int),
            best_start + best_len <= i,
            forall|b: int, m: int| #[trigger] is_zero_run(s, b, m) && b + m <= i ==> m <= best_len,
            forall|b: int| 0 <= b < best_start ==> !is_zero_run(s, b, best_len as int),
            cur_start + cur_len == i,
            is_zero_run(s, cur_start as int, cur_len as int),
            cur_start == 0 || s[cur_start - 1] != 0,
        decreases 8 - i,
    {
        if g[i] == 0 {
            cur_len = cur_len + 1;
            assert(is_zero_run(s, cur_start as int, cur_len as int));
            assert forall|b: int, m: int| #[trigger] is_zero_run(s, b, m) && b + m <= i + 1 implies m <= cur_len || m <= best_len by {
                if b + m == i + 1 && m > 0 && b < cur_start {
                    assert(s[cur_start - 1] == 0);
                }
            }
            if cur_len > best_len {
                assert forall|b: int| 0 <= b < cur_start implies !is_zero_run(s, b, cur_len as int) by {
                    if is_zero_run(s, b, cur_len as int) {
                        assert(b + cur_len <= i);
                    }
                }
                best_start = cur_start;
                best_len = cur_len;
            }
        } else {
            assert forall|b: int, m: int| #[trigger] is_zero_run(s, b, m) && b + m <= i + 1 implies m <= best_len by {
                if b + m == i + 1 && m > 0 {
                    assert(s[i as int] == 0);
                }
            }
            cur_start = i + 1;
            cur_len = 0;
        }
        i = i + 1;
    }
    (best_start, best_len)
}

/// Appends the text of an IPv6 address.
fn push_ipv6(out: &mut String, g: &[u16; 8])
    ensures
        final(out)@ == old(out)@ + ipv6_text(g@),
{
    if g[0] == 0 && g[1] == 0 && g[2] == 0 && g[3] == 0 && g[4] == 0 && g[5] == 0xffff {
        push_char(out, ':');
        push_char(out, ':');
        push_char(out, 'f');
        push_char(out, 'f');
        push_char(out, 'f');
        push_char(out, 'f');
        push_char(out, ':');
        let ghost mid = out@;
        push_ipv4(out, (g[6] / 256) as u8, (g[6] % 256) as u8, (g[7] / 256) as u8, (g[7] % 256) as u8);
        assert(out@ =~= old(out)@ + ipv6_text(g@));
    } else {
        let (a, l) = find_longest_zero_run(g);
        proof {
            let p = longest_zero_run(g@);
            assert(is_first_longest_zero_run(g@, a as int, l as int));
            lemma_first_longest_zero_run_unique(g@, p.0, p.1, a as int, l as int);
        }
        if l > 1 {
            push_hex_join(out, g, 0, a);
            push_char(out, ':');
            push_char(out, ':');
            push_hex_join(out, g, a + l, 8);
            assert(out@ =~= old(out)@ + ipv6_text(g@));
        } else {
            push_hex_join(out, g, 0, 8);
            assert(g@.subrange(0, 8) =~= g@);
        }
    }
}

/// Appends the text of an IP address.
pub fn push_ip(out: &mut String, ip: &IpAddr)
    ensures
        final(out)@ == old(out)@ + ip_text(*ip),
{
    match ip {
        IpAddr::V4(o) => push_ipv4(out, o[0], o[1], o[2], o[3]),
        IpAddr::V6(g) => push_ipv6(out, g),
    }
}

}
