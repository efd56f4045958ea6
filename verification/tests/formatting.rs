use tunk::net::{push_ip, IpAddr};
use tunk::text::{push_dec, push_hex, push_signed};

fn ip(addr: IpAddr) -> String {
    let mut s = String::new();
    push_ip(&mut s, &addr);
    s
}

#[test]
fn decimal_and_hex_digits() {
    let mut s = String::new();
    push_dec(&mut s, 0);
    s.push(' ');
    push_dec(&mut s, 1234567890);
    s.push(' ');
    push_hex(&mut s, 0xdb8);
    s.push(' ');
    push_hex(&mut s, 0);
    assert_eq!(s, "0 1234567890 db8 0");
}

#[test]
fn signed_ports() {
    let mut s = String::new();
    push_signed(&mut s, -32768);
    s.push(' ');
    push_signed(&mut s, 8080);
    s.push(' ');
    push_signed(&mut s, -1);
    assert_eq!(s, "-32768 8080 -1");
}

#[test]
fn ipv4_text() {
    assert_eq!(ip(IpAddr::V4([1, 2, 3, 4])), "1.2.3.4");
    assert_eq!(ip(IpAddr::V4([127, 0, 0, 1])), "127.0.0.1");
    assert_eq!(ip(IpAddr::V4([255, 255, 255, 0])), "255.255.255.0");
}

#[test]
fn ipv6_text_compresses_the_first_longest_zero_run() {
    assert_eq!(ip(IpAddr::V6([0; 8])), "::");
    assert_eq!(ip(IpAddr::V6([0, 0, 0, 0, 0, 0, 0, 1])), "::1");
    assert_eq!(ip(IpAddr::V6([0x2001, 0xdb8, 0, 0, 0, 0, 0, 1])), "2001:db8::1");
    assert_eq!(ip(IpAddr::V6([1, 0, 0, 1, 0, 0, 0, 1])), "1:0:0:1::1");
    assert_eq!(ip(IpAddr::V6([1, 0, 0, 2, 0, 0, 3, 4])), "1::2:0:0:3:4");
    assert_eq!(ip(IpAddr::V6([1, 2, 3, 4, 5, 6, 7, 0])), "1:2:3:4:5:6:7:0");
    assert_eq!(ip(IpAddr::V6([1, 2, 3, 4, 5, 6, 0, 0])), "1:2:3:4:5:6::");
    assert_eq!(ip(IpAddr::V6([0xfe80, 0, 0, 0, 0xabcd, 0, 0, 0])), "fe80::abcd:0:0:0");
}

#[test]
fn ipv6_text_single_zero_is_not_compressed() {
    assert_eq!(ip(IpAddr::V6([1, 0, 2, 3, 4, 5, 6, 7])), "1:0:2:3:4:5:6:7");
}

#[test]
fn ipv6_text_ipv4_mapped() {
    assert_eq!(ip(IpAddr::V6([0, 0, 0, 0, 0, 0xffff, 0xc000, 0x0280])), "::ffff:192.0.2.128");
}
