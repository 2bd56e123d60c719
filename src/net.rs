use vstd::prelude::*;
use crate::text::joined3;

verus! {

/// An IP address: IPv4 as a 32-bit number, IPv6 as a 128-bit number, both in network order.
#[derive(Debug, Clone, Copy, PartialEq, Eq, Structural)]
pub enum IpAddress {
    V4(u32),
    V6(u128),
}

/// An address with a prefix length: a subnet as written in configuration.
#[derive(Debug, Clone, Copy, PartialEq, Eq, Structural)]
pub struct Subnet {
    pub address: IpAddress,
    pub prefix_len: u8,
}

/// The digit character of a number below ten.
pub open spec fn digit_char(d: nat) -> char {
    if d == 0 { '0' } else if d == 1 { '1' } else if d == 2 { '2' } else if d == 3 { '3' }
    else if d == 4 { '4' } else if d == 5 { '5' } else if d == 6 { '6' } else if d == 7 { '7' }
    else if d == 8 { '8' } else { '9' }
}

/// The decimal text of a number, without leading zeros.
pub open spec fn decimal(n: nat) -> Seq<char>
    decreases n,
{
    if n < 10 {
        seq![digit_char(n)]
    } else {
        decimal(n / 10).push(digit_char(n % 10))
    }
}

fn digit_text(d: u32) -> (r: &'static str)
    requires
        d < 10,
    ensures
        r@ == seq![digit_char(d as nat)],
{
    proof {
        reveal_strlit("0");
        reveal_strlit("1");
        reveal_strlit("2");
        reveal_strlit("3");
        reveal_strlit("4");
        reveal_strlit("5");
        reveal_strlit("6");
        reveal_strlit("7");
        reveal_strlit("8");
        reveal_strlit("9");
    }
    if d == 0 { "0" } else if d == 1 { "1" } else if d == 2 { "2" } else if d == 3 { "3" }
    else if d == 4 { "4" } else if d == 5 { "5" } else if d == 6 { "6" } else if d == 7 { "7" }
    else if d == 8 { "8" } else { "9" }
}

/// The decimal text of a number.
pub fn decimal_text(n: u32) -> (r: String)
    ensures
        r@ == decimal(n as nat),
    decreases n,
{
    if n < 10 {
        digit_text(n).to_owned()
    } else {
        let mut r = decimal_text(n / 10);
        r.append(digit_text(n % 10));
        r
    }
}

/// Dotted-quad text of an IPv4 address.
pub open spec fn ipv4_text(a: u32) -> Seq<char> {
    decimal((a / 0x100_0000) as nat) + "."@ + decimal((a / 0x1_0000 % 0x100) as nat) + "."@
        + decimal((a / 0x100 % 0x100) as nat) + "."@ + decimal((a % 0x100) as nat)
}

/// What `Ipv6Addr`'s display gives for an address (RFC 5952 form).
pub uninterp spec fn ipv6_text_of(a: u128) -> Seq<char>;

/// Relies on the display of the address that `ipnet::Ipv6Net::addr` hands back: the text
/// depends on the address alone.
#[verifier::external_body]
fn ipv6_text(a: u128) -> (r: String)
    ensures
        r@ == ipv6_text_of(a),
{
    ipnet::Ipv6Net::new_assert(a.into(), 128).addr().to_string()
}

/// Text of an address.
pub open spec fn address_text(a: IpAddress) -> Seq<char> {
    match a {
        IpAddress::V4(v) => ipv4_text(v),
        IpAddress::V6(v) => ipv6_text_of(v),
    }
}

impl IpAddress {
    /// The address written out.
    pub fn to_text(&self) -> (r: String)
        ensures
            r@ == address_text(*self),
    {
        match self {
            IpAddress::V4(v) => {
                let a = decimal_text(*v / 0x100_0000);
                let b = decimal_text(*v / 0x1_0000 % 0x100);
                let c = decimal_text(*v / 0x100 % 0x100);
                let d = decimal_text(*v % 0x100);
                let mut r = joined3(a.as_str(), ".", b.as_str());
                r.append(".");
                r.append(c.as_str());
                r.append(".");
                r.append(d.as_str());
                r
            },
            IpAddress::V6(v) => ipv6_text(*v),
        }
    }
}

/// "ADDRESS/PREFIX", as `ip addr` takes it.
pub open spec fn cidr_text(address: IpAddress, prefix_len: u8) -> Seq<char> {
    address_text(address) + "/"@ + decimal(prefix_len as nat)
}

/// Writes an address with a prefix length as `ip addr` takes it.
pub fn cidr(address: &IpAddress, prefix_len: u8) -> (r: String)
    ensures
        r@ == cidr_text(*address, prefix_len),
{
    let a = address.to_text();
    let p = decimal_text(prefix_len as u32);
    joined3(a.as_str(), "/", p.as_str())
}

/// The mask of an IPv4 prefix.
pub open spec fn v4_netmask(prefix_len: u8) -> u32 {
    if prefix_len == 0 {
        0
    } else {
        0xffff_ffffu32 << ((32 - prefix_len) as u32)
    }
}

/// The mask of an IPv6 prefix.
pub open spec fn v6_netmask(prefix_len: u8) -> u128 {
    if prefix_len == 0 {
        0
    } else {
        0xffff_ffff_ffff_ffff_ffff_ffff_ffff_ffffu128 << ((128 - prefix_len) as u128)
    }
}

/// Relies on `ipnet::Ipv4Net::new` and `trunc`: the network address keeps the first
/// `prefix_len` bits of the address.
#[verifier::external_body]
pub(crate) fn network_v4(address: u32, prefix_len: u8) -> (r: u32)
    requires
        prefix_len <= 32,
    ensures
        r == address & v4_netmask(prefix_len),
{
    match ipnet::Ipv4Net::new(address.into(), prefix_len) {
        Ok(n) => u32::from(n.trunc().addr()),
        Err(_) => address,
    }
}

/// Relies on `ipnet::Ipv6Net::new` and `trunc`: the network address keeps the first
/// `prefix_len` bits of the address.
#[verifier::external_body]
pub(crate) fn network_v6(address: u128, prefix_len: u8) -> (r: u128)
    requires
        prefix_len <= 128,
    ensures
        r == address & v6_netmask(prefix_len),
{
    match ipnet::Ipv6Net::new(address.into(), prefix_len) {
        Ok(n) => u128::from(n.trunc().addr()),
        Err(_) => address,
    }
}

/// Number of bits set in a number.
pub open spec fn ones(x: nat) -> nat
    decreases x,
{
    if x == 0 {
        0
    } else {
        (x % 2) + ones(x / 2)
    }
}

pub(crate) proof fn lemma_ones_bound(x: nat, k: nat)
    requires
        x < vstd::arithmetic::power2::pow2(k),
    ensures
        ones(x) <= k,
    decreases k,
{
    if x > 0 {
        if k == 0 {
            vstd::arithmetic::power2::lemma2_to64();
        } else {
            vstd::arithmetic::power2::lemma_pow2_unfold(k);
            lemma_ones_bound(x / 2, (k - 1) as nat);
        }
    }
}

/// Number of bits set in a 128-bit mask: its prefix length.
pub fn count_ones(x: u128) -> (r: u8)
    ensures
        r as nat == ones(x as nat),
        r <= 128,
{
    proof {
        vstd::arithmetic::power2::lemma2_to64();
        assert(x < vstd::arithmetic::power2::pow2(128)) by {
            vstd::arithmetic::power2::lemma_pow2_adds(64, 64);
            assert(0x1_0000_0000_0000_0000nat * 0x1_0000_0000_0000_0000nat
                == 0x1_0000_0000_0000_0000_0000_0000_0000_0000nat) by (nonlinear_arith);
        }
        lemma_ones_bound(x as nat, 128);
    }
    let mut y: u128 = x;
    let mut c: u8 = 0;
    while y > 0
        invariant
            c as nat + ones(y as nat) == ones(x as nat),
            ones(x as nat) <= 128,
        decreases y,
    {
        c = c + (y % 2) as u8;
        y = y / 2;
    }
    c
}

} // verus!
