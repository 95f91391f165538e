//! IPv4 addresses as four plain octets.

use crate::text::{decimal, push_decimal};
use vstd::prelude::*;
use vstd::string::*;

verus! {

/// An IPv4 address `a.b.c.d`.
#[derive(Clone, Copy, Debug, PartialEq, Eq, Hash, Structural)]
pub struct Ipv4 {
    pub a: u8,
    pub b: u8,
    pub c: u8,
    pub d: u8,
}

impl Ipv4 {
    /// The address in dotted decimal notation.
    pub open spec fn dotted(self) -> Seq<char> {
        decimal(self.a as nat) + seq!['.'] + decimal(self.b as nat) + seq!['.'] + decimal(
            self.c as nat,
        ) + seq!['.'] + decimal(self.d as nat)
    }

    /// The address with the given octets.
    pub fn new(a: u8, b: u8, c: u8, d: u8) -> (ip: Ipv4)
        ensures
            ip == (Ipv4 { a, b, c, d }),
    {
        Ipv4 { a, b, c, d }
    }

    /// The four octets, first to last.
    pub fn octets(&self) -> (o: [u8; 4])
        ensures
            o@ == seq![self.a, self.b, self.c, self.d],
    {
        let o = [self.a, self.b, self.c, self.d];
        o
    }

    /// The address in dotted decimal notation, as text.
    pub fn to_text(&self) -> (s: String)
        ensures
            s@ == self.dotted(),
    {
        proof {
            reveal_strlit(".");
        }
        let mut s = String::new();
        push_decimal(&mut s, self.a as u32);
        s.append(".");
        push_decimal(&mut s, self.b as u32);
        s.append(".");
        push_decimal(&mut s, self.c as u32);
        s.append(".");
        push_decimal(&mut s, self.d as u32);
        s
    }
}

} // verus!
