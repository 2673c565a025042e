//! Transaction and inscription identifiers and their text forms.
use vstd::prelude::*;
use crate::text::{decimal, hex_fixed, push_char, push_decimal, push_hex};

verus! {

/// A transaction id: the 32-byte hash in the order in which it is shown,
/// as four 64-bit words, most significant first.
#[derive(Debug, Clone, Copy, PartialEq, Eq, Structural)]
pub struct Txid(pub u64, pub u64, pub u64, pub u64);

impl Txid {
    /// The id in lowercase hexadecimal, 64 digits.
    pub open spec fn text(self) -> Seq<char> {
        hex_fixed(self.0 as nat, 16) + hex_fixed(self.1 as nat, 16) + hex_fixed(self.2 as nat, 16)
            + hex_fixed(self.3 as nat, 16)
    }

    /// Appends the id in lowercase hexadecimal to `s`.
    pub fn push_to(&self, s: &mut String)
        ensures
            final(s)@ == old(s)@ + self.text(),
    {
        push_hex(s, self.0, 16);
        push_hex(s, self.1, 16);
        push_hex(s, self.2, 16);
        push_hex(s, self.3, 16);
    }
}

impl Default for Txid {
    /// The all-zero hash.
    fn default() -> (t: Txid)
        ensures
            t == Txid(0, 0, 0, 0),
    {
        Txid(0, 0, 0, 0)
    }
}

/// An inscription id: the reveal transaction and the inscription's index in it.
#[derive(Debug, Clone, Copy, PartialEq, Eq, Structural)]
pub struct InscriptionId {
    pub txid: Txid,
    pub index: u32,
}

impl InscriptionId {
    /// The id as shown: the transaction id, `i`, and the index.
    pub open spec fn text(self) -> Seq<char> {
        self.txid.text() + seq!['i'] + decimal(self.index as nat)
    }

    /// Appends the id to `s`.
    pub fn push_to(&self, s: &mut String)
        ensures
            final(s)@ == old(s)@ + self.text(),
    {
        self.txid.push_to(s);
        push_char(s, 'i');
        push_decimal(s, self.index as u64);
    }

    /// The id as shown.
    pub fn to_string(&self) -> (r: String)
        ensures
            r@ == self.text(),
    {
        let mut r = String::new();
        self.push_to(&mut r);
        r
    }
}

impl Default for InscriptionId {
    /// Index 0 of the all-zero transaction.
    fn default() -> (i: InscriptionId)
        ensures
            i == (InscriptionId { txid: Txid(0, 0, 0, 0), index: 0 }),
    {
        InscriptionId { txid: Txid(0, 0, 0, 0), index: 0 }
    }
}

/// A transaction output: a transaction id and an output index.
#[derive(Debug, Clone, Copy, PartialEq, Eq, Structural)]
pub struct OutPoint {
    pub txid: Txid,
    pub vout: u32,
}

impl OutPoint {
    /// The outpoint as shown: the transaction id, `:`, and the output index.
    pub open spec fn text(self) -> Seq<char> {
        self.txid.text() + seq![':'] + decimal(self.vout as nat)
    }

    /// Appends the outpoint to `s`.
    pub fn push_to(&self, s: &mut String)
        ensures
            final(s)@ == old(s)@ + self.text(),
    {
        self.txid.push_to(s);
        push_char(s, ':');
        push_decimal(s, self.vout as u64);
    }
}

impl Default for OutPoint {
    /// The null outpoint: the all-zero transaction and the largest index.
    fn default() -> (o: OutPoint)
        ensures
            o == (OutPoint { txid: Txid(0, 0, 0, 0), vout: u32::MAX }),
    {
        OutPoint { txid: Txid(0, 0, 0, 0), vout: u32::MAX }
    }
}

/// A position of a sat: an outpoint and an offset into its value.
#[derive(Debug, Clone, Copy, PartialEq, Eq, Structural)]
pub struct SatPoint {
    pub outpoint: OutPoint,
    pub offset: u64,
}

impl SatPoint {
    /// The satpoint as shown: the outpoint, `:`, and the offset.
    pub open spec fn text(self) -> Seq<char> {
        self.outpoint.text() + seq![':'] + decimal(self.offset as nat)
    }

    /// Appends the satpoint to `s`.
    pub fn push_to(&self, s: &mut String)
        ensures
            final(s)@ == old(s)@ + self.text(),
    {
        self.outpoint.push_to(s);
        push_char(s, ':');
        push_decimal(s, self.offset);
    }
}

impl Default for SatPoint {
    /// Offset 0 of the null outpoint.
    fn default() -> (p: SatPoint)
        ensures
            p == (SatPoint { outpoint: OutPoint { txid: Txid(0, 0, 0, 0), vout: u32::MAX }, offset: 0 }),
    {
        SatPoint { outpoint: OutPoint { txid: Txid(0, 0, 0, 0), vout: u32::MAX }, offset: 0 }
    }
}

} // verus!
