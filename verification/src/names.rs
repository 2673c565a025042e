//! The names of sats and runes: numbers written in bijective base 26.
use vstd::prelude::*;
use crate::text::{chars_of, push_char};

verus! {

/// The number of sats that will ever exist.
pub const SUPPLY: u64 = 2099999997690000;

/// `x` in bijective base 26, with the 26 letters that start at `first`;
/// nothing for 0.
pub open spec fn letters(x: nat, first: nat) -> Seq<char>
    decreases x,
{
    if x == 0 {
        Seq::empty()
    } else {
        letters(((x - 1) / 26) as nat, first).push((first + (x - 1) % 26) as char)
    }
}

/// Appends `x` in bijective base 26, with the letters that start at `first`.
fn push_letters(s: &mut String, x: u128, first: u8)
    requires
        first == 65 || first == 97,
    ensures
        final(s)@ == old(s)@ + letters(x as nat, first as nat),
    decreases x,
{
    if x > 0 {
        push_letters(s, (x - 1) / 26, first);
        let d: u8 = ((x - 1) % 26) as u8;
        let c: char = (first + d) as char;
        push_char(s, c);
        assert(final(s)@ =~= old(s)@ + letters(x as nat, first as nat));
    }
}

/// Larger numbers have names no shorter.
proof fn lemma_letters_length_grows(x: nat, y: nat, first: nat)
    requires
        x <= y,
    ensures
        letters(x, first).len() <= letters(y, first).len(),
    decreases y,
{
    if x > 0 {
        lemma_letters_length_grows(((x - 1) / 26) as nat, ((y - 1) / 26) as nat, first);
    }
}

/// A sat, by its number; every sat's number is below the supply.
pub struct Sat {
    number: u64,
}

impl View for Sat {
    type V = nat;

    closed spec fn view(&self) -> nat {
        self.number as nat
    }
}

impl Sat {
    #[verifier::type_invariant]
    spec fn below_supply(self) -> bool {
        self.number < SUPPLY
    }

    /// The sat with number `n`, if there is one.
    pub fn new(n: u64) -> (r: Option<Sat>)
        ensures
            match r {
                Some(s) => n < SUPPLY && s@ == n,
                None => n >= SUPPLY,
            },
    {
        if n < SUPPLY {
            Some(Sat { number: n })
        } else {
            None
        }
    }

    /// The sat's number.
    pub fn n(&self) -> (n: u64)
        ensures
            n == self@,
            n < SUPPLY,
    {
        proof {
            use_type_invariant(self);
        }
        self.number
    }

    /// The sat's name: the sats still to be mined after it, counted down
    /// from the supply, in bijective base 26 with lowercase letters, so that
    /// the last sat is `a` and the first has the longest name.
    pub open spec fn name_text(self) -> Seq<char> {
        letters((SUPPLY - self@) as nat, 97)
    }

    /// The sat's name.
    pub fn name(&self) -> (r: String)
        ensures
            r@ == self.name_text(),
    {
        let n = self.n();
        let mut r = String::new();
        push_letters(&mut r, (SUPPLY - n) as u128, 97);
        r
    }
}

/// Every sat has a name, and a sat mined later has a name no longer than
/// one mined before it.
pub proof fn lemma_sat_names_shorten(a: Sat, b: Sat)
    requires
        a@ <= b@,
        b@ < SUPPLY,
    ensures
        b.name_text().len() >= 1,
        b.name_text().len() <= a.name_text().len(),
{
    lemma_letters_length_grows((SUPPLY - b@) as nat, (SUPPLY - a@) as nat, 97);
}

/// The name of the rune numbered `n`: `n + 1` in bijective base 26 with
/// uppercase letters, and a fixed name for the largest number.
pub open spec fn rune_text(n: u128) -> Seq<char> {
    if n == u128::MAX {
        "BCGDENLQRQWDSLRUGSNLBTMFIJAV"@
    } else {
        letters((n + 1) as nat, 65)
    }
}

/// The characters of `name` with a spacer `•` after each character whose
/// bit of `bits` is set, bit 0 for the first character, never after the
/// last.
pub open spec fn spaced(name: Seq<char>, bits: nat) -> Seq<char>
    decreases name.len(),
{
    if name.len() == 0 {
        Seq::empty()
    } else {
        let spacer = if name.len() > 1 && bits % 2 == 1 {
            seq!['\u{2022}']
        } else {
            Seq::empty()
        };
        seq![name[0]] + spacer + spaced(name.subrange(1, name.len() as int), bits / 2)
    }
}

/// Without spacers a name is written bare.
pub proof fn lemma_no_spacers(name: Seq<char>)
    ensures
        spaced(name, 0) == name,
    decreases name.len(),
{
    if name.len() > 0 {
        lemma_no_spacers(name.subrange(1, name.len() as int));
        assert(seq![name[0]] + name.subrange(1, name.len() as int) =~= name);
    }
}

/// A rune's number and the spacers written between its letters.
#[derive(Debug, Clone, Copy, PartialEq, Eq, Structural)]
pub struct SpacedRune {
    pub rune: u128,
    pub spacers: u32,
}

impl SpacedRune {
    /// The rune's name with its spacers.
    pub open spec fn text(self) -> Seq<char> {
        spaced(rune_text(self.rune), self.spacers as nat)
    }

    /// The rune's name with its spacers.
    pub fn to_string(&self) -> (r: String)
        ensures
            r@ == self.text(),
    {
        let mut name = String::new();
        if self.rune == u128::MAX {
            name = String::from_str("BCGDENLQRQWDSLRUGSNLBTMFIJAV");
            proof {
                reveal_strlit("BCGDENLQRQWDSLRUGSNLBTMFIJAV");
            }
        } else {
            push_letters(&mut name, self.rune + 1, 65);
            assert(name@ =~= letters((self.rune + 1) as nat, 65));
        }
        let chars = chars_of(name.as_str());
        let ghost whole = chars@;
        assert(whole == rune_text(self.rune));
        let mut r = String::new();
        assert(whole.subrange(0, whole.len() as int) =~= whole);
        let mut bits: u32 = self.spacers;
        let mut i: usize = 0;
        while i < chars.len()
            invariant
                i <= chars@.len(),
                whole == chars@,
                r@ + spaced(whole.subrange(i as int, whole.len() as int), bits as nat) == spaced(
                    whole,
                    self.spacers as nat,
                ),
            decreases chars.len() - i,
        {
            let ghost rest = whole.subrange(i as int, whole.len() as int);
            assert(rest.subrange(1, rest.len() as int) =~= whole.subrange(i + 1, whole.len() as int));
            push_char(&mut r, chars[i]);
            if chars.len() - i > 1 && bits % 2 == 1 {
                push_char(&mut r, '\u{2022}');
            }
            bits = bits / 2;
            i = i + 1;
        }
        assert(whole.subrange(whole.len() as int, whole.len() as int) =~= Seq::<char>::empty());
        assert(r@ + Seq::<char>::empty() =~= r@);
        r
    }
}

} // verus!
