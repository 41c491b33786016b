//! Reference numbers of plant elements and the record keys built from them.
//!
//! A reference number packs two 32-bit halves into one `u64`: the database
//! half in the high word and the element half in the low word. Its text
//! form is `ref0_ref1` (or `ref0/ref1` in the PDMS notation).
use vstd::prelude::*;
use crate::text::{
    chars_of, decimal, decimal_string, lemma_decimal_digits, lemma_digits_lack,
    join_with, lemma_parse_decimal, lemma_split_pair, parse_u64, parse_u64_of, push_char,
    push_decimal, push_str, split_chars, split_on,
};

verus! {

/// 2^32, the weight of the high half.
pub open spec fn half_base() -> nat {
    0x1_0000_0000
}

/// A packed reference number.
#[derive(Clone, Copy, PartialEq, Eq, Structural, Debug, Hash)]
pub struct RefU64(pub u64);

/// A foreign reference of an element and the name it points at.
pub struct PdmsSpreName {
    pub refno: RefU64,
    pub foreign_refno: Option<String>,
    pub name: Option<String>,
}

/// A reference to a plant element.
#[derive(Clone, Copy, PartialEq, Eq, Structural, Debug, Hash)]
pub enum RefnoEnum {
    Refno(RefU64),
}

impl RefU64 {
    /// The high (database) half.
    pub open spec fn spec_ref0(self) -> nat {
        (self.0 as nat) / half_base()
    }

    /// The low (element) half.
    pub open spec fn spec_ref1(self) -> nat {
        (self.0 as nat) % half_base()
    }

    /// The text `ref0_ref1`.
    pub open spec fn refno_text(self) -> Seq<char> {
        decimal(self.spec_ref0()) + seq!['_'] + decimal(self.spec_ref1())
    }

    /// The PDMS text `ref0/ref1`.
    pub open spec fn pdms_text(self) -> Seq<char> {
        decimal(self.spec_ref0()) + seq!['/'] + decimal(self.spec_ref1())
    }

    /// Packs the two halves.
    pub fn from_parts(ref0: u32, ref1: u32) -> (r: RefU64)
        ensures
            r.spec_ref0() == ref0,
            r.spec_ref1() == ref1,
            r.0 == ref0 as nat * half_base() + ref1 as nat,
    {
        let v: u64 = (ref0 as u64) * 0x1_0000_0000u64 + (ref1 as u64);
        assert(ref0 as nat * half_base() + ref1 as nat <= u64::MAX) by (nonlinear_arith)
            requires
                ref0 <= u32::MAX,
                ref1 <= u32::MAX,
        ;
        let r = RefU64(v);
        proof {
            lemma_halves(ref0 as nat, ref1 as nat);
        }
        r
    }

    /// The high half.
    pub fn get_0(&self) -> (r: u32)
        ensures
            r == self.spec_ref0(),
    {
        let h: u64 = self.0 / 0x1_0000_0000u64;
        assert(h < 0x1_0000_0000) by (nonlinear_arith)
            requires
                h == self.0 / 0x1_0000_0000u64,
        ;
        h as u32
    }

    /// The low half.
    pub fn get_1(&self) -> (r: u32)
        ensures
            r == self.spec_ref1(),
    {
        (self.0 % 0x1_0000_0000u64) as u32
    }

    /// The text `ref0_ref1`.
    pub fn to_refno_str(&self) -> (s: String)
        ensures
            s@ == self.refno_text(),
    {
        let mut s = decimal_string(self.get_0() as u64);
        push_char(&mut s, '_');
        push_decimal(&mut s, self.get_1() as u64);
        s
    }

    /// The PDMS text `ref0/ref1`.
    pub fn to_pdms_str(&self) -> (s: String)
        ensures
            s@ == self.pdms_text(),
    {
        let mut s = decimal_string(self.get_0() as u64);
        push_char(&mut s, '/');
        push_decimal(&mut s, self.get_1() as u64);
        s
    }
}

/// Packing and unpacking the halves agree.
pub proof fn lemma_halves(a: nat, b: nat)
    requires
        b < half_base(),
    ensures
        (a * half_base() + b) / half_base() == a,
        (a * half_base() + b) % half_base() == b,
{
    vstd::arithmetic::div_mod::lemma_fundamental_div_mod_converse(
        (a * half_base() + b) as int,
        half_base() as int,
        a as int,
        b as int,
    );
}

/// The halves that a two-piece text denotes, when both pieces parse as
/// 32-bit decimals.
pub open spec fn halves_of(parts: Seq<Seq<char>>) -> Option<u64> {
    if parts.len() == 2 {
        match (parse_u64_of(parts[0]), parse_u64_of(parts[1])) {
            (Some(a), Some(b)) => if a <= u32::MAX && b <= u32::MAX {
                Some((a as nat * half_base() + b as nat) as u64)
            } else {
                None
            },
            _ => None,
        }
    } else {
        None
    }
}

/// The reference number that the text `ref0_ref1` or `ref0/ref1` denotes.
pub open spec fn refno_value_of(s: Seq<char>) -> Option<u64> {
    if halves_of(split_on(s, '_')) is Some {
        halves_of(split_on(s, '_'))
    } else {
        halves_of(split_on(s, '/'))
    }
}

/// The record key `pe:['ref0_ref1']` of an element.
pub open spec fn pe_key_text(r: RefU64) -> Seq<char> {
    "pe:['"@ + r.refno_text() + "']"@
}

/// The record key `inst_relate:⟨ref0_ref1⟩` of an element's instance link.
pub open spec fn inst_relate_key_text(r: RefU64) -> Seq<char> {
    "inst_relate:⟨"@ + r.refno_text() + "⟩"@
}

/// Parses the halves of a two-piece text.
fn halves_exec(parts: &Vec<Vec<char>>) -> (r: Option<RefU64>)
    ensures
        match r {
            Some(v) => halves_of(parts.deep_view()) == Some(v.0),
            None => halves_of(parts.deep_view()) is None,
        },
{
    if parts.len() != 2 {
        return None;
    }
    assert(parts.deep_view()[0] == parts[0]@);
    assert(parts.deep_view()[1] == parts[1]@);
    let a = parse_u64(&parts[0]);
    let b = parse_u64(&parts[1]);
    match (a, b) {
        (Some(a), Some(b)) => {
            if a <= u32::MAX as u64 && b <= u32::MAX as u64 {
                Some(RefU64::from_parts(a as u32, b as u32))
            } else {
                None
            }
        },
        _ => None,
    }
}

/// Parses `ref0_ref1` or `ref0/ref1`, each half a 32-bit decimal.
pub fn parse_refno(s: &str) -> (r: Option<RefU64>)
    ensures
        match r {
            Some(v) => refno_value_of(s@) == Some(v.0),
            None => refno_value_of(s@) is None,
        },
{
    let cs = chars_of(s);
    let under = split_chars(&cs, '_');
    match halves_exec(&under) {
        Some(v) => Some(v),
        None => {
            let slash = split_chars(&cs, '/');
            halves_exec(&slash)
        },
    }
}

/// The text form of a reference number parses back to it.
pub proof fn lemma_refno_text_roundtrip(r: RefU64)
    ensures
        refno_value_of(r.refno_text()) == Some(r.0),
        refno_value_of(r.pdms_text()) == Some(r.0),
{
    let a = r.spec_ref0();
    let b = r.spec_ref1();
    assert(a <= u32::MAX) by (nonlinear_arith)
        requires
            a == (r.0 as nat) / half_base(),
            r.0 <= u64::MAX,
            half_base() == 0x1_0000_0000,
    ;
    lemma_decimal_digits(a);
    lemma_decimal_digits(b);
    lemma_digits_lack(decimal(a), '_');
    lemma_digits_lack(decimal(b), '_');
    lemma_digits_lack(decimal(a), '/');
    lemma_digits_lack(decimal(b), '/');
    lemma_split_pair(decimal(a), decimal(b), '_');
    lemma_split_pair(decimal(a), decimal(b), '/');
    lemma_parse_decimal(a);
    lemma_parse_decimal(b);
    assert(r.0 == a * half_base() + b) by (nonlinear_arith)
        requires
            a == (r.0 as nat) / half_base(),
            b == (r.0 as nat) % half_base(),
            half_base() > 0,
    ;
    // the PDMS text has no '_', so it is one piece under '_'
    assert(!r.pdms_text().contains('_')) by {
        if r.pdms_text().contains('_') {
            let k = choose|k: int| 0 <= k < r.pdms_text().len() && r.pdms_text()[k] == '_';
            if k < decimal(a).len() {
                assert(decimal(a)[k] == '_');
            } else if k > decimal(a).len() {
                assert(decimal(b)[k - decimal(a).len() - 1] == '_');
            }
        }
    }
    crate::text::lemma_split_single(r.pdms_text(), '_');
}

impl RefU64 {
    /// The record key `pe:['ref0_ref1']`.
    pub fn to_pe_key(&self) -> (s: String)
        ensures
            s@ == pe_key_text(*self),
    {
        let mut s = String::new();
        push_str(&mut s, "pe:['");
        let t = self.to_refno_str();
        push_str(&mut s, t.as_str());
        push_str(&mut s, "']");
        s
    }

    /// The record key `inst_relate:⟨ref0_ref1⟩`.
    pub fn to_inst_relate_key(&self) -> (s: String)
        ensures
            s@ == inst_relate_key_text(*self),
    {
        let mut s = String::new();
        push_str(&mut s, "inst_relate:⟨");
        let t = self.to_refno_str();
        push_str(&mut s, t.as_str());
        push_str(&mut s, "⟩");
        s
    }
}

impl RefnoEnum {
    /// The packed reference number.
    pub open spec fn spec_refno(self) -> RefU64 {
        match self {
            RefnoEnum::Refno(r) => r,
        }
    }

    /// The packed reference number.
    pub fn refno(&self) -> (r: RefU64)
        ensures
            r == self.spec_refno(),
    {
        match self {
            RefnoEnum::Refno(r) => *r,
        }
    }

    /// Reads `ref0_ref1` or `ref0/ref1`; any other text gives the reference
    /// number zero.
    pub fn from(s: &str) -> (r: RefnoEnum)
        ensures
            r.spec_refno().0 == (match refno_value_of(s@) {
                Some(v) => v,
                None => 0,
            }),
    {
        match parse_refno(s) {
            Some(v) => RefnoEnum::Refno(v),
            None => RefnoEnum::Refno(RefU64(0)),
        }
    }

    /// The text `ref0_ref1`.
    pub fn to_refno_str(&self) -> (s: String)
        ensures
            s@ == self.spec_refno().refno_text(),
    {
        self.refno().to_refno_str()
    }

    /// The record key `pe:['ref0_ref1']`.
    pub fn to_pe_key(&self) -> (s: String)
        ensures
            s@ == pe_key_text(self.spec_refno()),
    {
        self.refno().to_pe_key()
    }

    /// The record key `inst_relate:⟨ref0_ref1⟩`.
    pub fn to_inst_relate_key(&self) -> (s: String)
        ensures
            s@ == inst_relate_key_text(self.spec_refno()),
    {
        self.refno().to_inst_relate_key()
    }
}

/// The `pe` keys of `refnos`, in order.
pub open spec fn pe_keys_of(refnos: Seq<RefnoEnum>) -> Seq<Seq<char>> {
    refnos.map_values(|r: RefnoEnum| pe_key_text(r.spec_refno()))
}

/// The `inst_relate` keys of `refnos`, in order.
pub open spec fn inst_relate_keys_of(refnos: Seq<RefnoEnum>) -> Seq<Seq<char>> {
    refnos.map_values(|r: RefnoEnum| inst_relate_key_text(r.spec_refno()))
}

/// The `pe` keys of `refnos` separated by commas.
pub fn join_pe_keys(refnos: &[RefnoEnum]) -> (s: String)
    ensures
        s@ == join_with(pe_keys_of(refnos@), ","@),
{
    let ghost keys = pe_keys_of(refnos@);
    let mut s = String::new();
    let mut i: usize = 0;
    while i < refnos.len()
        invariant
            i <= refnos.len(),
            keys == pe_keys_of(refnos@),
            s@ == join_with(keys.take(i as int), ","@),
        decreases refnos.len() - i,
    {
        assert(keys.take(i + 1).drop_last() =~= keys.take(i as int));
        if i > 0 {
            push_str(&mut s, ",");
        }
        let k = refnos[i].to_pe_key();
        push_str(&mut s, k.as_str());
        i = i + 1;
    }
    assert(keys.take(refnos.len() as int) =~= keys);
    s
}

/// The `inst_relate` keys of `refnos` separated by commas.
pub fn join_inst_relate_keys(refnos: &[RefnoEnum]) -> (s: String)
    ensures
        s@ == join_with(inst_relate_keys_of(refnos@), ","@),
{
    let ghost keys = inst_relate_keys_of(refnos@);
    let mut s = String::new();
    let mut i: usize = 0;
    while i < refnos.len()
        invariant
            i <= refnos.len(),
            keys == inst_relate_keys_of(refnos@),
            s@ == join_with(keys.take(i as int), ","@),
        decreases refnos.len() - i,
    {
        assert(keys.take(i + 1).drop_last() =~= keys.take(i as int));
        if i > 0 {
            push_str(&mut s, ",");
        }
        let k = refnos[i].to_inst_relate_key();
        push_str(&mut s, k.as_str());
        i = i + 1;
    }
    assert(keys.take(refnos.len() as int) =~= keys);
    s
}

} // verus!
