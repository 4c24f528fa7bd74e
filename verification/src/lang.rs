//! Language keys, and the keys of the languages most in use.

use std::cmp::Ordering;
use vstd::prelude::*;
use vstd::std_specs::cmp::PartialOrdSpecImpl;

verus! {

/// A language key: a primary language tag and a sub-language tag. Keys are
/// ordered by primary tag first, then by sub-language tag.
#[derive(Copy, Clone, PartialEq, Eq, Ord, Debug, Structural)]
pub struct Lang(pub u16, pub u16);

impl Lang {
    /// The key with the given primary and sub-language tags.
    pub fn new(primary: u16, sub: u16) -> (r: Lang)
        ensures
            r == Lang(primary, sub),
    {
        Lang(primary, sub)
    }

    /// Whether this key stands before `other` in the order of keys.
    pub open spec fn precedes(self, other: Lang) -> bool {
        self.0 < other.0 || (self.0 == other.0 && self.1 < other.1)
    }

    /// Whether this key stands before `other` in the order of keys.
    pub fn is_before(&self, other: &Lang) -> (r: bool)
        ensures
            r == self.precedes(*other),
    {
        self.0 < other.0 || (self.0 == other.0 && self.1 < other.1)
    }
}

impl PartialOrd for Lang {
    fn partial_cmp(&self, other: &Lang) -> (r: Option<Ordering>) {
        if self.0 < other.0 {
            Some(Ordering::Less)
        } else if self.0 > other.0 {
            Some(Ordering::Greater)
        } else if self.1 < other.1 {
            Some(Ordering::Less)
        } else if self.1 > other.1 {
            Some(Ordering::Greater)
        } else {
            Some(Ordering::Equal)
        }
    }
}

impl PartialOrdSpecImpl for Lang {
    open spec fn obeys_partial_cmp_spec() -> bool {
        true
    }

    open spec fn partial_cmp_spec(&self, other: &Lang) -> Option<Ordering> {
        if self.precedes(*other) {
            Some(Ordering::Less)
        } else if other.precedes(*self) {
            Some(Ordering::Greater)
        } else {
            Some(Ordering::Equal)
        }
    }
}

/// Of two different keys exactly one stands before the other, and no key
/// stands before itself.
pub proof fn lemma_lang_order_total(a: Lang, b: Lang)
    ensures
        !a.precedes(a),
        a != b ==> (a.precedes(b) <==> !b.precedes(a)),
        a == b ==> !a.precedes(b),
{
}

/// The order of keys is transitive.
pub proof fn lemma_lang_order_transitive(a: Lang, b: Lang, c: Lang)
    requires
        a.precedes(b),
        b.precedes(c),
    ensures
        a.precedes(c),
{
}

/// The key of English (United States).
pub fn lang_enu() -> (r: Lang)
    ensures
        r == Lang(0x09, 0x01),
{
    Lang(0x09, 0x01)
}

/// The key of Chinese (Simplified).
pub fn lang_chs() -> (r: Lang)
    ensures
        r == Lang(0x04, 0x02),
{
    Lang(0x04, 0x02)
}

/// The key of Chinese (Traditional).
pub fn lang_cht() -> (r: Lang)
    ensures
        r == Lang(0x04, 0x01),
{
    Lang(0x04, 0x01)
}

/// The key of German.
pub fn lang_deu() -> (r: Lang)
    ensures
        r == Lang(0x07, 0x01),
{
    Lang(0x07, 0x01)
}

/// The key of Spanish.
pub fn lang_esn() -> (r: Lang)
    ensures
        r == Lang(0x0a, 0x01),
{
    Lang(0x0a, 0x01)
}

/// The key of French.
pub fn lang_fra() -> (r: Lang)
    ensures
        r == Lang(0x0c, 0x01),
{
    Lang(0x0c, 0x01)
}

/// The key of Italian.
pub fn lang_ita() -> (r: Lang)
    ensures
        r == Lang(0x10, 0x01),
{
    Lang(0x10, 0x01)
}

/// The key of Japanese.
pub fn lang_jpn() -> (r: Lang)
    ensures
        r == Lang(0x11, 0x01),
{
    Lang(0x11, 0x01)
}

/// The key of Korean.
pub fn lang_kor() -> (r: Lang)
    ensures
        r == Lang(0x12, 0x01),
{
    Lang(0x12, 0x01)
}

/// The key of Russian.
pub fn lang_rus() -> (r: Lang)
    ensures
        r == Lang(0x19, 0x01),
{
    Lang(0x19, 0x01)
}

/// The key of Czech.
pub fn lang_csy() -> (r: Lang)
    ensures
        r == Lang(0x05, 0x01),
{
    Lang(0x05, 0x01)
}

/// The key of Polish.
pub fn lang_plk() -> (r: Lang)
    ensures
        r == Lang(0x15, 0x01),
{
    Lang(0x15, 0x01)
}

/// The key of Portuguese (Brazil).
pub fn lang_ptb() -> (r: Lang)
    ensures
        r == Lang(0x16, 0x01),
{
    Lang(0x16, 0x01)
}

/// The key of Turkish.
pub fn lang_trk() -> (r: Lang)
    ensures
        r == Lang(0x1f, 0x01),
{
    Lang(0x1f, 0x01)
}

/// English alone.
pub fn preset_lang_1() -> (r: Vec<Lang>)
    ensures
        r@ == seq![Lang(0x09, 0x01)],
{
    let mut languages: Vec<Lang> = Vec::new();
    languages.push(lang_enu());
    languages
}

/// The nine languages most in use, English first.
pub fn preset_lang_9() -> (r: Vec<Lang>)
    ensures
        r@ == seq![Lang(0x09, 0x01), Lang(0x04, 0x02), Lang(0x04, 0x01), Lang(0x07, 0x01), Lang(0x0a, 0x01), Lang(0x0c, 0x01), Lang(0x10, 0x01), Lang(0x11, 0x01), Lang(0x12, 0x01)],
{
    let mut languages: Vec<Lang> = Vec::new();
    languages.push(lang_enu());
    languages.push(lang_chs());
    languages.push(lang_cht());
    languages.push(lang_deu());
    languages.push(lang_esn());
    languages.push(lang_fra());
    languages.push(lang_ita());
    languages.push(lang_jpn());
    languages.push(lang_kor());
    languages
}

/// The nine languages most in use, and Russian.
pub fn preset_lang_10() -> (r: Vec<Lang>)
    ensures
        r@ == seq![Lang(0x09, 0x01), Lang(0x04, 0x02), Lang(0x04, 0x01), Lang(0x07, 0x01), Lang(0x0a, 0x01), Lang(0x0c, 0x01), Lang(0x10, 0x01), Lang(0x11, 0x01), Lang(0x12, 0x01), Lang(0x19, 0x01)],
{
    let mut languages: Vec<Lang> = Vec::new();
    languages.push(lang_enu());
    languages.push(lang_chs());
    languages.push(lang_cht());
    languages.push(lang_deu());
    languages.push(lang_esn());
    languages.push(lang_fra());
    languages.push(lang_ita());
    languages.push(lang_jpn());
    languages.push(lang_kor());
    languages.push(lang_rus());
    languages
}

/// Fourteen languages, English first.
pub fn preset_lang_14() -> (r: Vec<Lang>)
    ensures
        r@ == seq![Lang(0x09, 0x01), Lang(0x04, 0x02), Lang(0x04, 0x01), Lang(0x05, 0x01), Lang(0x07, 0x01), Lang(0x0a, 0x01), Lang(0x0c, 0x01), Lang(0x10, 0x01), Lang(0x11, 0x01), Lang(0x12, 0x01), Lang(0x15, 0x01), Lang(0x16, 0x01), Lang(0x19, 0x01), Lang(0x1f, 0x01)],
{
    let mut languages: Vec<Lang> = Vec::new();
    languages.push(lang_enu());
    languages.push(lang_chs());
    languages.push(lang_cht());
    languages.push(lang_csy());
    languages.push(lang_deu());
    languages.push(lang_esn());
    languages.push(lang_fra());
    languages.push(lang_ita());
    languages.push(lang_jpn());
    languages.push(lang_kor());
    languages.push(lang_plk());
    languages.push(lang_ptb());
    languages.push(lang_rus());
    languages.push(lang_trk());
    languages
}

} // verus!
