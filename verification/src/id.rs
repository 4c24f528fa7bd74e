//! Identifiers of resources: a 16-bit number, or a name.

use crate::bytes::{
    bytes_lt, bytes_precede, lemma_bytes_order_irreflexive, lemma_bytes_order_total,
    lemma_bytes_order_transitive,
};
use std::cmp::Ordering;
use vstd::prelude::*;
use vstd::std_specs::cmp::{PartialEqSpecImpl, PartialOrdSpecImpl};
use vstd::std_specs::convert::{FromSpecImpl, TryFromSpecImpl};
use vstd::string::StrSliceExecFns;
use vstd::utf8::{encode_utf8, encode_utf8_decode_utf8};

verus! {

/// A numeric identifier. The value `0xFFFF`, which is -1 read as a signed
/// 16-bit number, is reserved: it stands for "no meaningful identifier".
#[derive(Copy, Clone, PartialEq, Eq, Ord, Debug, Structural)]
pub struct Id(pub u16);

/// A value that no numeric identifier can hold.
#[derive(Copy, Clone, PartialEq, Eq, Debug, Structural)]
pub struct IdOutOfRange(pub isize);

impl PartialOrd for Id {
    fn partial_cmp(&self, other: &Id) -> (r: Option<Ordering>) {
        if self.0 < other.0 {
            Some(Ordering::Less)
        } else if self.0 > other.0 {
            Some(Ordering::Greater)
        } else {
            Some(Ordering::Equal)
        }
    }
}

impl PartialOrdSpecImpl for Id {
    open spec fn obeys_partial_cmp_spec() -> bool {
        true
    }

    open spec fn partial_cmp_spec(&self, other: &Id) -> Option<Ordering> {
        if self.0 < other.0 {
            Some(Ordering::Less)
        } else if self.0 > other.0 {
            Some(Ordering::Greater)
        } else {
            Some(Ordering::Equal)
        }
    }
}

impl From<u16> for Id {
    fn from(v: u16) -> (r: Id) {
        Id(v)
    }
}

impl FromSpecImpl<u16> for Id {
    open spec fn obeys_from_spec() -> bool {
        true
    }

    open spec fn from_spec(v: u16) -> Id {
        Id(v)
    }
}

/// What a signed value becomes as an identifier: -1 is the reserved
/// identifier, a value from 0 to `0xFFFF` is itself, and no other value is
/// an identifier.
pub open spec fn id_of_signed(v: isize) -> Result<Id, IdOutOfRange> {
    if v == -1 {
        Ok(Id(0xFFFF))
    } else if 0 <= v <= 0xFFFF {
        Ok(Id(v as u16))
    } else {
        Err(IdOutOfRange(v))
    }
}

impl TryFrom<isize> for Id {
    type Error = IdOutOfRange;

    fn try_from(v: isize) -> (r: Result<Id, IdOutOfRange>) {
        if v == -1 {
            Ok(Id(0xFFFF))
        } else if 0 <= v && v <= 0xFFFF {
            Ok(Id(v as u16))
        } else {
            Err(IdOutOfRange(v))
        }
    }
}

impl TryFromSpecImpl<isize> for Id {
    open spec fn obeys_try_from_spec() -> bool {
        true
    }

    open spec fn try_from_spec(v: isize) -> Result<Id, IdOutOfRange> {
        id_of_signed(v)
    }
}

/// The conversion from a signed value fails on every value below -1 or above
/// `0xFFFF`, and succeeds on every other: the identifier then holds the
/// value itself, but for -1, which gives the reserved identifier.
pub proof fn lemma_id_conversion_range(v: isize)
    ensures
        (v < -1 || v > 0xFFFF) ==> id_of_signed(v) == Err::<Id, IdOutOfRange>(IdOutOfRange(v)),
        0 <= v <= 0xFFFF ==> id_of_signed(v) is Ok && id_of_signed(v).unwrap().0 == v,
        v == -1 ==> id_of_signed(v) == Ok::<Id, IdOutOfRange>(Id(0xFFFF)),
{
}

/// An identifier of a resource: a number or a name. Every number stands
/// before every name; numbers are ordered by value, names as byte strings.
#[derive(Eq, Ord, Debug)]
pub enum IdOrName {
    Id(Id),
    Name(String),
}

impl Clone for IdOrName {
    fn clone(&self) -> (r: IdOrName)
        ensures
            r == *self,
    {
        match self {
            IdOrName::Id(id) => IdOrName::Id(*id),
            IdOrName::Name(name) => IdOrName::Name(name.clone()),
        }
    }
}

impl IdOrName {
    /// Whether two identifiers are the same: the same number, or names of
    /// the same text.
    pub open spec fn same(self, other: IdOrName) -> bool {
        match (self, other) {
            (IdOrName::Id(a), IdOrName::Id(b)) => a == b,
            (IdOrName::Name(a), IdOrName::Name(b)) => a@ == b@,
            _ => false,
        }
    }

    /// Whether this identifier stands before `other` in the order of
    /// identifiers.
    pub open spec fn precedes(self, other: IdOrName) -> bool {
        match (self, other) {
            (IdOrName::Id(a), IdOrName::Id(b)) => a.0 < b.0,
            (IdOrName::Id(_), IdOrName::Name(_)) => true,
            (IdOrName::Name(_), IdOrName::Id(_)) => false,
            (IdOrName::Name(a), IdOrName::Name(b)) => bytes_precede(
                encode_utf8(a@),
                encode_utf8(b@),
            ),
        }
    }

    /// Whether the identifier may stand where the script has no use for one:
    /// the numbers 0 and `0xFFFF`, the empty name, and the names that are a
    /// single space or a single underscore.
    pub open spec fn ignorable(self) -> bool {
        match self {
            IdOrName::Id(id) => id.0 == 0 || id.0 == 0xFFFF,
            IdOrName::Name(name) => name@.len() == 0 || (name@.len() == 1 && (name@[0] == ' '
                || name@[0] == '_')),
        }
    }

    /// Whether the identifier may stand where the script has no use for one.
    pub fn is_ignorable(&self) -> (r: bool)
        ensures
            r == self.ignorable(),
    {
        match self {
            IdOrName::Id(id) => id.0 == 0 || id.0 == 0xFFFF,
            IdOrName::Name(name) => {
                let n = name.as_str().unicode_len();
                if n == 0 {
                    true
                } else if n == 1 {
                    let c = name.as_str().get_char(0);
                    c == ' ' || c == '_'
                } else {
                    false
                }
            },
        }
    }
}

impl PartialEq for IdOrName {
    fn eq(&self, other: &IdOrName) -> (r: bool) {
        match (self, other) {
            (IdOrName::Id(a), IdOrName::Id(b)) => a.0 == b.0,
            (IdOrName::Name(a), IdOrName::Name(b)) => *a == *b,
            _ => false,
        }
    }
}

impl PartialEqSpecImpl for IdOrName {
    open spec fn obeys_eq_spec() -> bool {
        true
    }

    open spec fn eq_spec(&self, other: &IdOrName) -> bool {
        self.same(*other)
    }
}

impl PartialOrd for IdOrName {
    fn partial_cmp(&self, other: &IdOrName) -> (r: Option<Ordering>) {
        match (self, other) {
            (IdOrName::Id(a), IdOrName::Id(b)) => {
                if a.0 < b.0 {
                    Some(Ordering::Less)
                } else if a.0 > b.0 {
                    Some(Ordering::Greater)
                } else {
                    Some(Ordering::Equal)
                }
            },
            (IdOrName::Id(_), IdOrName::Name(_)) => Some(Ordering::Less),
            (IdOrName::Name(_), IdOrName::Id(_)) => Some(Ordering::Greater),
            (IdOrName::Name(a), IdOrName::Name(b)) => {
                if bytes_lt(a.as_str().as_bytes(), b.as_str().as_bytes()) {
                    Some(Ordering::Less)
                } else if bytes_lt(b.as_str().as_bytes(), a.as_str().as_bytes()) {
                    Some(Ordering::Greater)
                } else {
                    Some(Ordering::Equal)
                }
            },
        }
    }
}

impl PartialOrdSpecImpl for IdOrName {
    open spec fn obeys_partial_cmp_spec() -> bool {
        true
    }

    open spec fn partial_cmp_spec(&self, other: &IdOrName) -> Option<Ordering> {
        if self.precedes(*other) {
            Some(Ordering::Less)
        } else if other.precedes(*self) {
            Some(Ordering::Greater)
        } else {
            Some(Ordering::Equal)
        }
    }
}

/// Of two identifiers that are not the same exactly one stands before the
/// other, and of two that are the same neither does.
pub proof fn lemma_id_or_name_order_total(a: IdOrName, b: IdOrName)
    ensures
        !a.same(b) ==> (a.precedes(b) <==> !b.precedes(a)),
        a.same(b) ==> !a.precedes(b) && !b.precedes(a),
{
    match (a, b) {
        (IdOrName::Name(x), IdOrName::Name(y)) => {
            let xb = encode_utf8(x@);
            let yb = encode_utf8(y@);
            lemma_bytes_order_total(xb, yb);
            lemma_bytes_order_irreflexive(xb);
            encode_utf8_decode_utf8(x@);
            encode_utf8_decode_utf8(y@);
        },
        _ => {},
    }
}

/// The order of identifiers is transitive.
pub proof fn lemma_id_or_name_order_transitive(a: IdOrName, b: IdOrName, c: IdOrName)
    requires
        a.precedes(b),
        b.precedes(c),
    ensures
        a.precedes(c),
{
    match (a, b, c) {
        (IdOrName::Name(x), IdOrName::Name(y), IdOrName::Name(z)) => {
            lemma_bytes_order_transitive(
                encode_utf8(x@),
                encode_utf8(y@),
                encode_utf8(z@),
            );
        },
        _ => {},
    }
}

impl From<u16> for IdOrName {
    fn from(v: u16) -> (r: IdOrName) {
        IdOrName::Id(Id(v))
    }
}

impl FromSpecImpl<u16> for IdOrName {
    open spec fn obeys_from_spec() -> bool {
        true
    }

    open spec fn from_spec(v: u16) -> IdOrName {
        IdOrName::Id(Id(v))
    }
}

impl From<Id> for IdOrName {
    fn from(v: Id) -> (r: IdOrName) {
        IdOrName::Id(v)
    }
}

impl FromSpecImpl<Id> for IdOrName {
    open spec fn obeys_from_spec() -> bool {
        true
    }

    open spec fn from_spec(v: Id) -> IdOrName {
        IdOrName::Id(v)
    }
}

impl From<String> for IdOrName {
    fn from(v: String) -> (r: IdOrName) {
        IdOrName::Name(v)
    }
}

impl FromSpecImpl<String> for IdOrName {
    open spec fn obeys_from_spec() -> bool {
        true
    }

    open spec fn from_spec(v: String) -> IdOrName {
        IdOrName::Name(v)
    }
}

impl TryFrom<isize> for IdOrName {
    type Error = IdOutOfRange;

    fn try_from(v: isize) -> (r: Result<IdOrName, IdOutOfRange>) {
        match Id::try_from(v) {
            Ok(id) => Ok(IdOrName::Id(id)),
            Err(e) => Err(e),
        }
    }
}

impl TryFromSpecImpl<isize> for IdOrName {
    open spec fn obeys_try_from_spec() -> bool {
        true
    }

    open spec fn try_from_spec(v: isize) -> Result<IdOrName, IdOutOfRange> {
        match id_of_signed(v) {
            Ok(id) => Ok(IdOrName::Id(id)),
            Err(e) => Err(e),
        }
    }
}

impl IdOrName {
    /// The identifier that is the name `name`.
    pub fn from_name(name: &str) -> (r: IdOrName)
        ensures
            r matches IdOrName::Name(text) && text@ == name@,
    {
        IdOrName::Name(name.to_owned())
    }
}

} // verus!
