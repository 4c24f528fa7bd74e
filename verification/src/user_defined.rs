//! Resources of a kind that the program itself defines.
//!
//! Such a resource can be described, but nothing of it is written yet: it
//! is left out of the script of every language.

use crate::id::IdOrName;
use crate::lang::Lang;
use crate::rc_inline::RcInlineData;
use vstd::prelude::*;

verus! {

/// A resource of a kind of the program's own: raw data given in the script,
/// or the file at a path, which is given in 16-bit units.
pub enum UserDefinedData {
    RcInline(RcInlineData),
    External(Vec<u16>),
}

impl UserDefinedData {
    /// The whole of the resource as the language `l` sees it, which is
    /// nothing.
    pub open spec fn script_segment(self, l: Lang, id_or_name: IdOrName) -> Seq<u8> {
        Seq::empty()
    }
}

/// Builds a resource of a kind of the program's own.
pub struct UserDefinedBuilder(pub(crate) UserDefinedData);

impl View for UserDefinedBuilder {
    type V = UserDefinedData;

    closed spec fn view(&self) -> UserDefinedData {
        self.0
    }
}

impl UserDefinedBuilder {
    /// The builder of a resource with nothing declared: raw data without
    /// items.
    pub fn new() -> (r: UserDefinedBuilder)
        ensures
            r@ matches UserDefinedData::RcInline(data) && data.is_new(),
    {
        UserDefinedBuilder(UserDefinedData::RcInline(RcInlineData::new()))
    }

    /// The resource that was built.
    pub fn into_data(self) -> (r: UserDefinedData)
        ensures
            r == self@,
    {
        self.0
    }
}

} // verus!
