//! Raw data: a sequence of literal items.
//!
//! Raw data can be described, but nothing of it is written yet: it is left
//! out of the script of every language.

use crate::id::IdOrName;
use crate::lang::Lang;
use crate::multilang::{ExtraInfo, OptionLangSpecific};
use vstd::prelude::*;

verus! {

/// A literal item of raw data.
pub enum RcInlineItem {
    U16(u16),
    U32(u32),
    Str(Vec<u8>),
    WStr(Vec<u16>),
}

/// Raw data: its extra numbers and its items, each per language.
pub struct RcInlineData {
    pub extra_info: OptionLangSpecific<ExtraInfo>,
    pub items: OptionLangSpecific<Vec<RcInlineItem>>,
}

impl RcInlineData {
    /// The whole of the raw data as the language `l` sees it, which is
    /// nothing.
    pub open spec fn script_segment(self, l: Lang, id_or_name: IdOrName) -> Seq<u8> {
        Seq::empty()
    }

    /// Whether nothing is declared.
    pub open spec fn is_new(self) -> bool {
        &&& self.extra_info@ == Map::<Option<Lang>, ExtraInfo>::empty()
        &&& self.items@ == Map::<Option<Lang>, Vec<RcInlineItem>>::empty()
    }

    /// Raw data with nothing declared.
    pub fn new() -> (r: RcInlineData)
        ensures
            r.is_new(),
    {
        RcInlineData { extra_info: OptionLangSpecific::new(), items: OptionLangSpecific::new() }
    }

    /// Whether nothing is declared that the language `l` sees: nothing of
    /// raw data is written for any language.
    pub fn is_missing_for_lang(&self, l: Lang) -> (r: bool)
        ensures
            r,
    {
        true
    }
}

/// Builds raw data.
pub struct RcInlineBuilder(pub(crate) RcInlineData);

impl View for RcInlineBuilder {
    type V = RcInlineData;

    closed spec fn view(&self) -> RcInlineData {
        self.0
    }
}

impl RcInlineBuilder {
    /// The builder of raw data with nothing declared.
    pub fn new() -> (r: RcInlineBuilder)
        ensures
            r@.is_new(),
    {
        RcInlineBuilder(RcInlineData::new())
    }

    /// The raw data that was built.
    pub fn into_data(self) -> (r: RcInlineData)
        ensures
            r == self@,
    {
        self.0
    }

    /// Declares the extra numbers for every language.
    pub fn extra_info(self, characteristics: Option<u32>, version: Option<u32>) -> (r:
        RcInlineBuilder)
        ensures
            r@.extra_info@ == self@.extra_info@.insert(
                None,
                (ExtraInfo { characteristics, version }),
            ),
            r@.items == self@.items,
    {
        let mut data = self.0;
        data.extra_info.insert_universal(ExtraInfo { characteristics, version });
        RcInlineBuilder(data)
    }

    /// Declares the extra numbers for the language `lang`.
    pub fn lang_specific_extra_info(
        self,
        lang: Lang,
        characteristics: Option<u32>,
        version: Option<u32>,
    ) -> (r: RcInlineBuilder)
        ensures
            r@.extra_info@ == self@.extra_info@.insert(
                Some(lang),
                (ExtraInfo { characteristics, version }),
            ),
            r@.items == self@.items,
    {
        let mut data = self.0;
        data.extra_info.insert_lang_specific(lang, ExtraInfo { characteristics, version });
        RcInlineBuilder(data)
    }
}

} // verus!
