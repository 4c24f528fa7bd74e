//! Version information: the numbers and texts that describe a file.
//!
//! Version information can be described, but nothing of it is written yet:
//! it is left out of the script of every language.

use crate::id::IdOrName;
use crate::lang::Lang;
use crate::multilang::OptionLangSpecific;
use vstd::prelude::*;

verus! {

/// The four numbers of a version.
#[derive(Clone, Copy, PartialEq, Eq, Debug)]
pub struct Version(pub [u16; 4]);

/// The flags of a file.
#[derive(Clone, Copy, PartialEq, Eq, Debug, Structural)]
pub struct FileFlags(pub u32);

/// The operating system that a file is made for.
#[derive(Clone, Copy, PartialEq, Eq, Debug, Structural)]
pub struct FileOS(pub u32);

/// The type of a file.
#[derive(Clone, Copy, PartialEq, Eq, Debug, Structural)]
pub struct FileType(pub u32);

/// The version information of a file. The texts are per language; the last
/// five take part only where they are there at all.
pub struct VersionInfoData {
    pub fixed_file_version: Option<Version>,
    pub fixed_product_version: Option<Version>,
    pub fixed_file_flags: Option<FileFlags>,
    pub fixed_file_os: Option<FileOS>,
    pub fixed_file_type: Option<FileType>,
    pub product_name: OptionLangSpecific<String>,
    pub product_version: OptionLangSpecific<String>,
    pub file_description: OptionLangSpecific<String>,
    pub file_version: OptionLangSpecific<String>,
    pub internal_name: OptionLangSpecific<String>,
    pub original_filename: OptionLangSpecific<String>,
    pub company_name: OptionLangSpecific<String>,
    pub legal_copyright: Option<OptionLangSpecific<String>>,
    pub legal_trademarks: Option<OptionLangSpecific<String>>,
    pub private_build: Option<OptionLangSpecific<String>>,
    pub special_build: Option<OptionLangSpecific<String>>,
    pub comments: Option<OptionLangSpecific<String>>,
}

impl VersionInfoData {
    /// The whole of the version information as the language `l` sees it,
    /// which is nothing.
    pub open spec fn script_segment(self, l: Lang, id_or_name: IdOrName) -> Seq<u8> {
        Seq::empty()
    }

    /// Whether nothing is declared.
    pub open spec fn is_new(self) -> bool {
        &&& self.fixed_file_version is None
        &&& self.fixed_product_version is None
        &&& self.fixed_file_flags is None
        &&& self.fixed_file_os is None
        &&& self.fixed_file_type is None
        &&& self.product_name@ == Map::<Option<Lang>, String>::empty()
        &&& self.product_version@ == Map::<Option<Lang>, String>::empty()
        &&& self.file_description@ == Map::<Option<Lang>, String>::empty()
        &&& self.file_version@ == Map::<Option<Lang>, String>::empty()
        &&& self.internal_name@ == Map::<Option<Lang>, String>::empty()
        &&& self.original_filename@ == Map::<Option<Lang>, String>::empty()
        &&& self.company_name@ == Map::<Option<Lang>, String>::empty()
        &&& self.legal_copyright is None
        &&& self.legal_trademarks is None
        &&& self.private_build is None
        &&& self.special_build is None
        &&& self.comments is None
    }

    /// Version information with nothing declared.
    pub fn new() -> (r: VersionInfoData)
        ensures
            r.is_new(),
    {
        VersionInfoData {
            fixed_file_version: None,
            fixed_product_version: None,
            fixed_file_flags: None,
            fixed_file_os: None,
            fixed_file_type: None,
            product_name: OptionLangSpecific::new(),
            product_version: OptionLangSpecific::new(),
            file_description: OptionLangSpecific::new(),
            file_version: OptionLangSpecific::new(),
            internal_name: OptionLangSpecific::new(),
            original_filename: OptionLangSpecific::new(),
            company_name: OptionLangSpecific::new(),
            legal_copyright: None,
            legal_trademarks: None,
            private_build: None,
            special_build: None,
            comments: None,
        }
    }

    /// Whether nothing is declared that the language `l` sees: nothing of
    /// version information is written for any language.
    pub fn is_missing_for_lang(&self, l: Lang) -> (r: bool)
        ensures
            r,
    {
        true
    }
}

/// Builds version information.
pub struct VersionInfoBuilder(pub(crate) VersionInfoData);

impl View for VersionInfoBuilder {
    type V = VersionInfoData;

    closed spec fn view(&self) -> VersionInfoData {
        self.0
    }
}

impl VersionInfoBuilder {
    /// The builder of version information with nothing declared.
    pub fn new() -> (r: VersionInfoBuilder)
        ensures
            r@.is_new(),
    {
        VersionInfoBuilder(VersionInfoData::new())
    }

    /// The version information that was built.
    pub fn into_data(self) -> (r: VersionInfoData)
        ensures
            r == self@,
    {
        self.0
    }
}

} // verus!
