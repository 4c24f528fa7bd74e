//! String tables: lists of numbered texts.

use crate::bytes::write_str;
use crate::codegen::{
    extra_info_text, id_text, resource_header_text, resource_header_warns, write_extra_info,
    write_id, write_resource_header, ResourceKind,
};
use crate::escape::{narrow_str_text, write_narrow_str};
use crate::id::{Id, IdOrName};
use crate::lang::Lang;
use crate::multilang::{resolve, ExtraInfo, OptionLangSpecific};
use vstd::prelude::*;
use vstd::string::StringSliceAdditionalSpecFns;
use vstd::utf8::encode_utf8;

verus! {

/// What a string table holds for one language, or for every language.
pub struct StringTableItems {
    pub extra_info: Option<ExtraInfo>,
    pub strings: Vec<(Id, String)>,
}

/// A string table: its items per language. What is declared for a language
/// stands in place of what is declared for every language.
pub struct StringTableData(pub OptionLangSpecific<StringTableItems>);

/// The line of one string: a tab, the identifier, a comma and the text.
pub open spec fn string_line(id: Id, text: Seq<char>) -> Seq<u8> {
    "\t".spec_bytes() + id_text(id) + ", ".spec_bytes() + narrow_str_text(encode_utf8(text))
        + "\n".spec_bytes()
}

/// The lines of a list of strings.
pub open spec fn string_lines(strings: Seq<(Id, String)>) -> Seq<u8>
    decreases strings.len(),
{
    if strings.len() == 0 {
        Seq::empty()
    } else {
        string_lines(strings.drop_last()) + string_line(strings.last().0, strings.last().1@)
    }
}

/// The block of a string table: its lines between braces.
pub open spec fn string_table_body(items: StringTableItems) -> Seq<u8> {
    "{\n".spec_bytes() + string_lines(items.strings@) + "}\n".spec_bytes()
}

impl StringTableItems {
    /// Items that hold nothing.
    pub fn new() -> (r: StringTableItems)
        ensures
            r.extra_info is None,
            r.strings@ == Seq::<(Id, String)>::empty(),
    {
        StringTableItems { extra_info: None, strings: Vec::new() }
    }

    /// Whether `self` is `before` with the string `text` under `id` added at
    /// the end.
    pub open spec fn is_with_string(self, before: StringTableItems, id: Id, text: Seq<char>) -> bool {
        &&& self.extra_info == before.extra_info
        &&& self.strings@.len() == before.strings@.len() + 1
        &&& self.strings@.drop_last() == before.strings@
        &&& self.strings@.last().0 == id
        &&& self.strings@.last().1@ == text
    }

    /// Whether `self` is the first items declared, with the string `text`
    /// under `id` alone.
    pub open spec fn is_one_string(self, id: Id, text: Seq<char>) -> bool {
        &&& self.extra_info is None
        &&& self.strings@.len() == 1
        &&& self.strings@[0].0 == id
        &&& self.strings@[0].1@ == text
    }
}

impl StringTableData {
    /// The items that the language `l` sees.
    pub open spec fn items_for(self, l: Lang) -> Option<StringTableItems> {
        resolve(self.0@, l)
    }

    /// The whole of the table as the language `l` sees it: nothing where no
    /// items are declared for it, else the header, the extra numbers and the
    /// block.
    pub open spec fn script_segment(self, l: Lang, id_or_name: IdOrName) -> Seq<u8> {
        match self.items_for(l) {
            None => Seq::empty(),
            Some(items) => resource_header_text(l, id_or_name, ResourceKind::StringTable)
                + extra_info_text(items.extra_info) + "\n".spec_bytes() + string_table_body(items),
        }
    }

    /// Whether rendering the table for the language `l` comes with a
    /// warning about its identifier.
    pub open spec fn script_warns(self, l: Lang, id_or_name: IdOrName) -> bool {
        self.items_for(l) is Some && resource_header_warns(id_or_name, ResourceKind::StringTable)
    }

    /// Whether `self` is `before` with one more string, `text` under `id`,
    /// declared under `key`.
    pub open spec fn is_with_string(
        self,
        before: StringTableData,
        key: Option<Lang>,
        id: Id,
        text: Seq<char>,
    ) -> bool {
        &&& self.0@.dom() == before.0@.dom().insert(key)
        &&& forall|k: Option<Lang>| k != key && before.0@.contains_key(k) ==> self.0@[k] == before.0@[k]
        &&& if before.0@.contains_key(key) {
            self.0@[key].is_with_string(before.0@[key], id, text)
        } else {
            self.0@[key].is_one_string(id, text)
        }
    }

    /// Whether `self` is `before` with the extra numbers `info` declared
    /// under `key`, in place of those declared under it before.
    pub open spec fn is_with_extra_info(
        self,
        before: StringTableData,
        key: Option<Lang>,
        info: ExtraInfo,
    ) -> bool {
        &&& self.0@.dom() == before.0@.dom().insert(key)
        &&& forall|k: Option<Lang>| k != key && before.0@.contains_key(k) ==> self.0@[k] == before.0@[k]
        &&& self.0@[key].extra_info == Some(info)
        &&& self.0@[key].strings@ == if before.0@.contains_key(key) {
            before.0@[key].strings@
        } else {
            Seq::empty()
        }
    }

    /// Whether nothing is declared in the table.
    pub open spec fn is_new(self) -> bool {
        self.0@ == Map::<Option<Lang>, StringTableItems>::empty()
    }

    /// A table in which nothing is declared.
    pub fn new() -> (r: StringTableData)
        ensures
            r.is_new(),
    {
        StringTableData(OptionLangSpecific::new())
    }

    /// Whether nothing is declared that the language `l` sees.
    pub fn is_missing_for_lang(&self, l: Lang) -> (r: bool)
        ensures
            r == (self.items_for(l) is None),
    {
        self.0.get(l).is_none()
    }

    /// Appends the extra numbers that follow the header.
    pub fn write_resource_header_extras(&self, w: &mut Vec<u8>, l: Lang)
        requires
            self.items_for(l) is Some,
        ensures
            final(w)@ == old(w)@ + extra_info_text(self.items_for(l)->0.extra_info),
    {
        match self.0.get(l) {
            Some(items) => write_extra_info(w, items.extra_info.as_ref()),
            None => {},
        }
    }

    /// Appends the block of the table.
    pub fn write_resource_segment(&self, w: &mut Vec<u8>, l: Lang)
        requires
            self.items_for(l) is Some,
        ensures
            final(w)@ == old(w)@ + string_table_body(self.items_for(l)->0),
    {
        match self.0.get(l) {
            Some(items) => {
                let ghost start = w@;
                write_str(w, "{\n");
                let mut i: usize = 0;
                while i < items.strings.len()
                    invariant
                        i <= items.strings@.len(),
                        w@ == start + "{\n".spec_bytes() + string_lines(
                            items.strings@.take(i as int),
                        ),
                    decreases items.strings@.len() - i,
                {
                    proof {
                        assert(items.strings@.take(i + 1).drop_last() =~= items.strings@.take(
                            i as int,
                        ));
                    }
                    let entry = &items.strings[i];
                    write_str(w, "\t");
                    write_id(w, &entry.0);
                    write_str(w, ", ");
                    write_narrow_str(w, entry.1.as_str());
                    write_str(w, "\n");
                    i += 1;
                }
                proof {
                    assert(items.strings@.take(i as int) =~= items.strings@);
                }
                write_str(w, "}\n");
            },
            None => {},
        }
    }

    /// Appends the whole of the table as the language `l` sees it, and says
    /// whether a warning is due for its identifier.
    pub fn write_script_segment(&self, w: &mut Vec<u8>, l: Lang, id_or_name: &IdOrName) -> (warning:
        bool)
        ensures
            final(w)@ == old(w)@ + self.script_segment(l, *id_or_name),
            warning == self.script_warns(l, *id_or_name),
    {
        if self.is_missing_for_lang(l) {
            return false;
        }
        let warning = write_resource_header(w, l, id_or_name, ResourceKind::StringTable);
        self.write_resource_header_extras(w, l);
        write_str(w, "\n");
        self.write_resource_segment(w, l);
        warning
    }
}

/// Builds a string table, declaration by declaration.
pub struct StringTableBuilder(StringTableData);

impl View for StringTableBuilder {
    type V = StringTableData;

    closed spec fn view(&self) -> StringTableData {
        self.0
    }
}

impl StringTableBuilder {
    /// The builder of a table in which nothing is declared yet.
    pub fn new() -> (r: StringTableBuilder)
        ensures
            r@.is_new(),
    {
        StringTableBuilder(StringTableData::new())
    }

    /// The table that was built.
    pub fn into_data(self) -> (r: StringTableData)
        ensures
            r == self@,
    {
        self.0
    }

    fn add_string(self, key: Option<Lang>, id: Id, string: &str) -> (r: StringTableBuilder)
        ensures
            r@.is_with_string(self@, key, id, string@),
    {
        let mut data = self.0;
        let mut items = match data.0.take(key) {
            Some(items) => items,
            None => StringTableItems::new(),
        };
        let ghost before = items;
        items.strings.push((id, string.to_owned()));
        assert(items.strings@.drop_last() =~= before.strings@);
        match key {
            Some(lang) => data.0.insert_lang_specific(lang, items),
            None => data.0.insert_universal(items),
        }
        assert(data.0@.dom() =~= self.0.0@.dom().insert(key));
        StringTableBuilder(data)
    }

    fn set_extra_info(self, key: Option<Lang>, info: ExtraInfo) -> (r: StringTableBuilder)
        ensures
            r@.is_with_extra_info(self@, key, info),
    {
        let mut data = self.0;
        let mut items = match data.0.take(key) {
            Some(items) => items,
            None => StringTableItems::new(),
        };
        items.extra_info = Some(info);
        match key {
            Some(lang) => data.0.insert_lang_specific(lang, items),
            None => data.0.insert_universal(items),
        }
        assert(data.0@.dom() =~= self.0.0@.dom().insert(key));
        StringTableBuilder(data)
    }

    /// Declares the string `string` under `id` for every language.
    pub fn string(self, id: Id, string: &str) -> (r: StringTableBuilder)
        ensures
            r@.is_with_string(self@, None, id, string@),
    {
        self.add_string(None, id, string)
    }

    /// Declares the string `string` under `id` for the language `lang`.
    pub fn lang_specific_string(self, lang: Lang, id: Id, string: &str) -> (r: StringTableBuilder)
        ensures
            r@.is_with_string(self@, Some(lang), id, string@),
    {
        self.add_string(Some(lang), id, string)
    }

    /// Declares the extra numbers for every language.
    pub fn extra_info(self, characteristics: Option<u32>, version: Option<u32>) -> (r:
        StringTableBuilder)
        ensures
            r@.is_with_extra_info(self@, None, (ExtraInfo { characteristics, version })),
    {
        self.set_extra_info(None, ExtraInfo { characteristics, version })
    }

    /// Declares the extra numbers for the language `lang`.
    pub fn lang_specific_extra_info(
        self,
        lang: Lang,
        characteristics: Option<u32>,
        version: Option<u32>,
    ) -> (r: StringTableBuilder)
        ensures
            r@.is_with_extra_info(self@, Some(lang), (ExtraInfo { characteristics, version })),
    {
        self.set_extra_info(Some(lang), ExtraInfo { characteristics, version })
    }
}

} // verus!
