//! Menus: trees of items, each with a text per language.
//!
//! An item without a text for a language is left out of the menu of that
//! language, with all that hangs below it. The menus of two languages may
//! thus differ in shape.

pub mod menu_state;
pub mod menu_type;

use crate::bytes::{lemma_concat_assoc, write_bytes, write_str};
use crate::codegen::{
    c_numeric_text, dword_text, id_text, resource_header_text, separator_text, write_c_int,
    write_dword, write_id, write_resource_header, write_separator, ResourceKind,
};
use crate::escape::{narrow_str_text, write_narrow_str};
use crate::id::{Id, IdOrName};
use crate::lang::Lang;
use crate::multilang::{resolve, MultiLangText, OptionLangSpecific};
use vstd::prelude::*;
use vstd::std_specs::ops::BitOrSpecImpl;
use vstd::string::StringSliceAdditionalSpecFns;
use vstd::utf8::encode_utf8;

verus! {

/// The type flags of a menu item.
#[derive(Clone, Copy, PartialEq, Eq, Debug, Structural)]
pub struct MenuType(pub u32);

/// The state flags of a menu item.
#[derive(Clone, Copy, PartialEq, Eq, Debug, Structural)]
pub struct MenuState(pub u32);

impl Default for MenuType {
    fn default() -> (r: MenuType)
        ensures
            r == MenuType(0),
    {
        MenuType(0)
    }
}

impl Default for MenuState {
    fn default() -> (r: MenuState)
        ensures
            r == MenuState(0),
    {
        MenuState(0)
    }
}

impl std::ops::BitOr for MenuType {
    type Output = MenuType;

    fn bitor(self, rhs: MenuType) -> (r: MenuType) {
        MenuType(self.0 | rhs.0)
    }
}

impl BitOrSpecImpl for MenuType {
    open spec fn obeys_bitor_spec() -> bool {
        true
    }

    open spec fn bitor_req(self, rhs: MenuType) -> bool {
        true
    }

    open spec fn bitor_spec(self, rhs: MenuType) -> MenuType {
        MenuType(self.0 | rhs.0)
    }
}

impl std::ops::BitOr for MenuState {
    type Output = MenuState;

    fn bitor(self, rhs: MenuState) -> (r: MenuState) {
        MenuState(self.0 | rhs.0)
    }
}

impl BitOrSpecImpl for MenuState {
    open spec fn obeys_bitor_spec() -> bool {
        true
    }

    open spec fn bitor_req(self, rhs: MenuState) -> bool {
        true
    }

    open spec fn bitor_spec(self, rhs: MenuState) -> MenuState {
        MenuState(self.0 | rhs.0)
    }
}

/// The items that open below an item, and the help identifier of the list.
pub struct PopupData {
    pub help_id: Option<i32>,
    pub items: Vec<MenuItem>,
}

/// An item of a menu.
pub struct MenuItem {
    pub id: Option<Id>,
    pub text: OptionLangSpecific<String>,
    pub ty: MenuType,
    pub state: MenuState,
    pub popup: Option<PopupData>,
}

/// A menu: its items, from the top.
pub struct MenuData(pub Vec<MenuItem>);

/// `indent` tabs.
pub open spec fn indent_text(indent: nat) -> Seq<u8> {
    Seq::new(indent, |i: int| 9u8)
}

impl MenuItem {
    /// Whether the item has type flags.
    pub open spec fn has_type(self) -> bool {
        self.ty.0 != 0
    }

    /// Whether the item has state flags.
    pub open spec fn has_state(self) -> bool {
        self.state.0 != 0
    }

    /// Whether the item opens a list that has a help identifier.
    pub open spec fn has_help_id(self) -> bool {
        self.popup is Some && self.popup->0.help_id is Some
    }

    /// The text of the item for the language `lang`.
    pub open spec fn text_for(self, lang: Lang) -> Option<String> {
        resolve(self.text@, lang)
    }

    /// The word that opens the line of the item.
    pub open spec fn keyword_text(self) -> Seq<u8> {
        if self.popup is Some {
            "POPUP ".spec_bytes()
        } else {
            "MENUITEM ".spec_bytes()
        }
    }

    /// The fields that follow the text of the item: identifier, type
    /// flags, state flags and help identifier, each at its place. A field
    /// that is absent is left empty; a comma stands before a place exactly
    /// when the field of that place, or of a later place, is present.
    pub open spec fn fields_text(self) -> Seq<u8> {
        separator_text(self.id is Some || self.has_type() || self.has_state() || self.has_help_id())
            + (match self.id {
            Some(id) => id_text(id),
            None => Seq::empty(),
        }) + separator_text(self.has_type() || self.has_state() || self.has_help_id()) + (
        if self.has_type() {
            dword_text(self.ty.0)
        } else {
            Seq::empty()
        }) + separator_text(self.has_state() || self.has_help_id()) + (if self.has_state() {
            dword_text(self.state.0)
        } else {
            Seq::empty()
        }) + separator_text(self.has_help_id()) + (if self.has_help_id() {
            c_numeric_text(self.popup->0.help_id->0 as int, 4)
        } else {
            Seq::empty()
        })
    }

    /// The line of the item for a language in which its text is `text`.
    pub open spec fn line_text(self, text: Seq<char>, indent: nat) -> Seq<u8> {
        indent_text(indent) + self.keyword_text() + narrow_str_text(encode_utf8(text))
            + self.fields_text() + "\n".spec_bytes()
    }
}

/// The lines of an item and of all that hangs below it, for the language
/// `lang`, at the depth `indent`: nothing where the item has no text for
/// the language, else the line of the item and, where it opens a list, the
/// lines of the list between braces, one tab deeper.
pub open spec fn menu_item_text(item: MenuItem, lang: Lang, indent: nat) -> Seq<u8>
    decreases item,
{
    match item.text_for(lang) {
        None => Seq::empty(),
        Some(text) => item.line_text(text@, indent) + (match item.popup {
            Some(popup) => indent_text(indent) + "{\n".spec_bytes() + menu_items_text(
                popup.items@,
                lang,
                indent + 1,
            ) + indent_text(indent) + "}\n".spec_bytes(),
            None => Seq::empty(),
        }),
    }
}

/// The lines of a list of items, for the language `lang`, at the depth
/// `indent`.
pub open spec fn menu_items_text(items: Seq<MenuItem>, lang: Lang, indent: nat) -> Seq<u8>
    decreases items,
{
    if items.len() == 0 {
        Seq::empty()
    } else {
        menu_items_text(items.drop_last(), lang, indent) + menu_item_text(
            items.last(),
            lang,
            indent,
        )
    }
}

/// Whether no item of the list has a text for the language `lang`.
pub open spec fn no_item_for(items: Seq<MenuItem>, lang: Lang) -> bool {
    forall|i: int| 0 <= i < items.len() ==> (#[trigger] items[i]).text_for(lang) is None
}

/// The block of a menu for the language `lang`.
pub open spec fn menu_body(items: Seq<MenuItem>, lang: Lang) -> Seq<u8> {
    "{\n".spec_bytes() + menu_items_text(items, lang, 1) + "}\n".spec_bytes()
}

fn write_menu_item_fields(w: &mut Vec<u8>, item: &MenuItem)
    ensures
        final(w)@ == old(w)@ + item.fields_text(),
{
    broadcast use lemma_concat_assoc;

    let exist_id = item.id.is_some();
    let exist_ty = item.ty.0 != 0;
    let exist_state = item.state.0 != 0;
    let help_id: Option<i32> = match &item.popup {
        Some(popup) => popup.help_id,
        None => None,
    };
    let exist_help_id = help_id.is_some();
    let ghost start = w@;
    write_separator(w, exist_id || exist_ty || exist_state || exist_help_id);
    if let Some(id) = &item.id {
        write_id(w, id);
    }
    let ghost after_id = w@;
    assert(after_id =~= start + (separator_text(
        item.id is Some || item.has_type() || item.has_state() || item.has_help_id(),
    ) + (match item.id {
        Some(id) => id_text(id),
        None => Seq::empty(),
    })));
    write_separator(w, exist_ty || exist_state || exist_help_id);
    if exist_ty {
        write_dword(w, item.ty.0);
    }
    let ghost after_type = w@;
    assert(after_type =~= after_id + (separator_text(
        item.has_type() || item.has_state() || item.has_help_id(),
    ) + (if item.has_type() {
        dword_text(item.ty.0)
    } else {
        Seq::empty()
    })));
    write_separator(w, exist_state || exist_help_id);
    if exist_state {
        write_dword(w, item.state.0);
    }
    let ghost after_state = w@;
    assert(after_state =~= after_type + (separator_text(item.has_state() || item.has_help_id()) + (
    if item.has_state() {
        dword_text(item.state.0)
    } else {
        Seq::empty()
    })));
    write_separator(w, exist_help_id);
    if let Some(help_id) = help_id {
        write_c_int(w, help_id);
    }
    assert(w@ =~= after_state + (separator_text(item.has_help_id()) + (if item.has_help_id() {
        c_numeric_text(item.popup->0.help_id->0 as int, 4)
    } else {
        Seq::empty()
    })));
}

fn write_menu_item_line(w: &mut Vec<u8>, item: &MenuItem, text: &str, prefix: &Vec<u8>)
    ensures
        final(w)@ == old(w)@ + prefix@ + item.keyword_text() + narrow_str_text(
            encode_utf8(text@),
        ) + item.fields_text() + "\n".spec_bytes(),
{
    write_bytes(w, prefix.as_slice());
    if item.popup.is_some() {
        write_str(w, "POPUP ");
    } else {
        write_str(w, "MENUITEM ");
    }
    write_narrow_str(w, text);
    write_menu_item_fields(w, item);
    write_str(w, "\n");
}

fn write_menu_items(w: &mut Vec<u8>, lang: Lang, items: &Vec<MenuItem>, prefix: &mut Vec<u8>)
    requires
        old(prefix)@ == indent_text(old(prefix)@.len()),
    ensures
        final(w)@ == old(w)@ + menu_items_text(items@, lang, old(prefix)@.len()),
        final(prefix)@ == old(prefix)@,
    decreases items,
{
    let ghost start = w@;
    let ghost indent = prefix@.len();
    let mut i: usize = 0;
    while i < items.len()
        invariant
            i <= items@.len(),
            prefix@ == indent_text(indent),
            prefix@.len() == indent,
            w@ == start + menu_items_text(items@.take(i as int), lang, indent),
        decreases items@.len() - i,
    {
        proof {
            assert(items@.take(i + 1).drop_last() =~= items@.take(i as int));
        }
        write_menu_item(w, lang, &items[i], prefix);
        i += 1;
    }
    proof {
        assert(items@.take(i as int) =~= items@);
    }
}

fn write_menu_item(w: &mut Vec<u8>, lang: Lang, item: &MenuItem, prefix: &mut Vec<u8>)
    requires
        old(prefix)@ == indent_text(old(prefix)@.len()),
    ensures
        final(w)@ == old(w)@ + menu_item_text(*item, lang, old(prefix)@.len()),
        final(prefix)@ == old(prefix)@,
    decreases item,
{
    let ghost indent = prefix@.len();
    let ghost start = w@;
    let text = match item.text.get(lang) {
        Some(text) => text,
        None => {
            return ;
        },
    };
    write_menu_item_line(w, item, text.as_str(), prefix);
    let ghost line = item.line_text(text@, indent);
    assert(w@ =~= start + line);
    if let Some(popup) = &item.popup {
        write_bytes(w, prefix.as_slice());
        write_str(w, "{\n");
        let ghost opened = w@;
        assert(opened =~= start + line + (indent_text(indent) + "{\n".spec_bytes()));
        prefix.push(9u8);
        proof {
            assert(prefix@ =~= indent_text(indent + 1));
        }
        write_menu_items(w, lang, &popup.items, prefix);
        let ghost inner = menu_items_text(popup.items@, lang, indent + 1);
        assert(w@ == opened + inner);
        prefix.pop();
        proof {
            assert(prefix@ =~= indent_text(indent));
        }
        let ghost filled = w@;
        write_bytes(w, prefix.as_slice());
        write_str(w, "}\n");
        assert(w@ =~= filled + (indent_text(indent) + "}\n".spec_bytes()));
        assert(w@ =~= start + (line + (indent_text(indent) + "{\n".spec_bytes() + inner
            + indent_text(indent) + "}\n".spec_bytes())));
    } else {
        assert(w@ =~= start + (line + Seq::<u8>::empty()));
    }
}

/// Appends the lines of `item` and of all that hangs below it, for the
/// language `lang`, at the depth `indent`.
pub fn write_menu_item_resource_segment(w: &mut Vec<u8>, lang: Lang, item: &MenuItem, indent: usize)
    ensures
        final(w)@ == old(w)@ + menu_item_text(*item, lang, indent as nat),
{
    let mut prefix: Vec<u8> = Vec::new();
    let mut i: usize = 0;
    while i < indent
        invariant
            i <= indent,
            prefix@ == indent_text(i as nat),
        decreases indent - i,
    {
        prefix.push(9u8);
        i += 1;
        proof {
            assert(prefix@ =~= indent_text(i as nat));
        }
    }
    write_menu_item(w, lang, item, &mut prefix);
}

impl MenuData {
    /// The whole of the menu as the language `l` sees it: nothing where no
    /// item at the top has a text for it, else the header and the block.
    pub open spec fn script_segment(self, l: Lang, id_or_name: IdOrName) -> Seq<u8> {
        if no_item_for(self.0@, l) {
            Seq::empty()
        } else {
            resource_header_text(l, id_or_name, ResourceKind::Menu) + "\n".spec_bytes() + menu_body(
                self.0@,
                l,
            )
        }
    }

    /// Whether the menu has no items.
    pub open spec fn is_new(self) -> bool {
        self.0@ == Seq::<MenuItem>::empty()
    }

    /// A menu without items.
    pub fn new() -> (r: MenuData)
        ensures
            r.is_new(),
    {
        MenuData(Vec::new())
    }

    /// Whether no item at the top has a text for the language `lang`.
    pub fn is_missing_for_lang(&self, lang: Lang) -> (r: bool)
        ensures
            r == no_item_for(self.0@, lang),
    {
        let mut i: usize = 0;
        while i < self.0.len()
            invariant
                i <= self.0@.len(),
                forall|k: int| 0 <= k < i ==> (#[trigger] self.0@[k]).text_for(lang) is None,
            decreases self.0@.len() - i,
        {
            if self.0[i].text.get(lang).is_some() {
                return false;
            }
            i += 1;
        }
        true
    }

    /// Appends what follows the header of a menu, which is nothing.
    pub fn write_resource_header_extras(&self, w: &mut Vec<u8>, l: Lang)
        ensures
            final(w)@ == old(w)@,
    {
    }

    /// Appends the block of the menu for the language `l`.
    pub fn write_resource_segment(&self, w: &mut Vec<u8>, l: Lang)
        ensures
            final(w)@ == old(w)@ + menu_body(self.0@, l),
    {
        write_str(w, "{\n");
        let mut prefix: Vec<u8> = Vec::new();
        prefix.push(9u8);
        proof {
            assert(prefix@ =~= indent_text(1));
        }
        write_menu_items(w, l, &self.0, &mut prefix);
        write_str(w, "}\n");
    }

    /// Appends the whole of the menu as the language `l` sees it.
    pub fn write_script_segment(&self, w: &mut Vec<u8>, l: Lang, id_or_name: &IdOrName)
        ensures
            final(w)@ == old(w)@ + self.script_segment(l, *id_or_name),
    {
        if self.is_missing_for_lang(l) {
            return ;
        }
        let _ = write_resource_header(w, l, id_or_name, ResourceKind::Menu);
        self.write_resource_header_extras(w, l);
        write_str(w, "\n");
        self.write_resource_segment(w, l);
    }
}

/// The type flag of an item that is a separator.
pub open spec fn separator_type() -> MenuType {
    MenuType(menu_type::SEPARATOR)
}

impl MenuItem {
    /// Whether the item is a separator: no identifier, the type flag of
    /// separators, no state flags, nothing below it, and for every language
    /// the empty text.
    pub open spec fn is_separator(self) -> bool {
        &&& self.id is None
        &&& self.ty == separator_type()
        &&& self.state == MenuState(0)
        &&& self.popup is None
        &&& self.text@.dom() == set![None::<Lang>]
        &&& self.text@[None]@ == Seq::<char>::empty()
    }
}

/// Builds the list that opens below an item.
pub struct PopupBuilder(PopupData);

impl View for PopupBuilder {
    type V = PopupData;

    closed spec fn view(&self) -> PopupData {
        self.0
    }
}

/// Builds a menu, item by item.
pub struct MenuBuilder(MenuData);

impl View for MenuBuilder {
    type V = MenuData;

    closed spec fn view(&self) -> MenuData {
        self.0
    }
}

impl PopupData {
    /// Whether the list is as a new builder holds it: no help identifier,
    /// no items.
    pub open spec fn is_empty(self) -> bool {
        self.help_id is None && self.items@.len() == 0
    }
}

impl PopupBuilder {
    /// The builder of a list without items.
    pub fn new() -> (r: PopupBuilder)
        ensures
            r@.is_empty(),
    {
        PopupBuilder(PopupData { help_id: None, items: Vec::new() })
    }

    /// The list that was built.
    pub fn build(self) -> (r: PopupData)
        ensures
            r == self@,
    {
        self.0
    }

    /// Gives the list the help identifier `help_id`.
    pub fn help_id(self, help_id: i32) -> (r: PopupBuilder)
        ensures
            r@.help_id == Some(help_id),
            r@.items == self@.items,
    {
        let mut data = self.0;
        data.help_id = Some(help_id);
        PopupBuilder(data)
    }

    fn internal_add_item(
        self,
        id: Option<Id>,
        text: MultiLangText,
        ty: MenuType,
        state: MenuState,
        popup: Option<PopupData>,
    ) -> (r: PopupBuilder)
        ensures
            r@.help_id == self@.help_id,
            r@.items@ == self@.items@.push((MenuItem { id, text: text.0, ty, state, popup })),
    {
        let mut data = self.0;
        data.items.push(MenuItem { id, text: text.0, ty, state, popup });
        PopupBuilder(data)
    }

    /// Adds an item that opens the list that `popup_building` builds.
    pub fn popup<F: FnOnce(PopupBuilder) -> PopupBuilder>(
        self,
        text: MultiLangText,
        popup_building: F,
    ) -> (r: PopupBuilder)
        requires
            forall|b: PopupBuilder| b@.is_empty() ==> call_requires(popup_building, (b,)),
        ensures
            r@.help_id == self@.help_id,
            exists|b: PopupBuilder, built: PopupBuilder|
                b@.is_empty() && call_ensures(popup_building, (b,), built) && r@.items@
                    == self@.items@.push(
                    (MenuItem {
                        id: None,
                        text: text.0,
                        ty: MenuType(0),
                        state: MenuState(0),
                        popup: Some(built@),
                    }),
                ),
    {
        let popup_builder = popup_building(PopupBuilder::new());
        self.internal_add_item(None, text, MenuType(0), MenuState(0), Some(popup_builder.0))
    }

    /// Adds the item `text` with the identifier `id`.
    pub fn item(self, id: Id, text: MultiLangText) -> (r: PopupBuilder)
        ensures
            r@.help_id == self@.help_id,
            r@.items@ == self@.items@.push(
                (MenuItem {
                    id: Some(id),
                    text: text.0,
                    ty: MenuType(0),
                    state: MenuState(0),
                    popup: None,
                }),
            ),
    {
        self.internal_add_item(Some(id), text, MenuType(0), MenuState(0), None)
    }

    /// Adds a separator.
    pub fn separator(self) -> (r: PopupBuilder)
        ensures
            r@.help_id == self@.help_id,
            r@.items@.len() == self@.items@.len() + 1,
            r@.items@.drop_last() == self@.items@,
            r@.items@.last().is_separator(),
    {
        let text = MultiLangText::universal("");
        proof {
            reveal_strlit("");
            assert(""@ =~= Seq::<char>::empty());
        }
        let r = self.internal_add_item(None, text, MenuType(menu_type::SEPARATOR), MenuState(0), None);
        assert(r@.items@.drop_last() =~= self@.items@);
        r
    }

    /// Adds an item with all its fields, which opens the list that
    /// `popup_building` builds.
    pub fn complex_popup<F: FnOnce(PopupBuilder) -> PopupBuilder>(
        self,
        id: Option<Id>,
        text: MultiLangText,
        ty: MenuType,
        state: MenuState,
        popup_building: F,
    ) -> (r: PopupBuilder)
        requires
            forall|b: PopupBuilder| b@.is_empty() ==> call_requires(popup_building, (b,)),
        ensures
            r@.help_id == self@.help_id,
            exists|b: PopupBuilder, built: PopupBuilder|
                b@.is_empty() && call_ensures(popup_building, (b,), built) && r@.items@
                    == self@.items@.push(
                    (MenuItem { id, text: text.0, ty, state, popup: Some(built@) }),
                ),
    {
        let popup_builder = popup_building(PopupBuilder::new());
        self.internal_add_item(id, text, ty, state, Some(popup_builder.0))
    }

    /// Adds an item with all its fields.
    pub fn complex_item(
        self,
        id: Option<Id>,
        text: MultiLangText,
        ty: MenuType,
        state: MenuState,
    ) -> (r: PopupBuilder)
        ensures
            r@.help_id == self@.help_id,
            r@.items@ == self@.items@.push((MenuItem { id, text: text.0, ty, state, popup: None })),
    {
        self.internal_add_item(id, text, ty, state, None)
    }
}

impl MenuBuilder {
    /// The builder of a menu without items.
    pub fn new() -> (r: MenuBuilder)
        ensures
            r@.is_new(),
    {
        MenuBuilder(MenuData::new())
    }

    /// The menu that was built.
    pub fn into_data(self) -> (r: MenuData)
        ensures
            r == self@,
    {
        self.0
    }

    fn internal_add_item(
        self,
        id: Option<Id>,
        text: MultiLangText,
        ty: MenuType,
        state: MenuState,
        popup: Option<PopupData>,
    ) -> (r: MenuBuilder)
        ensures
            r@.0@ == self@.0@.push((MenuItem { id, text: text.0, ty, state, popup })),
    {
        let mut data = self.0;
        data.0.push(MenuItem { id, text: text.0, ty, state, popup });
        MenuBuilder(data)
    }

    /// Adds an item that opens the list that `popup_building` builds.
    pub fn popup<F: FnOnce(PopupBuilder) -> PopupBuilder>(
        self,
        text: MultiLangText,
        popup_building: F,
    ) -> (r: MenuBuilder)
        requires
            forall|b: PopupBuilder| b@.is_empty() ==> call_requires(popup_building, (b,)),
        ensures
            exists|b: PopupBuilder, built: PopupBuilder|
                b@.is_empty() && call_ensures(popup_building, (b,), built) && r@.0@
                    == self@.0@.push(
                    (MenuItem {
                        id: None,
                        text: text.0,
                        ty: MenuType(0),
                        state: MenuState(0),
                        popup: Some(built@),
                    }),
                ),
    {
        let popup_builder = popup_building(PopupBuilder::new());
        self.internal_add_item(None, text, MenuType(0), MenuState(0), Some(popup_builder.0))
    }

    /// Adds the item `text` with the identifier `id`.
    pub fn item(self, id: Id, text: MultiLangText) -> (r: MenuBuilder)
        ensures
            r@.0@ == self@.0@.push(
                (MenuItem {
                    id: Some(id),
                    text: text.0,
                    ty: MenuType(0),
                    state: MenuState(0),
                    popup: None,
                }),
            ),
    {
        self.internal_add_item(Some(id), text, MenuType(0), MenuState(0), None)
    }

    /// Adds a separator.
    pub fn separator(self) -> (r: MenuBuilder)
        ensures
            r@.0@.len() == self@.0@.len() + 1,
            r@.0@.drop_last() == self@.0@,
            r@.0@.last().is_separator(),
    {
        let text = MultiLangText::universal("");
        proof {
            reveal_strlit("");
            assert(""@ =~= Seq::<char>::empty());
        }
        let r = self.internal_add_item(None, text, MenuType(menu_type::SEPARATOR), MenuState(0), None);
        assert(r@.0@.drop_last() =~= self@.0@);
        r
    }

    /// Adds an item with all its fields, which opens the list that
    /// `popup_building` builds.
    pub fn complex_popup<F: FnOnce(PopupBuilder) -> PopupBuilder>(
        self,
        id: Option<Id>,
        text: MultiLangText,
        ty: MenuType,
        state: MenuState,
        popup_building: F,
    ) -> (r: MenuBuilder)
        requires
            forall|b: PopupBuilder| b@.is_empty() ==> call_requires(popup_building, (b,)),
        ensures
            exists|b: PopupBuilder, built: PopupBuilder|
                b@.is_empty() && call_ensures(popup_building, (b,), built) && r@.0@
                    == self@.0@.push(
                    (MenuItem { id, text: text.0, ty, state, popup: Some(built@) }),
                ),
    {
        let popup_builder = popup_building(PopupBuilder::new());
        self.internal_add_item(id, text, ty, state, Some(popup_builder.0))
    }

    /// Adds an item with all its fields.
    pub fn complex_item(
        self,
        id: Option<Id>,
        text: MultiLangText,
        ty: MenuType,
        state: MenuState,
    ) -> (r: MenuBuilder)
        ensures
            r@.0@ == self@.0@.push((MenuItem { id, text: text.0, ty, state, popup: None })),
    {
        self.internal_add_item(id, text, ty, state, None)
    }
}

} // verus!
