//! Accelerator tables: keys that stand for commands.

pub mod virt_key;

use crate::bytes::{lemma_concat_assoc, write_str};
use crate::codegen::{
    extra_info_text, id_text, resource_header_text, write_extra_info, write_id,
    write_resource_header, ResourceKind,
};
use crate::digits::{decimal, signed_decimal, write_decimal, write_signed_decimal};
use crate::id::{Id, IdOrName};
use crate::lang::Lang;
use crate::multilang::{resolve, ExtraInfo, OptionLangSpecific};
use vstd::prelude::*;
use vstd::string::StringSliceAdditionalSpecFns;

verus! {

/// A key named by its ASCII character, which is printable: from 32 to 126.
#[derive(Clone, Copy)]
pub struct ASCIIKey(u8);

impl ASCIIKey {
    #[verifier::type_invariant]
    spec fn printable(self) -> bool {
        32 <= self.0 <= 126
    }

    /// The character of the key.
    pub closed spec fn code(self) -> u8 {
        self.0
    }

    /// The key of the character `v`, which is printable.
    pub fn ascii_key(v: u8) -> (r: ASCIIKey)
        requires
            32 <= v <= 126,
        ensures
            r.code() == v,
    {
        ASCIIKey(v)
    }

    /// The key of the character `v`, if `v` is printable.
    pub fn checked(v: u8) -> (r: Option<ASCIIKey>)
        ensures
            r is Some <==> 32 <= v <= 126,
            r matches Some(key) ==> key.code() == v,
    {
        if 32 <= v && v <= 126 {
            Some(ASCIIKey(v))
        } else {
            None
        }
    }

    /// The character of the key.
    pub fn value(&self) -> (v: u8)
        ensures
            v == self.code(),
            32 <= v <= 126,
    {
        proof {
            use_type_invariant(self);
        }
        self.0
    }
}

/// A key named by its virtual-key code.
#[derive(Clone, Copy, PartialEq, Eq, Debug, Structural)]
pub struct VirtKey(pub i32);

/// The keys held down with a virtual key.
#[derive(Clone, Copy, PartialEq, Eq, Debug, Structural)]
pub enum Modifier {
    Unmodified,
    Ctrl,
    Alt,
    Shift,
    CtrlAlt,
    CtrlShift,
    AltShift,
    CtrlAltShift,
}

/// The keys held down with an ASCII key.
#[derive(Clone, Copy, PartialEq, Eq, Debug, Structural)]
pub enum ASCIIModifier {
    Unmodified,
    Ctrl,
    Alt,
    CtrlAlt,
}

impl Modifier {
    /// The tokens of the modifier, each after a comma.
    pub open spec fn text(self) -> Seq<u8> {
        match self {
            Modifier::Unmodified => "".spec_bytes(),
            Modifier::Ctrl => ", CONTROL".spec_bytes(),
            Modifier::Alt => ", ALT".spec_bytes(),
            Modifier::Shift => ", SHIFT".spec_bytes(),
            Modifier::CtrlAlt => ", CONTROL, ALT".spec_bytes(),
            Modifier::CtrlShift => ", CONTROL, SHIFT".spec_bytes(),
            Modifier::AltShift => ", ALT, SHIFT".spec_bytes(),
            Modifier::CtrlAltShift => ", CONTROL, ALT, SHIFT".spec_bytes(),
        }
    }

    /// The tokens of the modifier, each after a comma.
    pub fn tokens(self) -> (r: &'static str)
        ensures
            r.spec_bytes() == self.text(),
    {
        match self {
            Modifier::Unmodified => "",
            Modifier::Ctrl => ", CONTROL",
            Modifier::Alt => ", ALT",
            Modifier::Shift => ", SHIFT",
            Modifier::CtrlAlt => ", CONTROL, ALT",
            Modifier::CtrlShift => ", CONTROL, SHIFT",
            Modifier::AltShift => ", ALT, SHIFT",
            Modifier::CtrlAltShift => ", CONTROL, ALT, SHIFT",
        }
    }
}

impl ASCIIModifier {
    /// The tokens of the modifier, each after a comma.
    pub open spec fn text(self) -> Seq<u8> {
        match self {
            ASCIIModifier::Unmodified => "".spec_bytes(),
            ASCIIModifier::Ctrl => ", CONTROL".spec_bytes(),
            ASCIIModifier::Alt => ", ALT".spec_bytes(),
            ASCIIModifier::CtrlAlt => ", CONTROL, ALT".spec_bytes(),
        }
    }

    /// The tokens of the modifier, each after a comma.
    pub fn tokens(self) -> (r: &'static str)
        ensures
            r.spec_bytes() == self.text(),
    {
        match self {
            ASCIIModifier::Unmodified => "",
            ASCIIModifier::Ctrl => ", CONTROL",
            ASCIIModifier::Alt => ", ALT",
            ASCIIModifier::CtrlAlt => ", CONTROL, ALT",
        }
    }
}

/// The key of an event, with the keys held down with it.
#[derive(Clone, Copy)]
#[allow(inconsistent_fields)]
pub enum Key {
    ASCII { ascii_key: ASCIIKey, modifier: ASCIIModifier },
    VirtKey { virt_key: VirtKey, modifier: Modifier },
}

/// A key event. The flag `noinvert` is of no use any more; it is kept for
/// scripts that still hold it.
#[derive(Clone, Copy)]
pub struct Event {
    pub key: Key,
    pub noinvert: bool,
}

impl Event {
    /// The event of the virtual key `virt_key` with `modifier`.
    pub fn virt_key_event(virt_key: VirtKey, modifier: Modifier) -> (r: Event)
        ensures
            r == (Event { key: Key::VirtKey { virt_key, modifier }, noinvert: false }),
    {
        Event { key: Key::VirtKey { virt_key, modifier }, noinvert: false }
    }

    /// The event of the ASCII key `ascii_key` with `modifier`.
    pub fn ascii_key_event(ascii_key: ASCIIKey, modifier: ASCIIModifier) -> (r: Event)
        ensures
            r == (Event { key: Key::ASCII { ascii_key, modifier }, noinvert: false }),
    {
        Event { key: Key::ASCII { ascii_key, modifier }, noinvert: false }
    }

    /// The same event with the flag `NOINVERT`, which is of no use any more.
    pub fn noinvert(self) -> (r: Event)
        ensures
            r == (Event { key: self.key, noinvert: true }),
    {
        Event { key: self.key, noinvert: true }
    }
}

/// The line of one event: a tab, the key, the identifier, the kind of key,
/// the modifiers and the flag, separated by commas.
pub open spec fn event_line(id: Id, event: Event) -> Seq<u8> {
    "\t".spec_bytes() + (match event.key {
        Key::ASCII { ascii_key, modifier } => decimal(ascii_key.code() as nat) + ", ".spec_bytes()
            + id_text(id) + ", ASCII".spec_bytes() + modifier.text(),
        Key::VirtKey { virt_key, modifier } => signed_decimal(virt_key.0 as int)
            + ", ".spec_bytes() + id_text(id) + ", VIRTKEY".spec_bytes() + modifier.text(),
    }) + (if event.noinvert {
        ", NOINVERT".spec_bytes()
    } else {
        "".spec_bytes()
    }) + "\n".spec_bytes()
}

/// The lines of a list of events.
pub open spec fn event_lines(events: Seq<(Id, Event)>) -> Seq<u8>
    decreases events.len(),
{
    if events.len() == 0 {
        Seq::empty()
    } else {
        event_lines(events.drop_last()) + event_line(events.last().0, events.last().1)
    }
}

/// Appends the line of one event.
pub fn write_event_line(w: &mut Vec<u8>, id: &Id, event: &Event)
    ensures
        final(w)@ == old(w)@ + event_line(*id, *event),
{
    broadcast use lemma_concat_assoc;

    write_str(w, "\t");
    match event.key {
        Key::ASCII { ascii_key, modifier } => {
            write_decimal(w, ascii_key.value() as u64);
            write_str(w, ", ");
            write_id(w, id);
            write_str(w, ", ASCII");
            write_str(w, modifier.tokens());
        },
        Key::VirtKey { virt_key, modifier } => {
            write_signed_decimal(w, virt_key.0 as i64);
            write_str(w, ", ");
            write_id(w, id);
            write_str(w, ", VIRTKEY");
            write_str(w, modifier.tokens());
        },
    }
    if event.noinvert {
        write_str(w, ", NOINVERT");
    } else {
        write_str(w, "");
    }
    write_str(w, "\n");
}

/// What an accelerator table holds for one language, or for every language.
pub struct AcceleratorsItems {
    pub extra_info: Option<ExtraInfo>,
    pub events: Vec<(Id, Event)>,
}

/// An accelerator table: its items per language. What is declared for a
/// language stands in place of what is declared for every language.
pub struct AcceleratorsData(pub OptionLangSpecific<AcceleratorsItems>);

/// The block of an accelerator table: its lines between braces.
pub open spec fn accelerators_body(items: AcceleratorsItems) -> Seq<u8> {
    "{\n".spec_bytes() + event_lines(items.events@) + "}\n".spec_bytes()
}

impl AcceleratorsItems {
    /// Items that hold nothing.
    pub fn new() -> (r: AcceleratorsItems)
        ensures
            r.extra_info is None,
            r.events@ == Seq::<(Id, Event)>::empty(),
    {
        AcceleratorsItems { extra_info: None, events: Vec::new() }
    }
}

impl AcceleratorsData {
    /// The items that the language `l` sees.
    pub open spec fn items_for(self, l: Lang) -> Option<AcceleratorsItems> {
        resolve(self.0@, l)
    }

    /// The whole of the table as the language `l` sees it: nothing where no
    /// items are declared for it, else the header, the extra numbers and the
    /// block.
    pub open spec fn script_segment(self, l: Lang, id_or_name: IdOrName) -> Seq<u8> {
        match self.items_for(l) {
            None => Seq::empty(),
            Some(items) => resource_header_text(l, id_or_name, ResourceKind::Accelerators)
                + extra_info_text(items.extra_info) + "\n".spec_bytes() + accelerators_body(items),
        }
    }

    /// The events declared under `key`, none where nothing is declared
    /// under it.
    pub open spec fn events_under(self, key: Option<Lang>) -> Seq<(Id, Event)> {
        if self.0@.contains_key(key) {
            self.0@[key].events@
        } else {
            Seq::empty()
        }
    }

    /// The extra numbers declared under `key`.
    pub open spec fn extra_info_under(self, key: Option<Lang>) -> Option<ExtraInfo> {
        if self.0@.contains_key(key) {
            self.0@[key].extra_info
        } else {
            None
        }
    }

    /// Whether `self` is `before` but for what is declared under `key`.
    pub open spec fn differs_under(self, before: AcceleratorsData, key: Option<Lang>) -> bool {
        &&& self.0@.dom() == before.0@.dom().insert(key)
        &&& forall|k: Option<Lang>| k != key && before.0@.contains_key(k) ==> self.0@[k] == before.0@[k]
    }

    /// Whether nothing is declared in the table.
    pub open spec fn is_new(self) -> bool {
        self.0@ == Map::<Option<Lang>, AcceleratorsItems>::empty()
    }

    /// A table in which nothing is declared.
    pub fn new() -> (r: AcceleratorsData)
        ensures
            r.is_new(),
    {
        AcceleratorsData(OptionLangSpecific::new())
    }

    /// Whether nothing is declared that the language `l` sees.
    pub fn is_missing_for_lang(&self, l: Lang) -> (r: bool)
        ensures
            r == (self.items_for(l) is None),
    {
        self.0.get(l).is_none()
    }

    /// Appends the extra numbers that follow the header.
    pub fn write_resource_header_extras(&self, w: &mut Vec<u8>, l: Lang)
        requires
            self.items_for(l) is Some,
        ensures
            final(w)@ == old(w)@ + extra_info_text(self.items_for(l)->0.extra_info),
    {
        match self.0.get(l) {
            Some(items) => write_extra_info(w, items.extra_info.as_ref()),
            None => {},
        }
    }

    /// Appends the block of the table.
    pub fn write_resource_segment(&self, w: &mut Vec<u8>, l: Lang)
        requires
            self.items_for(l) is Some,
        ensures
            final(w)@ == old(w)@ + accelerators_body(self.items_for(l)->0),
    {
        match self.0.get(l) {
            Some(items) => {
                let ghost start = w@;
                write_str(w, "{\n");
                let mut i: usize = 0;
                while i < items.events.len()
                    invariant
                        i <= items.events@.len(),
                        w@ == start + "{\n".spec_bytes() + event_lines(items.events@.take(i as int)),
                    decreases items.events@.len() - i,
                {
                    proof {
                        assert(items.events@.take(i + 1).drop_last() =~= items.events@.take(
                            i as int,
                        ));
                    }
                    write_event_line(w, &items.events[i].0, &items.events[i].1);
                    i += 1;
                }
                proof {
                    assert(items.events@.take(i as int) =~= items.events@);
                }
                write_str(w, "}\n");
            },
            None => {},
        }
    }

    /// Appends the whole of the table as the language `l` sees it.
    pub fn write_script_segment(&self, w: &mut Vec<u8>, l: Lang, id_or_name: &IdOrName)
        ensures
            final(w)@ == old(w)@ + self.script_segment(l, *id_or_name),
    {
        if self.is_missing_for_lang(l) {
            return ;
        }
        let _ = write_resource_header(w, l, id_or_name, ResourceKind::Accelerators);
        self.write_resource_header_extras(w, l);
        write_str(w, "\n");
        self.write_resource_segment(w, l);
    }
}

/// Builds an accelerator table, declaration by declaration.
pub struct AcceleratorsBuilder(AcceleratorsData);

impl View for AcceleratorsBuilder {
    type V = AcceleratorsData;

    closed spec fn view(&self) -> AcceleratorsData {
        self.0
    }
}

impl AcceleratorsBuilder {
    /// The builder of a table in which nothing is declared yet.
    pub fn new() -> (r: AcceleratorsBuilder)
        ensures
            r@.is_new(),
    {
        AcceleratorsBuilder(AcceleratorsData::new())
    }

    /// The table that was built.
    pub fn into_data(self) -> (r: AcceleratorsData)
        ensures
            r == self@,
    {
        self.0
    }

    fn add_event(self, key: Option<Lang>, id: Id, event: Event) -> (r: AcceleratorsBuilder)
        ensures
            r@.differs_under(self@, key),
            r@.events_under(key) == self@.events_under(key).push((id, event)),
            r@.extra_info_under(key) == self@.extra_info_under(key),
    {
        let mut data = self.0;
        let mut items = match data.0.take(key) {
            Some(items) => items,
            None => AcceleratorsItems::new(),
        };
        items.events.push((id, event));
        match key {
            Some(lang) => data.0.insert_lang_specific(lang, items),
            None => data.0.insert_universal(items),
        }
        assert(data.0@.dom() =~= self.0.0@.dom().insert(key));
        AcceleratorsBuilder(data)
    }

    fn set_extra_info(self, key: Option<Lang>, info: ExtraInfo) -> (r: AcceleratorsBuilder)
        ensures
            r@.differs_under(self@, key),
            r@.events_under(key) == self@.events_under(key),
            r@.extra_info_under(key) == Some(info),
    {
        let mut data = self.0;
        let mut items = match data.0.take(key) {
            Some(items) => items,
            None => AcceleratorsItems::new(),
        };
        items.extra_info = Some(info);
        match key {
            Some(lang) => data.0.insert_lang_specific(lang, items),
            None => data.0.insert_universal(items),
        }
        assert(data.0@.dom() =~= self.0.0@.dom().insert(key));
        AcceleratorsBuilder(data)
    }

    /// Declares the event `event` under `id` for every language.
    pub fn event(self, id: Id, event: Event) -> (r: AcceleratorsBuilder)
        ensures
            r@.differs_under(self@, None),
            r@.events_under(None) == self@.events_under(None).push((id, event)),
            r@.extra_info_under(None) == self@.extra_info_under(None),
    {
        self.add_event(None, id, event)
    }

    /// Declares the event `event` under `id` for the language `lang`.
    pub fn lang_specific_event(self, lang: Lang, id: Id, event: Event) -> (r: AcceleratorsBuilder)
        ensures
            r@.differs_under(self@, Some(lang)),
            r@.events_under(Some(lang)) == self@.events_under(Some(lang)).push((id, event)),
            r@.extra_info_under(Some(lang)) == self@.extra_info_under(Some(lang)),
    {
        self.add_event(Some(lang), id, event)
    }

    /// Declares the extra numbers for every language.
    pub fn extra_info(self, characteristics: Option<u32>, version: Option<u32>) -> (r:
        AcceleratorsBuilder)
        ensures
            r@.differs_under(self@, None),
            r@.events_under(None) == self@.events_under(None),
            r@.extra_info_under(None) == Some(ExtraInfo { characteristics, version }),
    {
        self.set_extra_info(None, ExtraInfo { characteristics, version })
    }

    /// Declares the extra numbers for the language `lang`.
    pub fn lang_specific_extra_info(
        self,
        lang: Lang,
        characteristics: Option<u32>,
        version: Option<u32>,
    ) -> (r: AcceleratorsBuilder)
        ensures
            r@.differs_under(self@, Some(lang)),
            r@.events_under(Some(lang)) == self@.events_under(Some(lang)),
            r@.extra_info_under(Some(lang)) == Some(ExtraInfo { characteristics, version }),
    {
        self.set_extra_info(Some(lang), ExtraInfo { characteristics, version })
    }
}

} // verus!
