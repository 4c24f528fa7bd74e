//! Dialogs: a window with its styles, caption and font, and the controls
//! that stand in it.
//!
//! The rectangle, the caption and the font of a dialog are single values
//! per language: what is declared for a language stands in place of what is
//! declared for every language. The controls are a list per language: a
//! language sees the controls declared for every language and its own, in
//! the order of declaration.

pub mod builder;
pub mod controls;
pub mod dialog_style;
pub mod static_control_content_type;
pub mod static_control_style;
pub mod window_ex_style;
pub mod window_style;

pub use crate::dialog::builder::DialogBuilder;
pub use crate::dialog::controls::{
    ButtonControl, ButtonControlStyle, ButtonControlTemplate, ComboBoxControl,
    ComboBoxControlStyle, ComboBoxControlTemplate, ControlTemplateTrait, ControlTrait,
    EditControl, EditControlStyle, EditControlTemplate, ListBoxControl, ListBoxControlStyle,
    ListBoxControlTemplate, ScrollBarControl, ScrollBarControlStyle, ScrollBarControlTemplate,
    StaticControl, StaticControlStyle, StaticControlTemplate,
};

use crate::bytes::{lemma_concat_assoc, write_str};
use crate::codegen::{
    c_numeric_text, dword_text, extra_info_text, font_text, id_or_name_text, id_text,
    mandatory_rect_text, resource_header_text, separator_text, style_and_exstyle_text,
    write_c_int, write_dword, write_extra_info, write_font, write_id, write_id_or_name,
    write_mandatory_dword, write_mandatory_rect, write_resource_header, write_separator,
    write_style_and_exstyle_statements, ResourceKind,
};
use crate::escape::{narrow_str_text, write_mandatory_narrow_str, write_narrow_str};
use crate::font::Font;
use crate::id::{Id, IdOrName};
use crate::lang::Lang;
use crate::multilang::{resolve, selection, ExtraInfo, OptionLangSpecific, VecLangSpecific};
use crate::rect::Rect;
use vstd::prelude::*;
use vstd::std_specs::convert::FromSpecImpl;
use vstd::std_specs::ops::BitOrSpecImpl;
use vstd::string::StringSliceAdditionalSpecFns;
use vstd::utf8::encode_utf8;

verus! {

/// The styles of a window: the basic style bits and the extended style
/// bits, each absent where none of its bits was ever named.
#[derive(Clone, Copy, PartialEq, Eq, Debug, Structural)]
pub struct WindowStyle(pub Option<u32>, pub Option<u32>);

/// The bits of either operand: absent where both are.
pub open spec fn option_bits_or(a: Option<u32>, b: Option<u32>) -> Option<u32> {
    match (a, b) {
        (Some(a), Some(b)) => Some(a | b),
        (Some(a), None) => Some(a),
        (None, Some(b)) => Some(b),
        (None, None) => None,
    }
}

/// The bits of either operand: absent where both are.
pub fn option_dword_bitor(a: Option<u32>, b: Option<u32>) -> (r: Option<u32>)
    ensures
        r == option_bits_or(a, b),
{
    match (a, b) {
        (Some(a), Some(b)) => Some(a | b),
        (Some(a), None) => Some(a),
        (None, Some(b)) => Some(b),
        (None, None) => None,
    }
}

impl WindowStyle {
    /// The styles of either operand.
    pub open spec fn union(self, rhs: WindowStyle) -> WindowStyle {
        WindowStyle(option_bits_or(self.0, rhs.0), option_bits_or(self.1, rhs.1))
    }

    /// No style at all.
    pub open spec fn none() -> WindowStyle {
        WindowStyle(None, None)
    }
}

impl Default for WindowStyle {
    fn default() -> (r: WindowStyle)
        ensures
            r == WindowStyle::none(),
    {
        WindowStyle(None, None)
    }
}

impl std::ops::BitOr for WindowStyle {
    type Output = WindowStyle;

    fn bitor(self, rhs: WindowStyle) -> (r: WindowStyle) {
        WindowStyle(option_dword_bitor(self.0, rhs.0), option_dword_bitor(self.1, rhs.1))
    }
}

impl BitOrSpecImpl for WindowStyle {
    open spec fn obeys_bitor_spec() -> bool {
        true
    }

    open spec fn bitor_req(self, rhs: WindowStyle) -> bool {
        true
    }

    open spec fn bitor_spec(self, rhs: WindowStyle) -> WindowStyle {
        self.union(rhs)
    }
}

/// The styles of a dialog.
#[derive(Clone, Copy, PartialEq, Eq, Debug, Structural)]
pub struct DialogStyle(pub WindowStyle);

/// The styles of a control.
#[derive(Clone, Copy, PartialEq, Eq, Debug, Structural)]
pub struct ControlStyle(pub WindowStyle);

impl Default for DialogStyle {
    fn default() -> (r: DialogStyle)
        ensures
            r == DialogStyle(WindowStyle::none()),
    {
        DialogStyle(WindowStyle(None, None))
    }
}

impl Default for ControlStyle {
    fn default() -> (r: ControlStyle)
        ensures
            r == ControlStyle(WindowStyle::none()),
    {
        ControlStyle(WindowStyle(None, None))
    }
}

impl From<WindowStyle> for DialogStyle {
    fn from(v: WindowStyle) -> (r: DialogStyle) {
        DialogStyle(v)
    }
}

impl FromSpecImpl<WindowStyle> for DialogStyle {
    open spec fn obeys_from_spec() -> bool {
        true
    }

    open spec fn from_spec(v: WindowStyle) -> DialogStyle {
        DialogStyle(v)
    }
}

impl std::ops::BitOr for DialogStyle {
    type Output = DialogStyle;

    fn bitor(self, rhs: DialogStyle) -> (r: DialogStyle) {
        DialogStyle(self.0 | rhs.0)
    }
}

impl BitOrSpecImpl for DialogStyle {
    open spec fn obeys_bitor_spec() -> bool {
        true
    }

    open spec fn bitor_req(self, rhs: DialogStyle) -> bool {
        true
    }

    open spec fn bitor_spec(self, rhs: DialogStyle) -> DialogStyle {
        DialogStyle(self.0.union(rhs.0))
    }
}

impl From<WindowStyle> for ControlStyle {
    fn from(v: WindowStyle) -> (r: ControlStyle) {
        ControlStyle(v)
    }
}

impl FromSpecImpl<WindowStyle> for ControlStyle {
    open spec fn obeys_from_spec() -> bool {
        true
    }

    open spec fn from_spec(v: WindowStyle) -> ControlStyle {
        ControlStyle(v)
    }
}

impl std::ops::BitOr for ControlStyle {
    type Output = ControlStyle;

    fn bitor(self, rhs: ControlStyle) -> (r: ControlStyle) {
        ControlStyle(self.0 | rhs.0)
    }
}

impl BitOrSpecImpl for ControlStyle {
    open spec fn obeys_bitor_spec() -> bool {
        true
    }

    open spec fn bitor_req(self, rhs: ControlStyle) -> bool {
        true
    }

    open spec fn bitor_spec(self, rhs: ControlStyle) -> ControlStyle {
        ControlStyle(self.0.union(rhs.0))
    }
}

/// What a static control shows.
#[derive(Clone, Copy, PartialEq, Eq, Debug, Structural)]
pub struct StaticControlContentType(pub u32);

/// What a control shows: a text per language, or the resource with an
/// identifier.
pub enum IdOrLangSpecificStr {
    LangSpecificStr(OptionLangSpecific<String>),
    Id(Option<Id>),
}

/// The statement that a control is written with: its keyword, whether it
/// has a text, whether it has a size, and the window class that the
/// keyword stands for. A statement without such a class names the class
/// and the style of each control itself.
#[derive(Clone, Copy)]
pub struct ControlTemplate {
    pub name: &'static str,
    pub use_text: bool,
    pub use_size: bool,
    pub use_keyword: Option<&'static str>,
}

/// The statement of a control that has none of its own: `CONTROL`, which
/// names class and style itself.
pub open spec fn generic_template() -> ControlTemplate {
    ControlTemplate { name: "CONTROL", use_text: true, use_size: true, use_keyword: None }
}

/// A control of a dialog.
pub struct Control {
    pub template: Option<ControlTemplate>,
    pub text_or_image: Option<IdOrLangSpecificStr>,
    pub rect: Option<Rect>,
    pub class: Option<String>,
    pub style: Option<ControlStyle>,
}

impl Control {
    /// The statement that the control is written with.
    pub open spec fn effective_template(self) -> ControlTemplate {
        match self.template {
            Some(t) => t,
            None => generic_template(),
        }
    }

    /// The styles of the control.
    pub open spec fn window_style(self) -> WindowStyle {
        match self.style {
            Some(s) => s.0,
            None => WindowStyle::none(),
        }
    }

    /// Whether the control can be written: one whose statement names the
    /// style itself has basic style bits.
    pub open spec fn renderable(self) -> bool {
        self.effective_template().use_keyword is None ==> self.window_style().0 is Some
    }

    /// A control as its statement makes it, with nothing set.
    pub open spec fn fresh(template: ControlTemplate) -> Control {
        Control { template: Some(template), text_or_image: None, rect: None, class: None, style: None }
    }

    /// The text of the control for the language `lang`.
    pub open spec fn text_for(self, lang: Lang) -> Seq<char> {
        match self.text_or_image {
            Some(IdOrLangSpecificStr::LangSpecificStr(texts)) => match resolve(texts@, lang) {
                Some(s) => s@,
                None => Seq::empty(),
            },
            _ => Seq::empty(),
        }
    }

    /// What stands for the text of the control, and the comma after it:
    /// nothing where the statement has no text, the identifier of a
    /// resource where the control shows one (the reserved identifier where
    /// none was given), else the text for the language.
    pub open spec fn text_part(self, lang: Lang) -> Seq<u8> {
        if self.effective_template().use_text {
            (match self.text_or_image {
                Some(IdOrLangSpecificStr::Id(id)) => id_text(
                    match id {
                        Some(id) => id,
                        None => Id(0xFFFF),
                    },
                ),
                _ => narrow_str_text(encode_utf8(self.text_for(lang))),
            }) + ", ".spec_bytes()
        } else {
            Seq::empty()
        }
    }

    /// The class and the style, for a statement that names them itself.
    pub open spec fn class_part(self) -> Seq<u8> {
        if self.effective_template().use_keyword is None {
            ", ".spec_bytes() + narrow_str_text(
                encode_utf8(
                    match self.class {
                        Some(class) => class@,
                        None => Seq::empty(),
                    },
                ),
            ) + ", ".spec_bytes() + dword_text(self.window_style().0->0)
        } else {
            Seq::empty()
        }
    }

    /// The styles after the rectangle. A statement that stands for a class
    /// has the basic style here, after a comma that is there as soon as
    /// either style is; the extended style follows after a comma of its
    /// own.
    pub open spec fn style_part(self) -> Seq<u8> {
        let style = self.window_style();
        (if self.effective_template().use_keyword is Some {
            separator_text(style.0 is Some || style.1 is Some) + (match style.0 {
                Some(basic) => dword_text(basic),
                None => Seq::empty(),
            })
        } else {
            Seq::empty()
        }) + (match style.1 {
            Some(extended) => ", ".spec_bytes() + dword_text(extended),
            None => Seq::empty(),
        })
    }
}

/// The line of a control for the language `lang`: a tab, the keyword of
/// its statement, its text, its identifier, class and style where the
/// statement names them, its rectangle, and its styles.
pub open spec fn control_line(id: Id, control: Control, lang: Lang) -> Seq<u8> {
    "\t".spec_bytes() + control.effective_template().name.spec_bytes() + " ".spec_bytes()
        + control.text_part(lang) + id_text(id) + control.class_part() + ", ".spec_bytes()
        + mandatory_rect_text(control.rect) + control.style_part() + "\n".spec_bytes()
}

/// The lines of a list of controls.
pub open spec fn control_lines(controls: Seq<(Id, Control)>, lang: Lang) -> Seq<u8>
    decreases controls.len(),
{
    if controls.len() == 0 {
        Seq::empty()
    } else {
        control_lines(controls.drop_last(), lang) + control_line(
            controls.last().0,
            controls.last().1,
            lang,
        )
    }
}

fn write_control_text_part(w: &mut Vec<u8>, control: &Control, template: &ControlTemplate, lang: Lang)
    requires
        *template == control.effective_template(),
    ensures
        final(w)@ == old(w)@ + control.text_part(lang),
{
    if template.use_text {
        match &control.text_or_image {
            Some(IdOrLangSpecificStr::Id(text_or_image_id)) => {
                match text_or_image_id {
                    Some(id) => write_id(w, id),
                    None => write_id(w, &Id(0xFFFF)),
                }
            },
            Some(IdOrLangSpecificStr::LangSpecificStr(lang_specific_str)) => {
                match lang_specific_str.get(lang) {
                    Some(text) => write_mandatory_narrow_str(w, Some(text.as_str())),
                    None => write_mandatory_narrow_str(w, None),
                }
            },
            None => write_mandatory_narrow_str(w, None),
        }
        write_str(w, ", ");
    }
}

fn write_control_class_part(w: &mut Vec<u8>, control: &Control, template: &ControlTemplate)
    requires
        *template == control.effective_template(),
        control.renderable(),
    ensures
        final(w)@ == old(w)@ + control.class_part(),
{
    if template.use_keyword.is_none() {
        write_str(w, ", ");
        match &control.class {
            Some(class) => write_mandatory_narrow_str(w, Some(class.as_str())),
            None => write_mandatory_narrow_str(w, None),
        }
        write_str(w, ", ");
        let style = match control.style {
            Some(s) => s.0,
            None => WindowStyle(None, None),
        };
        write_mandatory_dword(w, style.0.as_ref());
    }
}

fn write_control_style_part(w: &mut Vec<u8>, control: &Control, template: &ControlTemplate)
    requires
        *template == control.effective_template(),
    ensures
        final(w)@ == old(w)@ + control.style_part(),
{
    let style = match control.style {
        Some(s) => s.0,
        None => WindowStyle(None, None),
    };
    broadcast use lemma_concat_assoc;

    let ghost start = w@;
    if template.use_keyword.is_some() {
        let anything_left_to_output = style.1.is_some();
        write_separator(w, style.0.is_some() || anything_left_to_output);
        if let Some(basic_style) = style.0 {
            write_dword(w, basic_style);
        }
    }
    let ghost middle = w@;
    assert(middle =~= start + (if control.effective_template().use_keyword is Some {
        separator_text(style.0 is Some || style.1 is Some) + (match style.0 {
            Some(basic) => dword_text(basic),
            None => Seq::empty(),
        })
    } else {
        Seq::empty()
    }));
    if let Some(extend_style) = style.1 {
        write_str(w, ", ");
        write_dword(w, extend_style);
    }
    assert(w@ =~= middle + (match style.1 {
        Some(extended) => ", ".spec_bytes() + dword_text(extended),
        None => Seq::empty(),
    }));
}

/// Appends the line of a control for the language `lang`.
pub fn write_control_line(w: &mut Vec<u8>, id: &Id, control: &Control, lang: Lang)
    requires
        control.renderable(),
    ensures
        final(w)@ == old(w)@ + control_line(*id, *control, lang),
{
    broadcast use lemma_concat_assoc;

    let default_template = ControlTemplate {
        name: "CONTROL",
        use_text: true,
        use_size: true,
        use_keyword: None,
    };
    let template = match &control.template {
        Some(t) => t,
        None => &default_template,
    };
    write_str(w, "\t");
    write_str(w, template.name);
    write_str(w, " ");
    write_control_text_part(w, control, template, lang);
    write_id(w, id);
    write_control_class_part(w, control, template);
    write_str(w, ", ");
    write_mandatory_rect(w, control.rect.as_ref());
    write_control_style_part(w, control, template);
    write_str(w, "\n");
}

/// A dialog.
pub struct DialogData {
    pub rect: OptionLangSpecific<Rect>,
    pub help_id: OptionLangSpecific<i32>,
    pub extra_info: OptionLangSpecific<ExtraInfo>,
    pub caption: OptionLangSpecific<String>,
    pub class: Option<IdOrName>,
    pub style: Option<DialogStyle>,
    pub font: OptionLangSpecific<Font>,
    pub menu: Option<IdOrName>,
    pub controls: VecLangSpecific<(Id, Control)>,
}

impl DialogData {
    /// Whether every control of the dialog can be written.
    pub open spec fn renderable(self) -> bool {
        forall|i: int| 0 <= i < self.controls@.len() ==> (#[trigger] self.controls@[i]).1.1.renderable()
    }

    /// The controls that the language `lang` sees.
    pub open spec fn controls_for(self, lang: Lang) -> Seq<(Id, Control)> {
        selection(self.controls@, lang)
    }

    /// The rectangle of the dialog and its help identifier, after a space.
    pub open spec fn placement_text(self, lang: Lang) -> Seq<u8> {
        " ".spec_bytes() + mandatory_rect_text(resolve(self.rect@, lang)) + (match resolve(
            self.help_id@,
            lang,
        ) {
            Some(help_id) => ", ".spec_bytes() + c_numeric_text(help_id as int, 4),
            None => Seq::empty(),
        }) + extra_info_text(resolve(self.extra_info@, lang))
    }

    /// The statements for caption, class, font and menu, each on a line of
    /// its own and only where the dialog has one.
    pub open spec fn statements_text(self, lang: Lang) -> Seq<u8> {
        (match resolve(self.caption@, lang) {
            Some(caption) => "\nCAPTION ".spec_bytes() + narrow_str_text(encode_utf8(caption@)),
            None => Seq::empty(),
        }) + (match self.class {
            Some(class) => "\nCLASS ".spec_bytes() + id_or_name_text(class),
            None => Seq::empty(),
        }) + (match resolve(self.font@, lang) {
            Some(font) => "\nFONT ".spec_bytes() + font_text(font),
            None => Seq::empty(),
        }) + (match self.menu {
            Some(menu) => "\nMENU ".spec_bytes() + id_or_name_text(menu),
            None => Seq::empty(),
        })
    }

    /// The statement for the styles of the dialog.
    pub open spec fn style_text(self) -> Seq<u8> {
        match self.style {
            Some(style) => style_and_exstyle_text(style.0.0, style.0.1),
            None => Seq::empty(),
        }
    }

    /// All that follows the header of the dialog: rectangle, help
    /// identifier, extra numbers, and the statements for caption, class,
    /// font, menu and styles, in this order.
    pub open spec fn header_extras_text(self, lang: Lang) -> Seq<u8> {
        self.placement_text(lang) + self.statements_text(lang) + self.style_text()
    }

    /// The block of the dialog: the lines of the controls that the language
    /// sees, between braces.
    pub open spec fn body_text(self, lang: Lang) -> Seq<u8> {
        "{\n".spec_bytes() + control_lines(self.controls_for(lang), lang) + "}\n".spec_bytes()
    }

    /// The whole of the dialog as the language `l` sees it.
    pub open spec fn script_segment(self, l: Lang, id_or_name: IdOrName) -> Seq<u8> {
        resource_header_text(l, id_or_name, ResourceKind::Dialog) + self.header_extras_text(l)
            + "\n".spec_bytes() + self.body_text(l)
    }

    /// Whether nothing is declared.
    pub open spec fn is_new(self) -> bool {
        &&& self.rect@ == Map::<Option<Lang>, Rect>::empty()
        &&& self.help_id@ == Map::<Option<Lang>, i32>::empty()
        &&& self.extra_info@ == Map::<Option<Lang>, ExtraInfo>::empty()
        &&& self.caption@ == Map::<Option<Lang>, String>::empty()
        &&& self.class is None
        &&& self.style is None
        &&& self.font@ == Map::<Option<Lang>, Font>::empty()
        &&& self.menu is None
        &&& self.controls@ == Seq::<(Option<Lang>, (Id, Control))>::empty()
    }

    /// A dialog with nothing declared.
    pub fn new() -> (r: DialogData)
        ensures
            r.is_new(),
    {
        DialogData {
            rect: OptionLangSpecific::new(),
            help_id: OptionLangSpecific::new(),
            extra_info: OptionLangSpecific::new(),
            caption: OptionLangSpecific::new(),
            class: None,
            style: None,
            font: OptionLangSpecific::new(),
            menu: None,
            controls: VecLangSpecific::new(),
        }
    }

    /// Whether nothing is declared that the language sees. A dialog is
    /// there for every language.
    pub fn is_missing_for_lang(&self, l: Lang) -> (r: bool)
        ensures
            !r,
    {
        false
    }

    fn write_placement(&self, w: &mut Vec<u8>, lang: Lang)
        ensures
            final(w)@ == old(w)@ + self.placement_text(lang),
    {
        broadcast use lemma_concat_assoc;

        let ghost start = w@;
        write_str(w, " ");
        write_mandatory_rect(w, self.rect.get(lang));
        let ghost after_rect = w@;
        assert(after_rect == start + (" ".spec_bytes() + mandatory_rect_text(
            resolve(self.rect@, lang),
        )));
        if let Some(help_id) = self.help_id.get(lang) {
            write_str(w, ", ");
            write_c_int(w, *help_id);
        }
        let ghost after_help = w@;
        assert(after_help =~= after_rect + (match resolve(self.help_id@, lang) {
            Some(help_id) => ", ".spec_bytes() + c_numeric_text(help_id as int, 4),
            None => Seq::empty(),
        }));
        write_extra_info(w, self.extra_info.get(lang));
        assert(w@ == after_help + extra_info_text(resolve(self.extra_info@, lang)));
    }

    fn write_statements(&self, w: &mut Vec<u8>, lang: Lang)
        ensures
            final(w)@ == old(w)@ + self.statements_text(lang),
    {
        broadcast use lemma_concat_assoc;

        let ghost start = w@;
        if let Some(caption) = self.caption.get(lang) {
            write_str(w, "\nCAPTION ");
            write_narrow_str(w, caption.as_str());
        }
        let ghost after_caption = w@;
        assert(after_caption =~= start + (match resolve(self.caption@, lang) {
            Some(caption) => "\nCAPTION ".spec_bytes() + narrow_str_text(encode_utf8(caption@)),
            None => Seq::empty(),
        }));
        if let Some(class) = &self.class {
            write_str(w, "\nCLASS ");
            write_id_or_name(w, class);
        }
        let ghost after_class = w@;
        assert(after_class =~= after_caption + (match self.class {
            Some(class) => "\nCLASS ".spec_bytes() + id_or_name_text(class),
            None => Seq::empty(),
        }));
        if let Some(font) = self.font.get(lang) {
            write_str(w, "\nFONT ");
            write_font(w, font);
        }
        let ghost after_font = w@;
        assert(after_font =~= after_class + (match resolve(self.font@, lang) {
            Some(font) => "\nFONT ".spec_bytes() + font_text(font),
            None => Seq::empty(),
        }));
        if let Some(menu) = &self.menu {
            write_str(w, "\nMENU ");
            write_id_or_name(w, menu);
        }
        assert(w@ =~= after_font + (match self.menu {
            Some(menu) => "\nMENU ".spec_bytes() + id_or_name_text(menu),
            None => Seq::empty(),
        }));
    }

    /// Appends all that follows the header of the dialog.
    pub fn write_resource_header_extras(&self, w: &mut Vec<u8>, lang: Lang)
        ensures
            final(w)@ == old(w)@ + self.header_extras_text(lang),
    {
        self.write_placement(w, lang);
        self.write_statements(w, lang);
        if let Some(style) = self.style {
            write_style_and_exstyle_statements(w, style.0.0, style.0.1);
        }
    }

    /// Appends the block of the dialog.
    pub fn write_resource_segment(&self, w: &mut Vec<u8>, lang: Lang)
        requires
            self.renderable(),
        ensures
            final(w)@ == old(w)@ + self.body_text(lang),
    {
        let ghost start = w@;
        write_str(w, "{\n");
        let controls = self.controls.iter(lang);
        let ghost seen = self.controls_for(lang);
        proof {
            lemma_selection_renderable(self.controls@, lang);
        }
        let mut i: usize = 0;
        while i < controls.len()
            invariant
                i <= controls@.len(),
                controls@.len() == seen.len(),
                forall|k: int| 0 <= k < controls@.len() ==> *(#[trigger] controls@[k]) == seen[k],
                forall|k: int| 0 <= k < seen.len() ==> (#[trigger] seen[k]).1.renderable(),
                w@ == start + "{\n".spec_bytes() + control_lines(seen.take(i as int), lang),
            decreases controls@.len() - i,
        {
            proof {
                assert(seen.take(i + 1).drop_last() =~= seen.take(i as int));
                assert(seen.take(i + 1).last() == seen[i as int]);
            }
            let entry = controls[i];
            write_control_line(w, &entry.0, &entry.1, lang);
            i += 1;
        }
        proof {
            assert(seen.take(i as int) =~= seen);
        }
        write_str(w, "}\n");
    }

    /// Appends the whole of the dialog as the language `l` sees it.
    pub fn write_script_segment(&self, w: &mut Vec<u8>, l: Lang, id_or_name: &IdOrName)
        requires
            self.renderable(),
        ensures
            final(w)@ == old(w)@ + self.script_segment(l, *id_or_name),
    {
        let _ = write_resource_header(w, l, id_or_name, ResourceKind::Dialog);
        self.write_resource_header_extras(w, l);
        write_str(w, "\n");
        self.write_resource_segment(w, l);
    }
}

/// What a language sees of a list of controls that can all be written can
/// all be written.
pub proof fn lemma_selection_renderable(controls: Seq<(Option<Lang>, (Id, Control))>, lang: Lang)
    requires
        forall|i: int| 0 <= i < controls.len() ==> (#[trigger] controls[i]).1.1.renderable(),
    ensures
        forall|k: int|
            0 <= k < selection(controls, lang).len() ==> (#[trigger] selection(
                controls,
                lang,
            )[k]).1.renderable(),
    decreases controls.len(),
{
    if controls.len() > 0 {
        let front = controls.drop_last();
        assert forall|i: int| 0 <= i < front.len() implies (#[trigger] front[i]).1.1.renderable() by {
            assert(front[i] == controls[i]);
        }
        lemma_selection_renderable(front, lang);
        let last = controls[controls.len() - 1];
        assert(controls.last() == last);
        assert(last.1.1.renderable());
        let seen = selection(controls, lang);
        assert forall|k: int| 0 <= k < seen.len() implies (#[trigger] seen[k]).1.renderable() by {
            if k < selection(front, lang).len() {
                assert(seen[k] == selection(front, lang)[k]);
            } else {
                assert(seen[k] == last.1);
            }
        }
    }
}

} // verus!
