//! Building a dialog, declaration by declaration.

use crate::dialog::controls::ControlTrait;
use crate::dialog::{window_style, DialogData, DialogStyle, WindowStyle};
use crate::font::{Font, FontCharset, FontItalic, FontSize, FontWeight};
use crate::id::Id;
use crate::lang::Lang;
use crate::multilang::MultiLangText;
use crate::rect::Rect;
use vstd::prelude::*;

verus! {

impl DialogData {
    /// The styles of the dialog.
    pub open spec fn window_style(self) -> WindowStyle {
        match self.style {
            Some(s) => s.0,
            None => WindowStyle::none(),
        }
    }

    /// Whether `self` is `before` in every field but those named: each flag
    /// says whether the field of its name may differ.
    pub open spec fn unchanged_except(
        self,
        before: DialogData,
        rect: bool,
        caption: bool,
        style: bool,
        font: bool,
        controls: bool,
    ) -> bool {
        &&& self.help_id == before.help_id
        &&& self.extra_info == before.extra_info
        &&& self.class == before.class
        &&& self.menu == before.menu
        &&& rect || self.rect == before.rect
        &&& caption || self.caption == before.caption
        &&& style || self.style == before.style
        &&& font || self.font == before.font
        &&& controls || self.controls == before.controls
    }

    fn add_style(&mut self, style: DialogStyle)
        ensures
            final(self).style == Some(DialogStyle(old(self).window_style().union(style.0))),
            final(self).unchanged_except(*old(self), false, false, true, false, false),
    {
        let old_style = match self.style {
            Some(s) => s,
            None => DialogStyle(WindowStyle(None, None)),
        };
        self.style = Some(old_style | style);
    }
}

/// Builds a dialog.
pub struct DialogBuilder(DialogData);

impl View for DialogBuilder {
    type V = DialogData;

    closed spec fn view(&self) -> DialogData {
        self.0
    }
}

impl DialogBuilder {
    #[verifier::type_invariant]
    spec fn controls_renderable(self) -> bool {
        self.0.renderable()
    }

    /// The builder of a dialog with nothing declared.
    pub fn new() -> (r: DialogBuilder)
        ensures
            r@.is_new(),
    {
        DialogBuilder(DialogData::new())
    }

    /// The dialog that was built, which can be written.
    pub fn into_data(self) -> (r: DialogData)
        ensures
            r == self@,
            r.renderable(),
    {
        proof {
            use_type_invariant(&self);
        }
        self.0
    }

    /// Gives the dialog a system menu.
    pub fn system_menu(self) -> (r: DialogBuilder)
        ensures
            r@.style == Some(
                DialogStyle(self@.window_style().union(WindowStyle(Some(window_style::SYSTEM_MENU), None))),
            ),
            r@.unchanged_except(self@, false, false, true, false, false),
    {
        self.style(DialogStyle(WindowStyle(Some(window_style::SYSTEM_MENU), None)))
    }

    /// Gives the dialog the caption `caption_text`, and the style of
    /// windows that have one.
    pub fn caption(self, caption_text: MultiLangText) -> (r: DialogBuilder)
        ensures
            r@.caption == caption_text.0,
            r@.style == Some(
                DialogStyle(self@.window_style().union(WindowStyle(Some(window_style::CAPTION), None))),
            ),
            r@.unchanged_except(self@, false, true, true, false, false),
    {
        proof {
            use_type_invariant(&self);
        }
        let mut data = self.0;
        data.caption = caption_text.0;
        data.add_style(DialogStyle(WindowStyle(Some(window_style::CAPTION), None)));
        DialogBuilder(data)
    }

    /// Adds the style `style` to the styles of the dialog.
    pub fn style(self, style: DialogStyle) -> (r: DialogBuilder)
        ensures
            r@.style == Some(DialogStyle(self@.window_style().union(style.0))),
            r@.unchanged_except(self@, false, false, true, false, false),
    {
        proof {
            use_type_invariant(&self);
        }
        let mut data = self.0;
        data.add_style(style);
        DialogBuilder(data)
    }

    /// Declares the font of the dialog for every language.
    pub fn font(
        self,
        typeface: &str,
        size: FontSize,
        weight: FontWeight,
        italic: FontItalic,
        charset: FontCharset,
    ) -> (r: DialogBuilder)
        ensures
            r@.font@.dom() == self@.font@.dom().insert(None),
            forall|k: Option<Lang>|
                k != None::<Lang> && self@.font@.contains_key(k) ==> r@.font@[k] == self@.font@[k],
            r@.font@[None].typeface@ == typeface@,
            r@.font@[None].size == size,
            r@.font@[None].weight == weight,
            r@.font@[None].italic == italic,
            r@.font@[None].charset == charset,
            r@.unchanged_except(self@, false, false, false, true, false),
    {
        proof {
            use_type_invariant(&self);
        }
        let mut data = self.0;
        data.font.insert_universal(
            Font { typeface: typeface.to_owned(), size, weight, italic, charset },
        );
        DialogBuilder(data)
    }

    /// Declares the font of the dialog for the language `lang`.
    pub fn lang_specific_font(
        self,
        lang: Lang,
        typeface: &str,
        size: FontSize,
        weight: FontWeight,
        italic: FontItalic,
        charset: FontCharset,
    ) -> (r: DialogBuilder)
        ensures
            r@.font@.dom() == self@.font@.dom().insert(Some(lang)),
            forall|k: Option<Lang>|
                k != Some(lang) && self@.font@.contains_key(k) ==> r@.font@[k] == self@.font@[k],
            r@.font@[Some(lang)].typeface@ == typeface@,
            r@.font@[Some(lang)].size == size,
            r@.font@[Some(lang)].weight == weight,
            r@.font@[Some(lang)].italic == italic,
            r@.font@[Some(lang)].charset == charset,
            r@.unchanged_except(self@, false, false, false, true, false),
    {
        proof {
            use_type_invariant(&self);
        }
        let mut data = self.0;
        data.font.insert_lang_specific(
            lang,
            Font { typeface: typeface.to_owned(), size, weight, italic, charset },
        );
        DialogBuilder(data)
    }

    /// Declares the control `control` under `id` for every language, after
    /// all controls declared before.
    pub fn control<C: ControlTrait>(self, id: Id, control: C) -> (r: DialogBuilder)
        ensures
            r@.controls@ == self@.controls@.push((None, (id, control.control()))),
            forall|l: Lang| #[trigger]
                r@.controls_for(l) == self@.controls_for(l).push((id, control.control())),
            r@.unchanged_except(self@, false, false, false, false, true),
    {
        proof {
            use_type_invariant(&self);
        }
        let mut data = self.0;
        let ghost before = data.controls;
        data.controls.push_universal((id, control.into_control()));
        proof {
            assert forall|l: Lang| #[trigger]
                data.controls_for(l) == self@.controls_for(l).push((id, control.control())) by {
                assert(data.controls.selected(l) == before.selected(l).push(
                    (id, control.control()),
                ));
            }
        }
        DialogBuilder(data)
    }

    /// Declares the control `control` under `id` for the language `lang`,
    /// after all controls declared before.
    pub fn lang_specific_control<C: ControlTrait>(self, lang: Lang, id: Id, control: C) -> (r:
        DialogBuilder)
        ensures
            r@.controls@ == self@.controls@.push((Some(lang), (id, control.control()))),
            r@.controls_for(lang) == self@.controls_for(lang).push((id, control.control())),
            forall|l: Lang| l != lang ==> #[trigger] r@.controls_for(l) == self@.controls_for(l),
            r@.unchanged_except(self@, false, false, false, false, true),
    {
        proof {
            use_type_invariant(&self);
        }
        let mut data = self.0;
        let ghost before = data.controls;
        data.controls.push_lang_specific(lang, (id, control.into_control()));
        proof {
            assert forall|l: Lang| l != lang implies #[trigger] data.controls_for(l)
                == self@.controls_for(l) by {
                assert(data.controls.selected(l) == before.selected(l));
            }
        }
        DialogBuilder(data)
    }

    /// Declares the rectangle of the dialog for every language.
    pub fn rect(self, rect: Rect) -> (r: DialogBuilder)
        ensures
            r@.rect@ == self@.rect@.insert(None, rect),
            r@.unchanged_except(self@, true, false, false, false, false),
    {
        proof {
            use_type_invariant(&self);
        }
        let mut data = self.0;
        data.rect.insert_universal(rect);
        DialogBuilder(data)
    }

    /// Declares the rectangle of the dialog for the language `lang`.
    pub fn lang_specific_rect(self, lang: Lang, rect: Rect) -> (r: DialogBuilder)
        ensures
            r@.rect@ == self@.rect@.insert(Some(lang), rect),
            r@.unchanged_except(self@, true, false, false, false, false),
    {
        proof {
            use_type_invariant(&self);
        }
        let mut data = self.0;
        data.rect.insert_lang_specific(lang, rect);
        DialogBuilder(data)
    }
}

} // verus!
