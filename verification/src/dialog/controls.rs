//! The controls of a dialog by kind, and the statements they are written
//! with.
//!
//! A control is made from the statement of its kind and then given what the
//! kind allows: a text, an image, a rectangle, styles.

use crate::dialog::{
    Control, ControlStyle, ControlTemplate, IdOrLangSpecificStr, WindowStyle,
};
use crate::id::Id;
use crate::multilang::MultiLangText;
use crate::rect::Rect;
use vstd::prelude::*;
use vstd::std_specs::convert::FromSpecImpl;

verus! {

/// What becomes a control of a dialog.
pub trait ControlTrait: Sized {
    /// The control that `self` becomes.
    spec fn control(self) -> Control;

    /// The control, which can be written.
    fn into_control(self) -> (r: Control)
        ensures
            r == self.control(),
            r.renderable(),
    ;
}

/// A statement that controls of one kind are written with.
pub trait ControlTemplateTrait: Sized {
    type ControlType: ControlTrait;

    /// The statement.
    spec fn template(self) -> ControlTemplate;

    /// A control of the kind, with nothing set.
    fn instantiate_control(self) -> (r: Self::ControlType)
        ensures
            r.control() == Control::fresh(self.template()),
    ;
}

impl Control {
    /// A control of the kind of `template`, with nothing set.
    pub fn from_template<T: ControlTemplateTrait>(template: T) -> (r: T::ControlType)
        ensures
            r.control() == Control::fresh(template.template()),
    {
        template.instantiate_control()
    }

    /// The same control with the style `style` added to its styles.
    pub open spec fn with_style(self, style: ControlStyle) -> Control {
        Control {
            template: self.template,
            text_or_image: self.text_or_image,
            rect: self.rect,
            class: self.class,
            style: Some(ControlStyle(self.window_style().union(style.0))),
        }
    }

    /// The same control with the rectangle `rect`.
    pub open spec fn with_rect(self, rect: Rect) -> Control {
        Control {
            template: self.template,
            text_or_image: self.text_or_image,
            rect: Some(rect),
            class: self.class,
            style: self.style,
        }
    }

    /// The same control showing `content`.
    pub open spec fn with_content(self, content: IdOrLangSpecificStr) -> Control {
        Control {
            template: self.template,
            text_or_image: Some(content),
            rect: self.rect,
            class: self.class,
            style: self.style,
        }
    }

    fn add_style(self, style: ControlStyle) -> (r: Control)
        ensures
            r == self.with_style(style),
    {
        let old_style = match self.style {
            Some(s) => s.0,
            None => WindowStyle(None, None),
        };
        Control {
            template: self.template,
            text_or_image: self.text_or_image,
            rect: self.rect,
            class: self.class,
            style: Some(ControlStyle(old_style | style.0)),
        }
    }

    fn set_rect(self, rect: Rect) -> (r: Control)
        ensures
            r == self.with_rect(rect),
    {
        Control {
            template: self.template,
            text_or_image: self.text_or_image,
            rect: Some(rect),
            class: self.class,
            style: self.style,
        }
    }

    fn set_content(self, content: IdOrLangSpecificStr) -> (r: Control)
        ensures
            r == self.with_content(content),
    {
        Control {
            template: self.template,
            text_or_image: Some(content),
            rect: self.rect,
            class: self.class,
            style: self.style,
        }
    }
}

/// The styles of a static control.
#[derive(Clone, Copy, PartialEq, Eq, Debug, Structural)]
pub struct StaticControlStyle(pub ControlStyle);

impl From<WindowStyle> for StaticControlStyle {
    fn from(v: WindowStyle) -> (r: StaticControlStyle) {
        StaticControlStyle(ControlStyle(v))
    }
}

impl FromSpecImpl<WindowStyle> for StaticControlStyle {
    open spec fn obeys_from_spec() -> bool {
        true
    }

    open spec fn from_spec(v: WindowStyle) -> StaticControlStyle {
        StaticControlStyle(ControlStyle(v))
    }
}

impl From<ControlStyle> for StaticControlStyle {
    fn from(v: ControlStyle) -> (r: StaticControlStyle) {
        StaticControlStyle(v)
    }
}

impl FromSpecImpl<ControlStyle> for StaticControlStyle {
    open spec fn obeys_from_spec() -> bool {
        true
    }

    open spec fn from_spec(v: ControlStyle) -> StaticControlStyle {
        StaticControlStyle(v)
    }
}

/// A statement that static controls are written with. It stands for a
/// window class.
pub struct StaticControlTemplate(ControlTemplate);

/// A static control.
pub struct StaticControl(Control);

impl StaticControlTemplate {
    #[verifier::type_invariant]
    spec fn stands_for_class(self) -> bool {
        self.0.use_keyword is Some
    }
}

impl ControlTemplateTrait for StaticControlTemplate {
    type ControlType = StaticControl;

    closed spec fn template(self) -> ControlTemplate {
        self.0
    }

    fn instantiate_control(self) -> (r: StaticControl) {
        proof {
            use_type_invariant(&self);
        }
        StaticControl(
            Control {
                template: Some(self.0),
                text_or_image: None,
                rect: None,
                class: None,
                style: None,
            },
        )
    }
}

impl ControlTrait for StaticControl {
    closed spec fn control(self) -> Control {
        self.0
    }

    fn into_control(self) -> (r: Control) {
        proof {
            use_type_invariant(&self);
        }
        self.0
    }
}

impl StaticControl {
    #[verifier::type_invariant]
    spec fn stands_for_class(self) -> bool {
        self.0.template is Some && self.0.template->0.use_keyword is Some
    }

    /// The same control with the text `text`.
    pub fn text(self, text: MultiLangText) -> (r: StaticControl)
        ensures
            r.control() == self.control().with_content(
                IdOrLangSpecificStr::LangSpecificStr(text.0),
            ),
    {
        proof {
            use_type_invariant(&self);
        }
        StaticControl(self.0.set_content(IdOrLangSpecificStr::LangSpecificStr(text.0)))
    }

    /// The same control showing the image with the identifier `id`.
    pub fn image_id(self, id: Id) -> (r: StaticControl)
        ensures
            r.control() == self.control().with_content(IdOrLangSpecificStr::Id(Some(id))),
    {
        proof {
            use_type_invariant(&self);
        }
        StaticControl(self.0.set_content(IdOrLangSpecificStr::Id(Some(id))))
    }

    /// The same control with the rectangle `rect`.
    pub fn rect(self, rect: Rect) -> (r: StaticControl)
        ensures
            r.control() == self.control().with_rect(rect),
    {
        proof {
            use_type_invariant(&self);
        }
        StaticControl(self.0.set_rect(rect))
    }

    /// The same control with the style `style` added to its styles.
    pub fn style(self, style: StaticControlStyle) -> (r: StaticControl)
        ensures
            r.control() == self.control().with_style(style.0),
    {
        proof {
            use_type_invariant(&self);
        }
        StaticControl(self.0.add_style(style.0))
    }
}

/// The styles of a button control.
#[derive(Clone, Copy, PartialEq, Eq, Debug, Structural)]
pub struct ButtonControlStyle(pub ControlStyle);

impl From<WindowStyle> for ButtonControlStyle {
    fn from(v: WindowStyle) -> (r: ButtonControlStyle) {
        ButtonControlStyle(ControlStyle(v))
    }
}

impl FromSpecImpl<WindowStyle> for ButtonControlStyle {
    open spec fn obeys_from_spec() -> bool {
        true
    }

    open spec fn from_spec(v: WindowStyle) -> ButtonControlStyle {
        ButtonControlStyle(ControlStyle(v))
    }
}

impl From<ControlStyle> for ButtonControlStyle {
    fn from(v: ControlStyle) -> (r: ButtonControlStyle) {
        ButtonControlStyle(v)
    }
}

impl FromSpecImpl<ControlStyle> for ButtonControlStyle {
    open spec fn obeys_from_spec() -> bool {
        true
    }

    open spec fn from_spec(v: ControlStyle) -> ButtonControlStyle {
        ButtonControlStyle(v)
    }
}

/// A statement that button controls are written with. It stands for a
/// window class.
pub struct ButtonControlTemplate(ControlTemplate);

/// A button control.
pub struct ButtonControl(Control);

impl ButtonControlTemplate {
    #[verifier::type_invariant]
    spec fn stands_for_class(self) -> bool {
        self.0.use_keyword is Some
    }
}

impl ControlTemplateTrait for ButtonControlTemplate {
    type ControlType = ButtonControl;

    closed spec fn template(self) -> ControlTemplate {
        self.0
    }

    fn instantiate_control(self) -> (r: ButtonControl) {
        proof {
            use_type_invariant(&self);
        }
        ButtonControl(
            Control {
                template: Some(self.0),
                text_or_image: None,
                rect: None,
                class: None,
                style: None,
            },
        )
    }
}

impl ControlTrait for ButtonControl {
    closed spec fn control(self) -> Control {
        self.0
    }

    fn into_control(self) -> (r: Control) {
        proof {
            use_type_invariant(&self);
        }
        self.0
    }
}

impl ButtonControl {
    #[verifier::type_invariant]
    spec fn stands_for_class(self) -> bool {
        self.0.template is Some && self.0.template->0.use_keyword is Some
    }

    /// The same control with the text `text`.
    pub fn text(self, text: MultiLangText) -> (r: ButtonControl)
        ensures
            r.control() == self.control().with_content(
                IdOrLangSpecificStr::LangSpecificStr(text.0),
            ),
    {
        proof {
            use_type_invariant(&self);
        }
        ButtonControl(self.0.set_content(IdOrLangSpecificStr::LangSpecificStr(text.0)))
    }

    /// The same control with the rectangle `rect`.
    pub fn rect(self, rect: Rect) -> (r: ButtonControl)
        ensures
            r.control() == self.control().with_rect(rect),
    {
        proof {
            use_type_invariant(&self);
        }
        ButtonControl(self.0.set_rect(rect))
    }

    /// The same control with the style `style` added to its styles.
    pub fn style(self, style: ButtonControlStyle) -> (r: ButtonControl)
        ensures
            r.control() == self.control().with_style(style.0),
    {
        proof {
            use_type_invariant(&self);
        }
        ButtonControl(self.0.add_style(style.0))
    }
}

/// The styles of an edit control.
#[derive(Clone, Copy, PartialEq, Eq, Debug, Structural)]
pub struct EditControlStyle(pub ControlStyle);

impl From<WindowStyle> for EditControlStyle {
    fn from(v: WindowStyle) -> (r: EditControlStyle) {
        EditControlStyle(ControlStyle(v))
    }
}

impl FromSpecImpl<WindowStyle> for EditControlStyle {
    open spec fn obeys_from_spec() -> bool {
        true
    }

    open spec fn from_spec(v: WindowStyle) -> EditControlStyle {
        EditControlStyle(ControlStyle(v))
    }
}

impl From<ControlStyle> for EditControlStyle {
    fn from(v: ControlStyle) -> (r: EditControlStyle) {
        EditControlStyle(v)
    }
}

impl FromSpecImpl<ControlStyle> for EditControlStyle {
    open spec fn obeys_from_spec() -> bool {
        true
    }

    open spec fn from_spec(v: ControlStyle) -> EditControlStyle {
        EditControlStyle(v)
    }
}

/// A statement that edit controls are written with. It stands for a
/// window class.
pub struct EditControlTemplate(ControlTemplate);

/// An edit control.
pub struct EditControl(Control);

impl EditControlTemplate {
    #[verifier::type_invariant]
    spec fn stands_for_class(self) -> bool {
        self.0.use_keyword is Some
    }
}

impl ControlTemplateTrait for EditControlTemplate {
    type ControlType = EditControl;

    closed spec fn template(self) -> ControlTemplate {
        self.0
    }

    fn instantiate_control(self) -> (r: EditControl) {
        proof {
            use_type_invariant(&self);
        }
        EditControl(
            Control {
                template: Some(self.0),
                text_or_image: None,
                rect: None,
                class: None,
                style: None,
            },
        )
    }
}

impl ControlTrait for EditControl {
    closed spec fn control(self) -> Control {
        self.0
    }

    fn into_control(self) -> (r: Control) {
        proof {
            use_type_invariant(&self);
        }
        self.0
    }
}

impl EditControl {
    #[verifier::type_invariant]
    spec fn stands_for_class(self) -> bool {
        self.0.template is Some && self.0.template->0.use_keyword is Some
    }

    /// The same control with the rectangle `rect`.
    pub fn rect(self, rect: Rect) -> (r: EditControl)
        ensures
            r.control() == self.control().with_rect(rect),
    {
        proof {
            use_type_invariant(&self);
        }
        EditControl(self.0.set_rect(rect))
    }

    /// The same control with the style `style` added to its styles.
    pub fn style(self, style: EditControlStyle) -> (r: EditControl)
        ensures
            r.control() == self.control().with_style(style.0),
    {
        proof {
            use_type_invariant(&self);
        }
        EditControl(self.0.add_style(style.0))
    }
}

/// The styles of a scroll bar control.
#[derive(Clone, Copy, PartialEq, Eq, Debug, Structural)]
pub struct ScrollBarControlStyle(pub ControlStyle);

impl From<WindowStyle> for ScrollBarControlStyle {
    fn from(v: WindowStyle) -> (r: ScrollBarControlStyle) {
        ScrollBarControlStyle(ControlStyle(v))
    }
}

impl FromSpecImpl<WindowStyle> for ScrollBarControlStyle {
    open spec fn obeys_from_spec() -> bool {
        true
    }

    open spec fn from_spec(v: WindowStyle) -> ScrollBarControlStyle {
        ScrollBarControlStyle(ControlStyle(v))
    }
}

impl From<ControlStyle> for ScrollBarControlStyle {
    fn from(v: ControlStyle) -> (r: ScrollBarControlStyle) {
        ScrollBarControlStyle(v)
    }
}

impl FromSpecImpl<ControlStyle> for ScrollBarControlStyle {
    open spec fn obeys_from_spec() -> bool {
        true
    }

    open spec fn from_spec(v: ControlStyle) -> ScrollBarControlStyle {
        ScrollBarControlStyle(v)
    }
}

/// A statement that scroll bar controls are written with. It stands for a
/// window class.
pub struct ScrollBarControlTemplate(ControlTemplate);

/// A scroll bar control.
pub struct ScrollBarControl(Control);

impl ScrollBarControlTemplate {
    #[verifier::type_invariant]
    spec fn stands_for_class(self) -> bool {
        self.0.use_keyword is Some
    }
}

impl ControlTemplateTrait for ScrollBarControlTemplate {
    type ControlType = ScrollBarControl;

    closed spec fn template(self) -> ControlTemplate {
        self.0
    }

    fn instantiate_control(self) -> (r: ScrollBarControl) {
        proof {
            use_type_invariant(&self);
        }
        ScrollBarControl(
            Control {
                template: Some(self.0),
                text_or_image: None,
                rect: None,
                class: None,
                style: None,
            },
        )
    }
}

impl ControlTrait for ScrollBarControl {
    closed spec fn control(self) -> Control {
        self.0
    }

    fn into_control(self) -> (r: Control) {
        proof {
            use_type_invariant(&self);
        }
        self.0
    }
}

impl ScrollBarControl {
    #[verifier::type_invariant]
    spec fn stands_for_class(self) -> bool {
        self.0.template is Some && self.0.template->0.use_keyword is Some
    }

    /// The same control with the rectangle `rect`.
    pub fn rect(self, rect: Rect) -> (r: ScrollBarControl)
        ensures
            r.control() == self.control().with_rect(rect),
    {
        proof {
            use_type_invariant(&self);
        }
        ScrollBarControl(self.0.set_rect(rect))
    }

    /// The same control with the style `style` added to its styles.
    pub fn style(self, style: ScrollBarControlStyle) -> (r: ScrollBarControl)
        ensures
            r.control() == self.control().with_style(style.0),
    {
        proof {
            use_type_invariant(&self);
        }
        ScrollBarControl(self.0.add_style(style.0))
    }
}

/// The styles of a combo box control.
#[derive(Clone, Copy, PartialEq, Eq, Debug, Structural)]
pub struct ComboBoxControlStyle(pub ControlStyle);

impl From<WindowStyle> for ComboBoxControlStyle {
    fn from(v: WindowStyle) -> (r: ComboBoxControlStyle) {
        ComboBoxControlStyle(ControlStyle(v))
    }
}

impl FromSpecImpl<WindowStyle> for ComboBoxControlStyle {
    open spec fn obeys_from_spec() -> bool {
        true
    }

    open spec fn from_spec(v: WindowStyle) -> ComboBoxControlStyle {
        ComboBoxControlStyle(ControlStyle(v))
    }
}

impl From<ControlStyle> for ComboBoxControlStyle {
    fn from(v: ControlStyle) -> (r: ComboBoxControlStyle) {
        ComboBoxControlStyle(v)
    }
}

impl FromSpecImpl<ControlStyle> for ComboBoxControlStyle {
    open spec fn obeys_from_spec() -> bool {
        true
    }

    open spec fn from_spec(v: ControlStyle) -> ComboBoxControlStyle {
        ComboBoxControlStyle(v)
    }
}

/// A statement that combo box controls are written with. It stands for a
/// window class.
pub struct ComboBoxControlTemplate(ControlTemplate);

/// A combo box control.
pub struct ComboBoxControl(Control);

impl ComboBoxControlTemplate {
    #[verifier::type_invariant]
    spec fn stands_for_class(self) -> bool {
        self.0.use_keyword is Some
    }
}

impl ControlTemplateTrait for ComboBoxControlTemplate {
    type ControlType = ComboBoxControl;

    closed spec fn template(self) -> ControlTemplate {
        self.0
    }

    fn instantiate_control(self) -> (r: ComboBoxControl) {
        proof {
            use_type_invariant(&self);
        }
        ComboBoxControl(
            Control {
                template: Some(self.0),
                text_or_image: None,
                rect: None,
                class: None,
                style: None,
            },
        )
    }
}

impl ControlTrait for ComboBoxControl {
    closed spec fn control(self) -> Control {
        self.0
    }

    fn into_control(self) -> (r: Control) {
        proof {
            use_type_invariant(&self);
        }
        self.0
    }
}

impl ComboBoxControl {
    #[verifier::type_invariant]
    spec fn stands_for_class(self) -> bool {
        self.0.template is Some && self.0.template->0.use_keyword is Some
    }

    /// The same control with the rectangle `rect`.
    pub fn rect(self, rect: Rect) -> (r: ComboBoxControl)
        ensures
            r.control() == self.control().with_rect(rect),
    {
        proof {
            use_type_invariant(&self);
        }
        ComboBoxControl(self.0.set_rect(rect))
    }

    /// The same control with the style `style` added to its styles.
    pub fn style(self, style: ComboBoxControlStyle) -> (r: ComboBoxControl)
        ensures
            r.control() == self.control().with_style(style.0),
    {
        proof {
            use_type_invariant(&self);
        }
        ComboBoxControl(self.0.add_style(style.0))
    }
}

/// The styles of a list box control.
#[derive(Clone, Copy, PartialEq, Eq, Debug, Structural)]
pub struct ListBoxControlStyle(pub ControlStyle);

impl From<WindowStyle> for ListBoxControlStyle {
    fn from(v: WindowStyle) -> (r: ListBoxControlStyle) {
        ListBoxControlStyle(ControlStyle(v))
    }
}

impl FromSpecImpl<WindowStyle> for ListBoxControlStyle {
    open spec fn obeys_from_spec() -> bool {
        true
    }

    open spec fn from_spec(v: WindowStyle) -> ListBoxControlStyle {
        ListBoxControlStyle(ControlStyle(v))
    }
}

impl From<ControlStyle> for ListBoxControlStyle {
    fn from(v: ControlStyle) -> (r: ListBoxControlStyle) {
        ListBoxControlStyle(v)
    }
}

impl FromSpecImpl<ControlStyle> for ListBoxControlStyle {
    open spec fn obeys_from_spec() -> bool {
        true
    }

    open spec fn from_spec(v: ControlStyle) -> ListBoxControlStyle {
        ListBoxControlStyle(v)
    }
}

/// A statement that list box controls are written with. It stands for a
/// window class.
pub struct ListBoxControlTemplate(ControlTemplate);

/// A list box control.
pub struct ListBoxControl(Control);

impl ListBoxControlTemplate {
    #[verifier::type_invariant]
    spec fn stands_for_class(self) -> bool {
        self.0.use_keyword is Some
    }
}

impl ControlTemplateTrait for ListBoxControlTemplate {
    type ControlType = ListBoxControl;

    closed spec fn template(self) -> ControlTemplate {
        self.0
    }

    fn instantiate_control(self) -> (r: ListBoxControl) {
        proof {
            use_type_invariant(&self);
        }
        ListBoxControl(
            Control {
                template: Some(self.0),
                text_or_image: None,
                rect: None,
                class: None,
                style: None,
            },
        )
    }
}

impl ControlTrait for ListBoxControl {
    closed spec fn control(self) -> Control {
        self.0
    }

    fn into_control(self) -> (r: Control) {
        proof {
            use_type_invariant(&self);
        }
        self.0
    }
}

impl ListBoxControl {
    #[verifier::type_invariant]
    spec fn stands_for_class(self) -> bool {
        self.0.template is Some && self.0.template->0.use_keyword is Some
    }

    /// The same control with the rectangle `rect`.
    pub fn rect(self, rect: Rect) -> (r: ListBoxControl)
        ensures
            r.control() == self.control().with_rect(rect),
    {
        proof {
            use_type_invariant(&self);
        }
        ListBoxControl(self.0.set_rect(rect))
    }

    /// The same control with the style `style` added to its styles.
    pub fn style(self, style: ListBoxControlStyle) -> (r: ListBoxControl)
        ensures
            r.control() == self.control().with_style(style.0),
    {
        proof {
            use_type_invariant(&self);
        }
        ListBoxControl(self.0.add_style(style.0))
    }
}

impl ControlTemplate {
    /// A check box with three states that changes state when it is clicked.
    pub fn auto3state() -> (r: ButtonControlTemplate)
        ensures
            r.template() == (ControlTemplate {
                name: "AUTO3STATE",
                use_text: true,
                use_size: true,
                use_keyword: Some("BUTTON"),
            }),
    {
        ButtonControlTemplate(
            ControlTemplate {
                name: "AUTO3STATE",
                use_text: true,
                use_size: true,
                use_keyword: Some("BUTTON"),
            },
        )
    }

    /// A check box that changes state when it is clicked.
    pub fn autocheckbox() -> (r: ButtonControlTemplate)
        ensures
            r.template() == (ControlTemplate {
                name: "AUTOCHECKBOX",
                use_text: true,
                use_size: true,
                use_keyword: Some("BUTTON"),
            }),
    {
        ButtonControlTemplate(
            ControlTemplate {
                name: "AUTOCHECKBOX",
                use_text: true,
                use_size: true,
                use_keyword: Some("BUTTON"),
            },
        )
    }

    /// A radio button that changes state when it is clicked.
    pub fn autoradiobutton() -> (r: ButtonControlTemplate)
        ensures
            r.template() == (ControlTemplate {
                name: "AUTORADIOBUTTON",
                use_text: true,
                use_size: true,
                use_keyword: Some("BUTTON"),
            }),
    {
        ButtonControlTemplate(
            ControlTemplate {
                name: "AUTORADIOBUTTON",
                use_text: true,
                use_size: true,
                use_keyword: Some("BUTTON"),
            },
        )
    }

    /// A check box.
    pub fn checkbox() -> (r: ButtonControlTemplate)
        ensures
            r.template() == (ControlTemplate {
                name: "CHECKBOX",
                use_text: true,
                use_size: true,
                use_keyword: Some("BUTTON"),
            }),
    {
        ButtonControlTemplate(
            ControlTemplate {
                name: "CHECKBOX",
                use_text: true,
                use_size: true,
                use_keyword: Some("BUTTON"),
            },
        )
    }

    /// A combo box.
    pub fn combobox() -> (r: ComboBoxControlTemplate)
        ensures
            r.template() == (ControlTemplate {
                name: "COMBOBOX",
                use_text: false,
                use_size: true,
                use_keyword: Some("COMBOBOX"),
            }),
    {
        ComboBoxControlTemplate(
            ControlTemplate {
                name: "COMBOBOX",
                use_text: false,
                use_size: true,
                use_keyword: Some("COMBOBOX"),
            },
        )
    }

    /// A text, centered.
    pub fn ctext() -> (r: StaticControlTemplate)
        ensures
            r.template() == (ControlTemplate {
                name: "CTEXT",
                use_text: true,
                use_size: true,
                use_keyword: Some("STATIC"),
            }),
    {
        StaticControlTemplate(
            ControlTemplate {
                name: "CTEXT",
                use_text: true,
                use_size: true,
                use_keyword: Some("STATIC"),
            },
        )
    }

    /// The push button that is pressed by default.
    pub fn defpushbutton() -> (r: ButtonControlTemplate)
        ensures
            r.template() == (ControlTemplate {
                name: "DEFPUSHBUTTON",
                use_text: true,
                use_size: true,
                use_keyword: Some("BUTTON"),
            }),
    {
        ButtonControlTemplate(
            ControlTemplate {
                name: "DEFPUSHBUTTON",
                use_text: true,
                use_size: true,
                use_keyword: Some("BUTTON"),
            },
        )
    }

    /// A field to edit text in.
    pub fn edittext() -> (r: EditControlTemplate)
        ensures
            r.template() == (ControlTemplate {
                name: "EDITTEXT",
                use_text: true,
                use_size: true,
                use_keyword: Some("EDIT"),
            }),
    {
        EditControlTemplate(
            ControlTemplate {
                name: "EDITTEXT",
                use_text: true,
                use_size: true,
                use_keyword: Some("EDIT"),
            },
        )
    }

    /// A box round a group of controls.
    pub fn groupbox() -> (r: ButtonControlTemplate)
        ensures
            r.template() == (ControlTemplate {
                name: "GROUPBOX",
                use_text: true,
                use_size: true,
                use_keyword: Some("BUTTON"),
            }),
    {
        ButtonControlTemplate(
            ControlTemplate {
                name: "GROUPBOX",
                use_text: true,
                use_size: true,
                use_keyword: Some("BUTTON"),
            },
        )
    }

    /// An icon.
    pub fn icon() -> (r: StaticControlTemplate)
        ensures
            r.template() == (ControlTemplate {
                name: "ICON",
                use_text: true,
                use_size: false,
                use_keyword: Some("STATIC"),
            }),
    {
        StaticControlTemplate(
            ControlTemplate {
                name: "ICON",
                use_text: true,
                use_size: false,
                use_keyword: Some("STATIC"),
            },
        )
    }

    /// A list box.
    pub fn listbox() -> (r: ListBoxControlTemplate)
        ensures
            r.template() == (ControlTemplate {
                name: "LISTBOX",
                use_text: false,
                use_size: true,
                use_keyword: Some("LISTBOX"),
            }),
    {
        ListBoxControlTemplate(
            ControlTemplate {
                name: "LISTBOX",
                use_text: false,
                use_size: true,
                use_keyword: Some("LISTBOX"),
            },
        )
    }

    /// A text, aligned left.
    pub fn ltext() -> (r: StaticControlTemplate)
        ensures
            r.template() == (ControlTemplate {
                name: "LTEXT",
                use_text: true,
                use_size: true,
                use_keyword: Some("STATIC"),
            }),
    {
        StaticControlTemplate(
            ControlTemplate {
                name: "LTEXT",
                use_text: true,
                use_size: true,
                use_keyword: Some("STATIC"),
            },
        )
    }

    /// A push button that shows its text alone.
    pub fn pushbox() -> (r: ButtonControlTemplate)
        ensures
            r.template() == (ControlTemplate {
                name: "PUSHBOX",
                use_text: true,
                use_size: true,
                use_keyword: Some("BUTTON"),
            }),
    {
        ButtonControlTemplate(
            ControlTemplate {
                name: "PUSHBOX",
                use_text: true,
                use_size: true,
                use_keyword: Some("BUTTON"),
            },
        )
    }

    /// A push button.
    pub fn pushbutton() -> (r: ButtonControlTemplate)
        ensures
            r.template() == (ControlTemplate {
                name: "PUSHBUTTON",
                use_text: true,
                use_size: true,
                use_keyword: Some("BUTTON"),
            }),
    {
        ButtonControlTemplate(
            ControlTemplate {
                name: "PUSHBUTTON",
                use_text: true,
                use_size: true,
                use_keyword: Some("BUTTON"),
            },
        )
    }

    /// A radio button.
    pub fn radiobutton() -> (r: ButtonControlTemplate)
        ensures
            r.template() == (ControlTemplate {
                name: "RADIOBUTTON",
                use_text: true,
                use_size: true,
                use_keyword: Some("BUTTON"),
            }),
    {
        ButtonControlTemplate(
            ControlTemplate {
                name: "RADIOBUTTON",
                use_text: true,
                use_size: true,
                use_keyword: Some("BUTTON"),
            },
        )
    }

    /// A text, aligned right.
    pub fn rtext() -> (r: StaticControlTemplate)
        ensures
            r.template() == (ControlTemplate {
                name: "RTEXT",
                use_text: true,
                use_size: true,
                use_keyword: Some("STATIC"),
            }),
    {
        StaticControlTemplate(
            ControlTemplate {
                name: "RTEXT",
                use_text: true,
                use_size: true,
                use_keyword: Some("STATIC"),
            },
        )
    }

    /// A scroll bar.
    pub fn scrollbar() -> (r: ScrollBarControlTemplate)
        ensures
            r.template() == (ControlTemplate {
                name: "SCROLLBAR",
                use_text: true,
                use_size: true,
                use_keyword: Some("SCROLLBAR"),
            }),
    {
        ScrollBarControlTemplate(
            ControlTemplate {
                name: "SCROLLBAR",
                use_text: true,
                use_size: true,
                use_keyword: Some("SCROLLBAR"),
            },
        )
    }

    /// A check box with three states.
    pub fn state3() -> (r: ButtonControlTemplate)
        ensures
            r.template() == (ControlTemplate {
                name: "STATE3",
                use_text: true,
                use_size: true,
                use_keyword: Some("BUTTON"),
            }),
    {
        ButtonControlTemplate(
            ControlTemplate {
                name: "STATE3",
                use_text: true,
                use_size: true,
                use_keyword: Some("BUTTON"),
            },
        )
    }
}

} // verus!
