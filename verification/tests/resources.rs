use resw::accelerators::{
    virt_key, write_event_line, ASCIIKey, ASCIIModifier, AcceleratorsData, Event, Modifier, VirtKey,
};
use resw::dialog::{
    dialog_style, static_control_content_type, static_control_style, window_ex_style,
    window_style, write_control_line, ButtonControlStyle, ComboBoxControlStyle, Control,
    ControlStyle, ControlTemplate, ControlTrait, DialogData, DialogStyle, EditControlStyle,
    IdOrLangSpecificStr, ListBoxControlStyle, ScrollBarControlStyle, StaticControlContentType,
    StaticControlStyle, WindowStyle,
};
use resw::font::{charset, weight};
use resw::lang::{lang_chs, lang_deu, lang_enu};
use resw::menu::{
    menu_state, menu_type, write_menu_item_resource_segment, MenuData, MenuItem, MenuState,
    MenuType, PopupBuilder,
};
use resw::multilang::OptionLangSpecific;
use resw::resource::{Accelerators, Dialog, Menu, StringTable};
use resw::string_table::StringTableData;
use resw::{
    FontCharset, FontItalic, FontSize, FontWeight, Id, IdOrName, MultiLangText, Rect,
};

fn text(w: Vec<u8>) -> String {
    String::from_utf8(w).unwrap()
}

fn string_table_text(data: &StringTableData, lang: resw::Lang, id: &IdOrName) -> (String, bool) {
    let mut w: Vec<u8> = Vec::new();
    let warning = data.write_script_segment(&mut w, lang, id);
    (text(w), warning)
}

#[test]
fn string_table_of_a_language_stands_in_place_of_the_universal_one() {
    let data = StringTable::from_builder()
        .string(Id(1), "Yes")
        .string(Id(2), "No \"no\"")
        .lang_specific_string(lang_deu(), Id(1), "Ja")
        .extra_info(Some(3), None)
        .lang_specific_extra_info(lang_chs(), None, Some(4))
        .into_data();
    let id = IdOrName::Id(Id(0));
    assert_eq!(
        string_table_text(&data, lang_enu(), &id),
        ("LANGUAGE 0x9, 0x1\nSTRINGTABLE  3L\n{\n\t1, \"Yes\"\n\t2, \"No \\042no\\042\"\n}\n".to_string(), false)
    );
    assert_eq!(
        string_table_text(&data, lang_deu(), &id),
        ("LANGUAGE 0x7, 0x1\nSTRINGTABLE \n{\n\t1, \"Ja\"\n}\n".to_string(), false)
    );
    assert_eq!(
        string_table_text(&data, lang_chs(), &id),
        ("LANGUAGE 0x4, 0x2\nSTRINGTABLE  4L\n{\n}\n".to_string(), false)
    );
    assert!(!data.is_missing_for_lang(lang_enu()));
}

#[test]
fn string_table_with_nothing_for_a_language_is_left_out() {
    let data = StringTable::from_builder().lang_specific_string(lang_deu(), Id(1), "Ja").into_data();
    assert!(data.is_missing_for_lang(lang_enu()));
    assert!(!data.is_missing_for_lang(lang_deu()));
    assert_eq!(string_table_text(&data, lang_enu(), &IdOrName::Id(Id(9))), (String::new(), false));
    let (t, warning) = string_table_text(&data, lang_deu(), &IdOrName::Id(Id(9)));
    assert_eq!(t, "LANGUAGE 0x7, 0x1\nSTRINGTABLE \n{\n\t1, \"Ja\"\n}\n");
    assert!(warning);
    let empty = StringTable::from_builder().into_data();
    assert!(empty.is_missing_for_lang(lang_enu()));
    let mut w: Vec<u8> = Vec::new();
    data.write_resource_header_extras(&mut w, lang_deu());
    assert_eq!(text(w), "");
    let mut w: Vec<u8> = Vec::new();
    data.write_resource_segment(&mut w, lang_deu());
    assert_eq!(text(w), "{\n\t1, \"Ja\"\n}\n");
}

fn event_text(id: u16, event: Event) -> String {
    let mut w: Vec<u8> = Vec::new();
    write_event_line(&mut w, &Id(id), &event);
    text(w)
}

#[test]
fn event_line_names_key_identifier_kind_and_modifiers() {
    let a = ASCIIKey::ascii_key(65);
    assert_eq!(a.value(), 65);
    assert_eq!(event_text(10, Event::ascii_key_event(a, ASCIIModifier::Unmodified)), "\t65, 10, ASCII\n");
    assert_eq!(event_text(10, Event::ascii_key_event(a, ASCIIModifier::Ctrl)), "\t65, 10, ASCII, CONTROL\n");
    assert_eq!(event_text(10, Event::ascii_key_event(a, ASCIIModifier::Alt)), "\t65, 10, ASCII, ALT\n");
    assert_eq!(
        event_text(10, Event::ascii_key_event(a, ASCIIModifier::CtrlAlt)),
        "\t65, 10, ASCII, CONTROL, ALT\n"
    );
    let f1 = VirtKey(virt_key::F1);
    assert_eq!(event_text(11, Event::virt_key_event(f1, Modifier::Unmodified)), "\t112, 11, VIRTKEY\n");
    assert_eq!(event_text(11, Event::virt_key_event(f1, Modifier::Ctrl)), "\t112, 11, VIRTKEY, CONTROL\n");
    assert_eq!(event_text(11, Event::virt_key_event(f1, Modifier::Alt)), "\t112, 11, VIRTKEY, ALT\n");
    assert_eq!(event_text(11, Event::virt_key_event(f1, Modifier::Shift)), "\t112, 11, VIRTKEY, SHIFT\n");
    assert_eq!(
        event_text(11, Event::virt_key_event(f1, Modifier::CtrlAlt)),
        "\t112, 11, VIRTKEY, CONTROL, ALT\n"
    );
    assert_eq!(
        event_text(11, Event::virt_key_event(f1, Modifier::CtrlShift)),
        "\t112, 11, VIRTKEY, CONTROL, SHIFT\n"
    );
    assert_eq!(
        event_text(11, Event::virt_key_event(f1, Modifier::AltShift)),
        "\t112, 11, VIRTKEY, ALT, SHIFT\n"
    );
    assert_eq!(
        event_text(11, Event::virt_key_event(f1, Modifier::CtrlAltShift)),
        "\t112, 11, VIRTKEY, CONTROL, ALT, SHIFT\n"
    );
    assert_eq!(
        event_text(12, Event::virt_key_event(VirtKey(-3), Modifier::Shift).noinvert()),
        "\t-3, 12, VIRTKEY, SHIFT, NOINVERT\n"
    );
    assert_eq!(
        event_text(12, Event::ascii_key_event(ASCIIKey::ascii_key(32), ASCIIModifier::Unmodified).noinvert()),
        "\t32, 12, ASCII, NOINVERT\n"
    );
}

#[test]
fn ascii_key_is_a_printable_character() {
    assert!(ASCIIKey::checked(31).is_none());
    assert_eq!(ASCIIKey::checked(32).map(|k| k.value()), Some(32));
    assert_eq!(ASCIIKey::checked(126).map(|k| k.value()), Some(126));
    assert!(ASCIIKey::checked(127).is_none());
    assert!(ASCIIKey::checked(255).is_none());
    assert_eq!(ASCIIKey::ascii_key(126).value(), 126);
}

fn accelerators_text(data: &AcceleratorsData, lang: resw::Lang) -> String {
    let mut w: Vec<u8> = Vec::new();
    data.write_script_segment(&mut w, lang, &IdOrName::Id(Id(3)));
    text(w)
}

#[test]
fn accelerators_of_a_language_stand_in_place_of_the_universal_ones() {
    let data = Accelerators::from_builder()
        .event(Id(1), Event::virt_key_event(VirtKey(virt_key::LETTER_O), Modifier::Ctrl))
        .event(Id(2), Event::virt_key_event(VirtKey(virt_key::DELETE), Modifier::Unmodified))
        .extra_info(Some(1), Some(2))
        .lang_specific_event(lang_deu(), Id(1), Event::ascii_key_event(ASCIIKey::ascii_key(111), ASCIIModifier::Alt))
        .lang_specific_extra_info(lang_chs(), None, None)
        .into_data();
    assert_eq!(
        accelerators_text(&data, lang_enu()),
        "LANGUAGE 0x9, 0x1\n3 ACCELERATORS  1L 2L\n{\n\t79, 1, VIRTKEY, CONTROL\n\t46, 2, VIRTKEY\n}\n"
    );
    assert_eq!(
        accelerators_text(&data, lang_deu()),
        "LANGUAGE 0x7, 0x1\n3 ACCELERATORS \n{\n\t111, 1, ASCII, ALT\n}\n"
    );
    assert_eq!(accelerators_text(&data, lang_chs()), "LANGUAGE 0x4, 0x2\n3 ACCELERATORS \n{\n}\n");
    let none = Accelerators::from_builder().into_data();
    assert!(none.is_missing_for_lang(lang_enu()));
    assert_eq!(accelerators_text(&none, lang_enu()), "");
}

fn plain_item(id: Option<Id>, text: &str, ty: u32, state: u32) -> MenuItem {
    MenuItem {
        id,
        text: MultiLangText::universal(text).0,
        ty: MenuType(ty),
        state: MenuState(state),
        popup: None,
    }
}

fn item_text(item: &MenuItem, indent: usize) -> String {
    let mut w: Vec<u8> = Vec::new();
    write_menu_item_resource_segment(&mut w, lang_enu(), item, indent);
    text(w)
}

#[test]
fn menu_item_fields_keep_their_places() {
    assert_eq!(item_text(&plain_item(None, "x", 0, 0), 1), "\tMENUITEM \"x\"\n");
    assert_eq!(item_text(&plain_item(Some(Id(3)), "x", 0, 0), 1), "\tMENUITEM \"x\", 3\n");
    assert_eq!(item_text(&plain_item(None, "x", 4, 0), 1), "\tMENUITEM \"x\", , 4L\n");
    assert_eq!(item_text(&plain_item(None, "x", 0, 8), 1), "\tMENUITEM \"x\", , , 8L\n");
    assert_eq!(item_text(&plain_item(Some(Id(3)), "x", 4, 0), 1), "\tMENUITEM \"x\", 3, 4L\n");
    assert_eq!(item_text(&plain_item(Some(Id(3)), "x", 0, 8), 1), "\tMENUITEM \"x\", 3, , 8L\n");
    assert_eq!(item_text(&plain_item(Some(Id(3)), "x", 4, 8), 1), "\tMENUITEM \"x\", 3, 4L, 8L\n");
    assert_eq!(item_text(&plain_item(None, "x", 4, 8), 0), "MENUITEM \"x\", , 4L, 8L\n");
    assert_eq!(item_text(&plain_item(None, "x", 0, 0), 3), "\t\t\tMENUITEM \"x\"\n");
}

#[test]
fn popup_help_identifier_is_the_last_field() {
    let popup = |help: Option<i32>| {
        let builder = PopupBuilder::new().item(Id(1), MultiLangText::universal("in"));
        let builder = match help {
            Some(h) => builder.help_id(h),
            None => builder,
        };
        MenuItem {
            id: None,
            text: MultiLangText::universal("p").0,
            ty: MenuType(0),
            state: MenuState(0),
            popup: Some(builder.build()),
        }
    };
    assert_eq!(item_text(&popup(None), 1), "\tPOPUP \"p\"\n\t{\n\t\tMENUITEM \"in\", 1\n\t}\n");
    assert_eq!(
        item_text(&popup(Some(5)), 1),
        "\tPOPUP \"p\", , , , 5L\n\t{\n\t\tMENUITEM \"in\", 1\n\t}\n"
    );
    assert_eq!(
        item_text(&popup(Some(-5)), 0),
        "POPUP \"p\", , , , -5L\n{\n\tMENUITEM \"in\", 1\n}\n"
    );
}

fn menu_text(data: &MenuData, lang: resw::Lang) -> String {
    let mut w: Vec<u8> = Vec::new();
    data.write_script_segment(&mut w, lang, &IdOrName::from_name("MAIN"));
    text(w)
}

#[test]
fn menu_is_a_tree_with_one_tab_for_each_depth() {
    let data = Menu::from_builder()
        .popup(MultiLangText::universal("&File").lang(lang_deu(), "&Datei"), |p| {
            p.item(Id(10), MultiLangText::universal("&Open"))
                .separator()
                .complex_popup(
                    Some(Id(11)),
                    MultiLangText::universal("Recent"),
                    MenuType(menu_type::RADIO_CHECK),
                    MenuState(menu_state::CHECKED),
                    |q| q.help_id(77).complex_item(None, MultiLangText::universal("none"), MenuType(0), MenuState(menu_state::DISABLED)),
                )
                .item(Id(12), MultiLangText::empty().lang(lang_deu(), "&Beenden"))
        })
        .complex_item(Some(Id(20)), MultiLangText::universal("Help"), MenuType(menu_type::RIGHT_JUSTIFY), MenuState(0))
        .separator()
        .into_data();
    assert_eq!(
        menu_text(&data, lang_enu()),
        "LANGUAGE 0x9, 0x1\n\"MAIN\" MENUEX \n{\n\tPOPUP \"&File\"\n\t{\n\t\tMENUITEM \"&Open\", 10\n\t\tMENUITEM \"\", , 2048L\n\t\tPOPUP \"Recent\", 11, 512L, 8L, 77L\n\t\t{\n\t\t\tMENUITEM \"none\", , , 3L\n\t\t}\n\t}\n\tMENUITEM \"Help\", 20, 16384L\n\tMENUITEM \"\", , 2048L\n}\n"
    );
    assert_eq!(
        menu_text(&data, lang_deu()),
        "LANGUAGE 0x7, 0x1\n\"MAIN\" MENUEX \n{\n\tPOPUP \"&Datei\"\n\t{\n\t\tMENUITEM \"&Open\", 10\n\t\tMENUITEM \"\", , 2048L\n\t\tPOPUP \"Recent\", 11, 512L, 8L, 77L\n\t\t{\n\t\t\tMENUITEM \"none\", , , 3L\n\t\t}\n\t\tMENUITEM \"&Beenden\", 12\n\t}\n\tMENUITEM \"Help\", 20, 16384L\n\tMENUITEM \"\", , 2048L\n}\n"
    );
}

#[test]
fn menu_without_a_text_for_a_language_is_left_out() {
    let data = Menu::from_builder()
        .popup(MultiLangText::empty().lang(lang_deu(), "Datei"), |p| p.item(Id(1), MultiLangText::universal("all")))
        .into_data();
    assert!(data.is_missing_for_lang(lang_enu()));
    assert!(!data.is_missing_for_lang(lang_deu()));
    assert_eq!(menu_text(&data, lang_enu()), "");
    assert_eq!(
        menu_text(&data, lang_deu()),
        "LANGUAGE 0x7, 0x1\n\"MAIN\" MENUEX \n{\n\tPOPUP \"Datei\"\n\t{\n\t\tMENUITEM \"all\", 1\n\t}\n}\n"
    );
    let empty = Menu::from_builder().into_data();
    assert!(empty.is_missing_for_lang(lang_enu()));
    let mut w: Vec<u8> = Vec::new();
    empty.write_resource_segment(&mut w, lang_enu());
    assert_eq!(text(w), "{\n}\n");
    let mut w: Vec<u8> = Vec::new();
    empty.write_resource_header_extras(&mut w, lang_enu());
    assert_eq!(text(w), "");
}

#[test]
fn menu_flags_combine() {
    assert_eq!(MenuType(menu_type::BITMAP) | MenuType(menu_type::SEPARATOR), MenuType(0x804));
    assert_eq!(MenuState(menu_state::CHECKED) | MenuState(menu_state::DEFAULT_ITEM), MenuState(0x1008));
    assert_eq!(MenuType::default(), MenuType(0));
    assert_eq!(MenuState::default(), MenuState(0));
}

fn control_text(id: u16, control: impl ControlTrait) -> String {
    let mut w: Vec<u8> = Vec::new();
    write_control_line(&mut w, &Id(id), &control.into_control(), lang_enu());
    text(w)
}

fn basic(bits: u32) -> WindowStyle {
    WindowStyle(Some(bits), None)
}

fn extended(bits: u32) -> WindowStyle {
    WindowStyle(None, Some(bits))
}

#[test]
fn control_line_has_styles_only_when_given() {
    let button = || Control::from_template(ControlTemplate::pushbutton()).text(MultiLangText::universal("OK"));
    assert_eq!(control_text(1, button()), "\tPUSHBUTTON \"OK\", 1, 0L, 0L, 0L, 0L\n");
    assert_eq!(
        control_text(1, button().rect(Rect::new(10, 20, 50, 14))),
        "\tPUSHBUTTON \"OK\", 1, 10L, 20L, 50L, 14L\n"
    );
    assert_eq!(
        control_text(1, button().style(ButtonControlStyle::from(basic(window_style::TAB_STOP)))),
        "\tPUSHBUTTON \"OK\", 1, 0L, 0L, 0L, 0L, 65536L\n"
    );
    assert_eq!(
        control_text(1, button().style(ButtonControlStyle::from(extended(window_ex_style::CLIENT_EDGE)))),
        "\tPUSHBUTTON \"OK\", 1, 0L, 0L, 0L, 0L, , 512L\n"
    );
    assert_eq!(
        control_text(
            1,
            button()
                .style(ButtonControlStyle::from(basic(window_style::TAB_STOP)))
                .style(ButtonControlStyle::from(ControlStyle(extended(window_ex_style::CLIENT_EDGE))))
                .style(ButtonControlStyle::from(basic(window_style::GROUP)))
        ),
        "\tPUSHBUTTON \"OK\", 1, 0L, 0L, 0L, 0L, 196608L, 512L\n"
    );
}

#[test]
fn control_line_of_each_kind() {
    let t = |s: &str| MultiLangText::universal(s);
    assert_eq!(
        control_text(2, Control::from_template(ControlTemplate::ltext()).text(t("a\tb"))),
        "\tLTEXT \"a\\011b\", 2, 0L, 0L, 0L, 0L\n"
    );
    assert_eq!(
        control_text(2, Control::from_template(ControlTemplate::ltext())),
        "\tLTEXT \"\", 2, 0L, 0L, 0L, 0L\n"
    );
    assert_eq!(
        control_text(
            2,
            Control::from_template(ControlTemplate::ctext())
                .text(MultiLangText::empty().lang(lang_deu(), "nur"))
                .style(StaticControlStyle(ControlStyle(basic(static_control_style::NOTIFY))))
        ),
        "\tCTEXT \"\", 2, 0L, 0L, 0L, 0L, 256L\n"
    );
    assert_eq!(
        control_text(2, Control::from_template(ControlTemplate::icon()).image_id(Id(7)).rect(Rect::new(1, 1, 0, 0))),
        "\tICON 7, 2, 1L, 1L, 0L, 0L\n"
    );
    assert_eq!(
        control_text(
            3,
            Control::from_template(ControlTemplate::edittext())
                .rect(Rect::new(0, 0, 80, 12))
                .style(EditControlStyle::from(basic(window_style::BORDER)))
        ),
        "\tEDITTEXT \"\", 3, 0L, 0L, 80L, 12L, 8388608L\n"
    );
    assert_eq!(
        control_text(
            4,
            Control::from_template(ControlTemplate::combobox())
                .rect(Rect::new(0, 0, 80, 12))
                .style(ComboBoxControlStyle::from(basic(window_style::VERTICAL_SCROLLBAR)))
        ),
        "\tCOMBOBOX 4, 0L, 0L, 80L, 12L, 2097152L\n"
    );
    assert_eq!(
        control_text(
            5,
            Control::from_template(ControlTemplate::listbox())
                .rect(Rect::new(0, 0, 80, 12))
                .style(ListBoxControlStyle::from(extended(window_ex_style::STATIC_EDGE)))
        ),
        "\tLISTBOX 5, 0L, 0L, 80L, 12L, , 131072L\n"
    );
    assert_eq!(
        control_text(
            6,
            Control::from_template(ControlTemplate::scrollbar())
                .rect(Rect::new(0, 0, 8, 80))
                .style(ScrollBarControlStyle::from(basic(window_style::DISABLED)))
        ),
        "\tSCROLLBAR \"\", 6, 0L, 0L, 8L, 80L, 134217728L\n"
    );
    for (template, name) in [
        (ControlTemplate::auto3state(), "AUTO3STATE"),
        (ControlTemplate::autocheckbox(), "AUTOCHECKBOX"),
        (ControlTemplate::autoradiobutton(), "AUTORADIOBUTTON"),
        (ControlTemplate::checkbox(), "CHECKBOX"),
        (ControlTemplate::defpushbutton(), "DEFPUSHBUTTON"),
        (ControlTemplate::groupbox(), "GROUPBOX"),
        (ControlTemplate::pushbox(), "PUSHBOX"),
        (ControlTemplate::pushbutton(), "PUSHBUTTON"),
        (ControlTemplate::radiobutton(), "RADIOBUTTON"),
        (ControlTemplate::state3(), "STATE3"),
    ] {
        assert_eq!(
            control_text(9, Control::from_template(template).text(t("b"))),
            format!("\t{} \"b\", 9, 0L, 0L, 0L, 0L\n", name)
        );
    }
    assert_eq!(
        control_text(9, Control::from_template(ControlTemplate::rtext()).text(t("r"))),
        "\tRTEXT \"r\", 9, 0L, 0L, 0L, 0L\n"
    );
}

#[test]
fn control_without_a_statement_of_its_own_names_class_and_style() {
    let control = Control {
        template: None,
        text_or_image: Some(IdOrLangSpecificStr::LangSpecificStr(MultiLangText::universal("t").0)),
        rect: Some(Rect::new(1, 2, 3, 4)),
        class: Some("SysListView32".to_string()),
        style: Some(ControlStyle(WindowStyle(Some(5), Some(6)))),
    };
    let mut w: Vec<u8> = Vec::new();
    write_control_line(&mut w, &Id(8), &control, lang_enu());
    assert_eq!(text(w), "\tCONTROL \"t\", 8, \"SysListView32\", 5L, 1L, 2L, 3L, 4L, 6L\n");
    let bare = Control {
        template: None,
        text_or_image: Some(IdOrLangSpecificStr::Id(None)),
        rect: None,
        class: None,
        style: Some(ControlStyle(WindowStyle(Some(0), None))),
    };
    let mut w: Vec<u8> = Vec::new();
    write_control_line(&mut w, &Id(8), &bare, lang_enu());
    assert_eq!(text(w), "\tCONTROL 65535, 8, \"\", 0L, 0L, 0L, 0L, 0L\n");
}

fn dialog_text(data: &DialogData, lang: resw::Lang) -> String {
    let mut w: Vec<u8> = Vec::new();
    data.write_script_segment(&mut w, lang, &IdOrName::Id(Id(100)));
    text(w)
}

#[test]
fn dialog_with_nothing_declared_is_there_for_every_language() {
    let data = Dialog::from_builder().into_data();
    assert!(!data.is_missing_for_lang(lang_enu()));
    assert_eq!(dialog_text(&data, lang_enu()), "LANGUAGE 0x9, 0x1\n100 DIALOGEX  0L, 0L, 0L, 0L\n{\n}\n");
}

#[test]
fn dialog_header_has_its_statements_in_a_fixed_order() {
    let data = Dialog::from_builder()
        .rect(Rect::new(0, 0, 200, 100))
        .lang_specific_rect(lang_deu(), Rect::new(0, 0, 240, 100))
        .caption(MultiLangText::universal("About").lang(lang_deu(), "Über"))
        .font("MS Shell Dlg", FontSize::pt(8), FontWeight::default(), FontItalic::default(), FontCharset::default())
        .lang_specific_font(lang_chs(), "SimSun", FontSize::pt(9), FontWeight(weight::BOLD), FontItalic(1), FontCharset(charset::GB2312))
        .system_menu()
        .style(DialogStyle(WindowStyle(Some(dialog_style::MODAL_FRAME | dialog_style::SET_FONT), Some(window_ex_style::TOP_MOST))))
        .control(Id(1), Control::from_template(ControlTemplate::defpushbutton()).text(MultiLangText::universal("OK")).rect(Rect::new(75, 80, 50, 14)))
        .into_data();
    assert_eq!(
        dialog_text(&data, lang_enu()),
        "LANGUAGE 0x9, 0x1\n100 DIALOGEX  0L, 0L, 200L, 100L\nCAPTION \"About\"\nFONT 8L, \"MS Shell Dlg\", 0L, 0L, 1\nSTYLE 13107392L EXSTYLE 8L\n{\n\tDEFPUSHBUTTON \"OK\", 1, 75L, 80L, 50L, 14L\n}\n"
    );
    assert_eq!(
        dialog_text(&data, lang_deu()),
        "LANGUAGE 0x7, 0x1\n100 DIALOGEX  0L, 0L, 240L, 100L\nCAPTION \"Über\"\nFONT 8L, \"MS Shell Dlg\", 0L, 0L, 1\nSTYLE 13107392L EXSTYLE 8L\n{\n\tDEFPUSHBUTTON \"OK\", 1, 75L, 80L, 50L, 14L\n}\n"
    );
    assert_eq!(
        dialog_text(&data, lang_chs()),
        "LANGUAGE 0x4, 0x2\n100 DIALOGEX  0L, 0L, 200L, 100L\nCAPTION \"About\"\nFONT 9L, \"SimSun\", 700L, 1L, 134\nSTYLE 13107392L EXSTYLE 8L\n{\n\tDEFPUSHBUTTON \"OK\", 1, 75L, 80L, 50L, 14L\n}\n"
    );
}

#[test]
fn dialog_header_has_help_identifier_class_menu_and_extra_numbers_where_declared() {
    let mut data = Dialog::from_builder().into_data();
    data.help_id.insert_universal(9);
    data.help_id.insert_lang_specific(lang_deu(), -1);
    data.extra_info.insert_universal(resw::ExtraInfo { characteristics: Some(1), version: Some(2) });
    data.class = Some(IdOrName::from_name("MyDlg"));
    data.menu = Some(IdOrName::Id(Id(3)));
    data.style = Some(DialogStyle(WindowStyle(None, Some(1))));
    assert_eq!(
        dialog_text(&data, lang_enu()),
        "LANGUAGE 0x9, 0x1\n100 DIALOGEX  0L, 0L, 0L, 0L, 9L 1L 2L\nCLASS \"MyDlg\"\nMENU 3\nEXSTYLE 1L\n{\n}\n"
    );
    assert_eq!(
        dialog_text(&data, lang_deu()),
        "LANGUAGE 0x7, 0x1\n100 DIALOGEX  0L, 0L, 0L, 0L, -1L 1L 2L\nCLASS \"MyDlg\"\nMENU 3\nEXSTYLE 1L\n{\n}\n"
    );
    let mut w: Vec<u8> = Vec::new();
    data.write_resource_header_extras(&mut w, lang_enu());
    assert_eq!(text(w), " 0L, 0L, 0L, 0L, 9L 1L 2L\nCLASS \"MyDlg\"\nMENU 3\nEXSTYLE 1L");
    let mut w: Vec<u8> = Vec::new();
    data.write_resource_segment(&mut w, lang_enu());
    assert_eq!(text(w), "{\n}\n");
}

#[test]
fn dialog_controls_keep_the_order_of_declaration() {
    let label = |s: &str| Control::from_template(ControlTemplate::ltext()).text(MultiLangText::universal(s));
    let data = Dialog::from_builder()
        .lang_specific_control(lang_deu(), Id(1), label("d1"))
        .control(Id(2), label("u2"))
        .lang_specific_control(lang_enu(), Id(3), label("e3"))
        .control(Id(4), label("u4"))
        .lang_specific_control(lang_deu(), Id(5), label("d5"))
        .into_data();
    let lines = |lang| {
        let mut w: Vec<u8> = Vec::new();
        data.write_resource_segment(&mut w, lang);
        text(w)
    };
    let line = |s: &str, id: u16| format!("\tLTEXT \"{}\", {}, 0L, 0L, 0L, 0L\n", s, id);
    assert_eq!(lines(lang_enu()), format!("{{\n{}{}{}}}\n", line("u2", 2), line("e3", 3), line("u4", 4)));
    assert_eq!(
        lines(lang_deu()),
        format!("{{\n{}{}{}{}}}\n", line("d1", 1), line("u2", 2), line("u4", 4), line("d5", 5))
    );
    assert_eq!(lines(lang_chs()), format!("{{\n{}{}}}\n", line("u2", 2), line("u4", 4)));
}

#[test]
fn window_styles_combine_by_part() {
    assert_eq!(WindowStyle::default(), WindowStyle(None, None));
    assert_eq!(basic(1) | basic(2), WindowStyle(Some(3), None));
    assert_eq!(basic(1) | extended(2), WindowStyle(Some(1), Some(2)));
    assert_eq!(extended(4) | extended(2), WindowStyle(None, Some(6)));
    assert_eq!(WindowStyle(None, None) | WindowStyle(None, None), WindowStyle(None, None));
    assert_eq!(basic(0) | WindowStyle(None, None), WindowStyle(Some(0), None));
    assert_eq!(DialogStyle(basic(1)) | DialogStyle(extended(2)), DialogStyle(WindowStyle(Some(1), Some(2))));
    assert_eq!(ControlStyle(basic(1)) | ControlStyle(basic(4)), ControlStyle(basic(5)));
    assert_eq!(DialogStyle::from(basic(1)), DialogStyle(basic(1)));
    assert_eq!(ControlStyle::from(basic(1)), ControlStyle(basic(1)));
    assert_eq!(DialogStyle::default(), DialogStyle(WindowStyle(None, None)));
    assert_eq!(ControlStyle::default(), ControlStyle(WindowStyle(None, None)));
    assert_eq!(resw::dialog::option_dword_bitor(Some(1), Some(6)), Some(7));
    assert_eq!(resw::dialog::option_dword_bitor(None, Some(6)), Some(6));
    assert_eq!(resw::dialog::option_dword_bitor(Some(1), None), Some(1));
    assert_eq!(resw::dialog::option_dword_bitor(None, None), None);
}

#[test]
fn style_bits_by_name() {
    assert_eq!(window_style::POPUP, 0x80000000);
    assert_eq!(window_style::CAPTION, 0x00C00000);
    assert_eq!(window_style::SYSTEM_MENU, 0x00080000);
    assert_eq!(window_style::OVERLAPPED_WINDOW, 0x00CF0000);
    assert_eq!(window_style::POPUP_WINDOW, 0x80880000);
    assert_eq!(window_ex_style::OVERLAPPED_WINDOW, 0x00000300);
    assert_eq!(window_ex_style::PALETTE_WINDOW, 0x00000188);
    assert_eq!(dialog_style::SHELL_FONT, 0x48);
    assert_eq!(static_control_style::WORD_ELLIPSIS, 0xC000);
    assert_eq!(static_control_content_type::ETCHED_FRAME, 0x12);
    assert_eq!(StaticControlContentType(static_control_content_type::ICON), StaticControlContentType(3));
    assert_eq!(virt_key::NUM_0, 0x30);
    assert_eq!(virt_key::LETTER_Z, 0x5A);
    assert_eq!(virt_key::F24, 0x87);
    assert_eq!(virt_key::OEM_CLEAR, 0xFE);
    assert_eq!(weight::HEAVY, 900);
    assert_eq!(charset::SHIFT_JIS, 128);
    assert_eq!(menu_type::RIGHT_JUSTIFY, 0x4000);
    assert_eq!(menu_state::HIGHLIGHTED, 0x80);
}

#[test]
fn single_value_can_hold_any_type() {
    let mut m: OptionLangSpecific<Rect> = OptionLangSpecific::new();
    m.insert_lang_specific(lang_enu(), Rect::new(1, 2, 3, 4));
    assert_eq!(m.get(lang_enu()), Some(&Rect::new(1, 2, 3, 4)));
    assert_eq!(Rect::default(), Rect::new(0, 0, 0, 0));
}
