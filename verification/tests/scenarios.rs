use resw::dialog::{Control, ControlTemplate};
use resw::lang::{lang_chs, lang_enu};
use resw::resource::{Dialog, Menu, StringTable};
use resw::{Build, Id, IdOrName, MultiLangText, Rect, Resource};

const BANNER: &str = "// Resource script automatically generated by RESW-RS.\n// Do not edit this file manually.\n\n#pragma code_page(65001)\n";

fn script_of(build: &Build) -> String {
    String::from_utf8(build.generate_script().text).unwrap()
}

#[test]
fn string_table_with_one_string_for_the_only_language() {
    let table = StringTable::from_builder().string(Id(1), "OK").build();
    let build = Build::with_one_language().resource(IdOrName::from(0u16), Resource::from(table));
    let script = build.generate_script();
    let text = String::from_utf8(script.text).unwrap();
    let expected = format!("{}LANGUAGE 0x9, 0x1\nSTRINGTABLE \n{{\n\t1, \"OK\"\n}}\n", BANNER);
    assert_eq!(text, expected);
    let lines_with_ok: Vec<&str> = text.lines().filter(|l| l.contains("\"OK\"")).collect();
    assert_eq!(lines_with_ok, vec!["\t1, \"OK\""]);
    assert!(script.warnings.is_empty());
}

#[test]
fn menu_item_of_one_language_is_absent_from_the_other() {
    let menu = Menu::from_builder()
        .item(Id(10), MultiLangText::empty().lang(lang_enu(), "Open"))
        .build();
    let build = Build::with_two_languages(lang_chs()).resource(IdOrName::from(1u16), Resource::from(menu));
    let text = script_of(&build);
    let expected = format!(
        "{}LANGUAGE 0x9, 0x1\n1 MENUEX \n{{\n\tMENUITEM \"Open\", 10\n}}\n",
        BANNER
    );
    assert_eq!(text, expected);
    assert_eq!(text.matches("MENUITEM").count(), 1);
    assert_eq!(text.matches("POPUP").count(), 0);
    assert!(!text.contains("LANGUAGE 0x4, 0x2"));
}

#[test]
fn menu_with_a_universal_item_and_one_of_one_language() {
    let menu = Menu::from_builder()
        .item(Id(10), MultiLangText::universal("All"))
        .item(Id(11), MultiLangText::empty().lang(lang_enu(), "English"))
        .build();
    let build = Build::with_two_languages(lang_chs()).resource(IdOrName::from(1u16), Resource::from(menu));
    let text = script_of(&build);
    let expected = format!(
        "{}LANGUAGE 0x4, 0x2\n1 MENUEX \n{{\n\tMENUITEM \"All\", 10\n}}\nLANGUAGE 0x9, 0x1\n1 MENUEX \n{{\n\tMENUITEM \"All\", 10\n\tMENUITEM \"English\", 11\n}}\n",
        BANNER
    );
    assert_eq!(text, expected);
}

#[test]
fn dialog_controls_of_a_language_merge_with_the_universal_ones() {
    let dialog = Dialog::from_builder()
        .control(Id(100), Control::from_template(ControlTemplate::ltext()).text(MultiLangText::universal("first")))
        .lang_specific_control(
            lang_enu(),
            Id(101),
            Control::from_template(ControlTemplate::pushbutton())
                .text(MultiLangText::universal("second"))
                .rect(Rect::new(1, 2, 3, 4)),
        )
        .build();
    let build = Build::with_two_languages(lang_chs()).resource(IdOrName::from(7u16), Resource::from(dialog));
    let text = script_of(&build);
    let expected = format!(
        "{}LANGUAGE 0x4, 0x2\n7 DIALOGEX  0L, 0L, 0L, 0L\n{{\n\tLTEXT \"first\", 100, 0L, 0L, 0L, 0L\n}}\nLANGUAGE 0x9, 0x1\n7 DIALOGEX  0L, 0L, 0L, 0L\n{{\n\tLTEXT \"first\", 100, 0L, 0L, 0L, 0L\n\tPUSHBUTTON \"second\", 101, 1L, 2L, 3L, 4L\n}}\n",
        BANNER
    );
    assert_eq!(text, expected);
}

#[test]
fn reserved_identifier_on_a_string_table_brings_no_warning() {
    let table = StringTable::from_builder().string(Id(1), "OK").build();
    let build = Build::with_one_language().resource(IdOrName::from(0xFFFFu16), Resource::from(table));
    assert!(build.generate_script().warnings.is_empty());
}

#[test]
fn other_identifier_on_a_string_table_brings_a_warning() {
    let table = StringTable::from_builder().string(Id(1), "OK").build();
    let build = Build::with_one_language().resource(IdOrName::from(5u16), Resource::from(table));
    let script = build.generate_script();
    assert_eq!(script.warnings.len(), 1);
    assert_eq!(script.warnings[0].lang, lang_enu());
    assert_eq!(script.warnings[0].id_or_name, IdOrName::Id(Id(5)));
    let expected = format!("{}LANGUAGE 0x9, 0x1\nSTRINGTABLE \n{{\n\t1, \"OK\"\n}}\n", BANNER);
    assert_eq!(String::from_utf8(script.text).unwrap(), expected);
}

#[test]
fn script_is_the_same_when_written_twice() {
    let table = StringTable::from_builder().string(Id(1), "OK").lang_specific_string(lang_chs(), Id(2), "好").build();
    let build = Build::with_two_languages(lang_chs()).resource(IdOrName::from(0u16), Resource::from(table));
    let first = build.generate_script();
    let second = build.generate_script();
    assert_eq!(first.text, second.text);
    assert_eq!(first.warnings.len(), second.warnings.len());
}
