use resw::lang::{lang_chs, lang_cht, lang_deu, lang_enu, lang_kor, preset_lang_9};
use resw::resource::{
    Bitmap, Cursor, Font, Icon, MessageTable, RcInline, StringTable, UserDefined, VersionInfo, HTML,
};
use resw::{Build, Id, IdOrName, Lang, Resource};

const BANNER: &str = "// Resource script automatically generated by RESW-RS.\n// Do not edit this file manually.\n\n#pragma code_page(65001)\n";

fn units(s: &str) -> Vec<u16> {
    s.encode_utf16().collect()
}

fn script_of(build: &Build) -> String {
    String::from_utf8(build.generate_script().text).unwrap()
}

fn icon(path: &str) -> Resource {
    Resource::from(Icon::from_file(units(path)))
}

#[test]
fn document_without_resources_is_the_banner() {
    assert_eq!(script_of(&Build::with_one_language()), BANNER);
    assert_eq!(script_of(&Build::with_nine_languages()), BANNER);
    assert_eq!(script_of(&Build::new(&[])), BANNER);
}

#[test]
fn languages_are_written_in_the_order_of_their_keys() {
    let build = Build::new(&[lang_enu(), Lang::new(9, 0), lang_chs(), lang_cht(), lang_enu(), lang_chs()])
        .resource(IdOrName::Id(Id(1)), icon("a.ico"));
    assert_eq!(
        script_of(&build),
        format!(
            "{}LANGUAGE 0x4, 0x1\n1 ICON  \"a.ico\"\nLANGUAGE 0x4, 0x2\n1 ICON  \"a.ico\"\nLANGUAGE 0x9, 0x0\n1 ICON  \"a.ico\"\nLANGUAGE 0x9, 0x1\n1 ICON  \"a.ico\"\n",
            BANNER
        )
    );
}

#[test]
fn nine_languages_are_written_in_the_order_of_their_keys() {
    let build = Build::with_nine_languages().resource(IdOrName::Id(Id(1)), icon("i"));
    let text = script_of(&build);
    let languages: Vec<&str> = text.lines().filter(|l| l.starts_with("LANGUAGE")).collect();
    assert_eq!(
        languages,
        vec![
            "LANGUAGE 0x4, 0x1",
            "LANGUAGE 0x4, 0x2",
            "LANGUAGE 0x7, 0x1",
            "LANGUAGE 0x9, 0x1",
            "LANGUAGE 0xa, 0x1",
            "LANGUAGE 0xc, 0x1",
            "LANGUAGE 0x10, 0x1",
            "LANGUAGE 0x11, 0x1",
            "LANGUAGE 0x12, 0x1",
        ]
    );
    let same = Build::new(&preset_lang_9()).resource(IdOrName::Id(Id(1)), icon("i"));
    assert_eq!(script_of(&same), text);
}

#[test]
fn one_or_two_languages() {
    let one = Build::with_one_or_two_languages(lang_enu()).resource(IdOrName::Id(Id(1)), icon("i"));
    assert_eq!(script_of(&one), format!("{}LANGUAGE 0x9, 0x1\n1 ICON  \"i\"\n", BANNER));
    let two = Build::with_one_or_two_languages(lang_kor()).resource(IdOrName::Id(Id(1)), icon("i"));
    assert_eq!(
        script_of(&two),
        format!("{}LANGUAGE 0x9, 0x1\n1 ICON  \"i\"\nLANGUAGE 0x12, 0x1\n1 ICON  \"i\"\n", BANNER)
    );
    let also_two = Build::with_two_languages(lang_deu()).resource(IdOrName::Id(Id(1)), icon("i"));
    assert_eq!(
        script_of(&also_two),
        format!("{}LANGUAGE 0x7, 0x1\n1 ICON  \"i\"\nLANGUAGE 0x9, 0x1\n1 ICON  \"i\"\n", BANNER)
    );
}

#[test]
fn resources_of_a_language_keep_the_order_of_declaration() {
    let build = Build::with_two_languages(lang_deu())
        .lang_specific_resource(lang_deu(), IdOrName::Id(Id(1)), icon("d1"))
        .resource(IdOrName::Id(Id(2)), icon("u2"))
        .lang_specific_resource(lang_enu(), IdOrName::from_name("E"), icon("e3"))
        .resource(IdOrName::Id(Id(4)), icon("u4"));
    assert_eq!(
        script_of(&build),
        format!(
            "{}LANGUAGE 0x7, 0x1\n1 ICON  \"d1\"\nLANGUAGE 0x7, 0x1\n2 ICON  \"u2\"\nLANGUAGE 0x7, 0x1\n4 ICON  \"u4\"\nLANGUAGE 0x9, 0x1\n2 ICON  \"u2\"\nLANGUAGE 0x9, 0x1\n\"E\" ICON  \"e3\"\nLANGUAGE 0x9, 0x1\n4 ICON  \"u4\"\n",
            BANNER
        )
    );
}

#[test]
fn resource_for_a_language_that_the_document_has_not_is_left_out() {
    let build = Build::with_one_language()
        .resource(IdOrName::Id(Id(1)), icon("u"))
        .lang_specific_resource(lang_chs(), IdOrName::Id(Id(2)), icon("c"));
    assert_eq!(script_of(&build), format!("{}LANGUAGE 0x9, 0x1\n1 ICON  \"u\"\n", BANNER));
}

#[test]
fn file_resources_of_each_kind() {
    let build = Build::with_one_language()
        .resource(IdOrName::Id(Id(1)), Resource::from(Bitmap::from_file(units("b.bmp"))))
        .resource(IdOrName::Id(Id(2)), Resource::from(Cursor::from_file(units("c.cur"))))
        .resource(IdOrName::Id(Id(3)), Resource::from(Font::from_file(units("f.fnt"))))
        .resource(IdOrName::Id(Id(4)), Resource::from(HTML::from_file(units("h.htm"))))
        .resource(IdOrName::Id(Id(5)), Resource::from(Icon::from_file(units("C:\\i.ico"))))
        .resource(IdOrName::Id(Id(6)), Resource::from(MessageTable::from_file(units("é.bin"))));
    let l = "LANGUAGE 0x9, 0x1\n";
    assert_eq!(
        script_of(&build),
        format!(
            "{b}{l}1 BITMAP  \"b.bmp\"\n{l}2 CURSOR  \"c.cur\"\n{l}3 FONT  \"f.fnt\"\n{l}4 HTML  \"h.htm\"\n{l}5 ICON  \"C:\\134i.ico\"\n{l}6 MESSAGETABLE  L\"\\x00e9.bin\"\n",
            b = BANNER,
            l = l
        )
    );
}

#[test]
fn resources_that_are_not_written_yet_leave_no_trace() {
    let build = Build::with_one_language()
        .resource(IdOrName::Id(Id(1)), Resource::from(VersionInfo::from_builder().build()))
        .resource(
            IdOrName::Id(Id(2)),
            Resource::from(RcInline::from_builder().extra_info(Some(1), None).lang_specific_extra_info(lang_enu(), None, Some(2)).build()),
        )
        .resource(IdOrName::Id(Id(3)), Resource::from(UserDefined::from_builder().build()))
        .resource(IdOrName::Id(Id(4)), Resource::from(UserDefined::from_file(units("x.bin"))));
    let script = build.generate_script();
    assert_eq!(String::from_utf8(script.text).unwrap(), BANNER);
    assert!(script.warnings.is_empty());
}

#[test]
fn warnings_name_language_and_identifier_in_the_order_of_the_script() {
    let table = || Resource::from(StringTable::from_builder().string(Id(1), "s").build());
    let german = || Resource::from(StringTable::from_builder().lang_specific_string(lang_deu(), Id(1), "s").build());
    let build = Build::with_two_languages(lang_deu())
        .resource(IdOrName::from_name("A"), table())
        .resource(IdOrName::Id(Id(0)), table())
        .resource(IdOrName::Id(Id(7)), german())
        .resource(IdOrName::Id(Id(8)), icon("i"));
    let script = build.generate_script();
    let warnings: Vec<(Lang, IdOrName)> = script.warnings.into_iter().map(|d| (d.lang, d.id_or_name)).collect();
    assert_eq!(
        warnings,
        vec![
            (lang_deu(), IdOrName::from_name("A")),
            (lang_deu(), IdOrName::Id(Id(7))),
            (lang_enu(), IdOrName::from_name("A")),
        ]
    );
}
