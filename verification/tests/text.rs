use resw::codegen::{
    ensure_id_or_name_ignorable, write_c_int, write_c_long, write_c_numeric, write_c_uchar,
    write_dword, write_extra_info, write_font, write_header, write_id, write_id_or_name,
    write_mandatory_dword, write_mandatory_rect, write_path, write_path_only_resource, write_rect,
    write_resource_header, write_style_and_exstyle_statements, ResourceKind,
};
use resw::digits::{digit_byte, write_decimal, write_hex, write_hex4, write_octal3, write_signed_decimal};
use resw::escape::{
    need_escape_narrow_byte, need_escape_wide_u16, write_mandatory_narrow_str, write_narrow_bytes,
    write_narrow_str, write_os_str_prefer_narrow, write_wide_os_str,
};
use resw::font::{charset, weight, Font};
use resw::{ExtraInfo, FontCharset, FontItalic, FontSize, FontWeight, Id, IdOrName, Lang, Rect};

fn text_of(f: impl FnOnce(&mut Vec<u8>)) -> String {
    let mut w: Vec<u8> = Vec::new();
    f(&mut w);
    String::from_utf8(w).unwrap()
}

fn units(s: &str) -> Vec<u16> {
    s.encode_utf16().collect()
}

#[test]
fn banner_is_two_comment_lines_and_the_code_page() {
    assert_eq!(
        text_of(|w| write_header(w)),
        "// Resource script automatically generated by RESW-RS.\n// Do not edit this file manually.\n\n#pragma code_page(65001)\n"
    );
}

#[test]
fn writers_append_to_what_is_there() {
    let mut w: Vec<u8> = b"x=".to_vec();
    write_dword(&mut w, 12);
    write_narrow_str(&mut w, "a");
    assert_eq!(w, b"x=12L\"a\"".to_vec());
}

#[test]
fn digits_of_each_base() {
    assert_eq!(digit_byte(0), b'0');
    assert_eq!(digit_byte(9), b'9');
    assert_eq!(digit_byte(10), b'a');
    assert_eq!(digit_byte(15), b'f');
    assert_eq!(text_of(|w| write_decimal(w, 0)), "0");
    assert_eq!(text_of(|w| write_decimal(w, 105)), "105");
    assert_eq!(text_of(|w| write_decimal(w, u64::MAX)), "18446744073709551615");
    assert_eq!(text_of(|w| write_signed_decimal(w, -42)), "-42");
    assert_eq!(text_of(|w| write_signed_decimal(w, 42)), "42");
    assert_eq!(text_of(|w| write_signed_decimal(w, i64::MIN)), "-9223372036854775808");
    assert_eq!(text_of(|w| write_hex(w, 0)), "0");
    assert_eq!(text_of(|w| write_hex(w, 0x1f)), "1f");
    assert_eq!(text_of(|w| write_hex(w, 0xABCD)), "abcd");
    assert_eq!(text_of(|w| write_octal3(w, 0)), "000");
    assert_eq!(text_of(|w| write_octal3(w, 7)), "007");
    assert_eq!(text_of(|w| write_octal3(w, 255)), "377");
    assert_eq!(text_of(|w| write_hex4(w, 0xAB)), "00ab");
    assert_eq!(text_of(|w| write_hex4(w, 0xFFFF)), "ffff");
}

#[test]
fn long_literals_have_the_suffix_once_and_short_ones_never() {
    assert_eq!(text_of(|w| write_c_numeric(w, 5, 4)), "5L");
    assert_eq!(text_of(|w| write_c_numeric(w, 5, 3)), "5L");
    assert_eq!(text_of(|w| write_c_numeric(w, 5, 2)), "5");
    assert_eq!(text_of(|w| write_c_numeric(w, 5, 1)), "5");
    assert_eq!(text_of(|w| write_c_numeric(w, -7, 4)), "-7L");
    assert_eq!(text_of(|w| write_c_int(w, 0)), "0L");
    assert_eq!(text_of(|w| write_c_int(w, i32::MIN)), "-2147483648L");
    assert_eq!(text_of(|w| write_c_int(w, i32::MAX)), "2147483647L");
    assert_eq!(text_of(|w| write_c_long(w, 400)), "400L");
    assert_eq!(text_of(|w| write_c_uchar(w, 255)), "255");
    assert_eq!(text_of(|w| write_dword(w, 0)), "0L");
    assert_eq!(text_of(|w| write_dword(w, u32::MAX)), "4294967295L");
    assert_eq!(text_of(|w| write_mandatory_dword(w, Some(&17))), "17L");
    assert_eq!(text_of(|w| write_id(w, &Id(65535))), "65535");
    for v in [0u32, 1, 9, 10, 65535, 65536, u32::MAX] {
        let t = text_of(|w| write_dword(w, v));
        assert_eq!(t.matches('L').count(), 1);
        assert!(t.ends_with('L'));
        let short = text_of(|w| write_c_numeric(w, v as i64, 2));
        assert_eq!(short.matches('L').count(), 0);
    }
}

#[test]
fn narrow_literal_escapes_in_octal() {
    assert!(need_escape_narrow_byte(&0));
    assert!(need_escape_narrow_byte(&31));
    assert!(!need_escape_narrow_byte(&32));
    assert!(need_escape_narrow_byte(&b'"'));
    assert!(need_escape_narrow_byte(&b'\\'));
    assert!(!need_escape_narrow_byte(&126));
    assert!(need_escape_narrow_byte(&127));
    assert!(!need_escape_narrow_byte(&128));
    assert!(!need_escape_narrow_byte(&255));
    assert_eq!(text_of(|w| write_narrow_str(w, "")), "\"\"");
    assert_eq!(text_of(|w| write_narrow_str(w, "OK")), "\"OK\"");
    assert_eq!(
        text_of(|w| write_narrow_str(w, "a\"b\\c\n\u{7f}\0\u{1f} ~")),
        "\"a\\042b\\134c\\012\\177\\000\\037 ~\""
    );
    assert_eq!(text_of(|w| write_narrow_str(w, "é好")), "\"é好\"");
    let mut w: Vec<u8> = Vec::new();
    write_narrow_bytes(&mut w, &[0x80, 0xFF, 0x09]);
    assert_eq!(w, vec![b'"', 0x80, 0xFF, b'\\', b'0', b'1', b'1', b'"']);
    assert_eq!(text_of(|w| write_mandatory_narrow_str(w, None)), "\"\"");
    assert_eq!(text_of(|w| write_mandatory_narrow_str(w, Some("x\t"))), "\"x\\011\"");
}

fn unescape_narrow(text: &[u8]) -> Vec<u8> {
    assert!(text.len() >= 2 && text[0] == b'"' && text[text.len() - 1] == b'"');
    let inner = &text[1..text.len() - 1];
    let mut out = Vec::new();
    let mut i = 0;
    while i < inner.len() {
        if inner[i] == b'\\' {
            let d = |c: u8| (c - b'0') as u32;
            let v = d(inner[i + 1]) * 64 + d(inner[i + 2]) * 8 + d(inner[i + 3]);
            out.push(v as u8);
            i += 4;
        } else {
            out.push(inner[i]);
            i += 1;
        }
    }
    out
}

fn unescape_wide(text: &[u8]) -> Vec<u16> {
    assert!(text.len() >= 3 && text[0] == b'L' && text[1] == b'"' && text[text.len() - 1] == b'"');
    let inner = &text[2..text.len() - 1];
    let mut out = Vec::new();
    let mut i = 0;
    while i < inner.len() {
        if inner[i] == b'\\' && inner[i + 1] == b'\\' {
            out.push(92);
            i += 2;
        } else if inner[i] == b'\\' {
            assert_eq!(inner[i + 1], b'x');
            let s = std::str::from_utf8(&inner[i + 2..i + 6]).unwrap();
            out.push(u16::from_str_radix(s, 16).unwrap());
            i += 6;
        } else {
            out.push(inner[i] as u16);
            i += 1;
        }
    }
    out
}

#[test]
fn narrow_literal_reads_back_to_every_byte() {
    let all: Vec<u8> = (0..=255u8).collect();
    let mut w: Vec<u8> = Vec::new();
    write_narrow_bytes(&mut w, &all);
    assert_eq!(unescape_narrow(&w), all);
}

#[test]
fn wide_literal_escapes_in_hexadecimal() {
    assert!(need_escape_wide_u16(&0));
    assert!(need_escape_wide_u16(&31));
    assert!(!need_escape_wide_u16(&32));
    assert!(need_escape_wide_u16(&34));
    assert!(need_escape_wide_u16(&92));
    assert!(!need_escape_wide_u16(&126));
    assert!(need_escape_wide_u16(&127));
    assert!(need_escape_wide_u16(&128));
    assert!(need_escape_wide_u16(&0xFFFF));
    assert_eq!(text_of(|w| write_wide_os_str(w, &[])), "L\"\"");
    assert_eq!(
        text_of(|w| write_wide_os_str(w, &[0x41, 0x5C, 0x22, 0x4E2D, 0x0A, 0x7F, 0x20, 0x7E])),
        "L\"A\\\\\\x0022\\x4e2d\\x000a\\x007f ~\""
    );
}

#[test]
fn wide_literal_reads_back_to_every_unit() {
    let mut all: Vec<u16> = (0..=0x2FFu16).collect();
    all.extend([0x4E2D, 0xD800, 0xFFFF, 0x5C, 0x5C, 0x78]);
    let mut w: Vec<u8> = Vec::new();
    write_wide_os_str(&mut w, &all);
    assert_eq!(unescape_wide(&w), all);
}

#[test]
fn path_is_narrow_exactly_when_every_unit_is_ascii() {
    assert_eq!(
        text_of(|w| write_os_str_prefer_narrow(w, &units("C:\\dir\\a.ico"))),
        "\"C:\\134dir\\134a.ico\""
    );
    assert_eq!(
        text_of(|w| write_os_str_prefer_narrow(w, &units("C:\\图标\\a.ico"))),
        "L\"C:\\\\\\x56fe\\x6807\\\\a.ico\""
    );
    assert_eq!(text_of(|w| write_os_str_prefer_narrow(w, &[0x7F])), "\"\\177\"");
    assert_eq!(text_of(|w| write_os_str_prefer_narrow(w, &[0x80])), "L\"\\x0080\"");
    assert_eq!(text_of(|w| write_os_str_prefer_narrow(w, &[])), "\"\"");
    assert_eq!(text_of(|w| write_path(w, &units("a b"))), "\"a b\"");
}

#[test]
fn rectangle_is_four_long_literals() {
    assert_eq!(text_of(|w| write_rect(w, &Rect::new(1, -2, 3, 4))), "1L, -2L, 3L, 4L");
    assert_eq!(text_of(|w| write_mandatory_rect(w, Some(&Rect::new(5, 6, 7, 8)))), "5L, 6L, 7L, 8L");
    assert_eq!(text_of(|w| write_mandatory_rect(w, None)), "0L, 0L, 0L, 0L");
}

#[test]
fn font_is_size_typeface_weight_italic_and_charset() {
    let font = Font {
        typeface: "Segoe \"UI\"".to_string(),
        size: FontSize::pt(9),
        weight: FontWeight(weight::NORMAL),
        italic: FontItalic(1),
        charset: FontCharset(charset::DEFAULT),
    };
    assert_eq!(text_of(|w| write_font(w, &font)), "9L, \"Segoe \\042UI\\042\", 400L, 1L, 1");
    assert_eq!(FontWeight::default(), FontWeight(0));
    assert_eq!(FontItalic::default(), FontItalic(0));
    assert_eq!(FontCharset::default(), FontCharset(1));
}

#[test]
fn extra_numbers_are_there_only_when_given() {
    let info = |c, v| ExtraInfo { characteristics: c, version: v };
    assert_eq!(text_of(|w| write_extra_info(w, None)), "");
    assert_eq!(text_of(|w| write_extra_info(w, Some(&info(None, None)))), "");
    assert_eq!(text_of(|w| write_extra_info(w, Some(&info(Some(1), None)))), " 1L");
    assert_eq!(text_of(|w| write_extra_info(w, Some(&info(None, Some(2))))), " 2L");
    assert_eq!(text_of(|w| write_extra_info(w, Some(&info(Some(1), Some(2))))), " 1L 2L");
}

#[test]
fn style_statement_has_a_clause_for_each_style_given() {
    assert_eq!(text_of(|w| write_style_and_exstyle_statements(w, None, None)), "");
    assert_eq!(text_of(|w| write_style_and_exstyle_statements(w, Some(3), None)), "\nSTYLE 3L");
    assert_eq!(text_of(|w| write_style_and_exstyle_statements(w, None, Some(4))), "\nEXSTYLE 4L");
    assert_eq!(
        text_of(|w| write_style_and_exstyle_statements(w, Some(3), Some(4))),
        "\nSTYLE 3L EXSTYLE 4L"
    );
}

#[test]
fn identifier_is_a_number_or_a_quoted_name() {
    assert_eq!(text_of(|w| write_id_or_name(w, &IdOrName::Id(Id(12)))), "12");
    assert_eq!(text_of(|w| write_id_or_name(w, &IdOrName::from_name("APP"))), "\"APP\"");
    assert_eq!(text_of(|w| write_id_or_name(w, &IdOrName::from("A\"B".to_string()))), "\"A\\042B\"");
}

fn header_of(lang: Lang, id: &IdOrName, kind: ResourceKind) -> (String, bool) {
    let mut w: Vec<u8> = Vec::new();
    let warning = write_resource_header(&mut w, lang, id, kind);
    (String::from_utf8(w).unwrap(), warning)
}

#[test]
fn resource_header_names_language_identifier_and_kind() {
    let id = IdOrName::Id(Id(5));
    assert_eq!(
        header_of(Lang::new(0x09, 0x01), &id, ResourceKind::Icon),
        ("LANGUAGE 0x9, 0x1\n5 ICON ".to_string(), false)
    );
    assert_eq!(
        header_of(Lang::new(0x1f, 0x10), &IdOrName::from_name("M"), ResourceKind::Menu),
        ("LANGUAGE 0x1f, 0x10\n\"M\" MENUEX ".to_string(), false)
    );
    assert_eq!(
        header_of(Lang::new(0xFFFF, 0), &id, ResourceKind::Dialog),
        ("LANGUAGE 0xffff, 0x0\n5 DIALOGEX ".to_string(), false)
    );
    for (kind, keyword) in [
        (ResourceKind::Bitmap, "BITMAP"),
        (ResourceKind::Cursor, "CURSOR"),
        (ResourceKind::Font, "FONT"),
        (ResourceKind::Html, "HTML"),
        (ResourceKind::Icon, "ICON"),
        (ResourceKind::MessageTable, "MESSAGETABLE"),
        (ResourceKind::Accelerators, "ACCELERATORS"),
        (ResourceKind::Menu, "MENUEX"),
        (ResourceKind::Dialog, "DIALOGEX"),
        (ResourceKind::RcInline, "RCDATA"),
    ] {
        assert_eq!(kind.keyword(), keyword);
        assert_eq!(
            header_of(Lang::new(4, 2), &id, kind),
            (format!("LANGUAGE 0x4, 0x2\n5 {} ", keyword), false)
        );
    }
}

#[test]
fn string_table_header_has_no_identifier() {
    let lang = Lang::new(9, 1);
    let text = "LANGUAGE 0x9, 0x1\nSTRINGTABLE ".to_string();
    assert_eq!(header_of(lang, &IdOrName::Id(Id(0)), ResourceKind::StringTable), (text.clone(), false));
    assert_eq!(header_of(lang, &IdOrName::Id(Id(0xFFFF)), ResourceKind::StringTable), (text.clone(), false));
    assert_eq!(header_of(lang, &IdOrName::from_name(""), ResourceKind::StringTable), (text.clone(), false));
    assert_eq!(header_of(lang, &IdOrName::from_name(" "), ResourceKind::StringTable), (text.clone(), false));
    assert_eq!(header_of(lang, &IdOrName::from_name("_"), ResourceKind::StringTable), (text.clone(), false));
    assert_eq!(header_of(lang, &IdOrName::Id(Id(1)), ResourceKind::StringTable), (text.clone(), true));
    assert_eq!(header_of(lang, &IdOrName::from_name("T"), ResourceKind::StringTable), (text.clone(), true));
    assert_eq!(header_of(lang, &IdOrName::from_name("__"), ResourceKind::StringTable), (text.clone(), true));
}

#[test]
fn version_information_header_always_has_the_identifier_one() {
    let lang = Lang::new(9, 1);
    let text = "LANGUAGE 0x9, 0x1\n1 VERSIONINFO ".to_string();
    assert_eq!(header_of(lang, &IdOrName::Id(Id(1)), ResourceKind::VersionInfo), (text.clone(), false));
    assert_eq!(header_of(lang, &IdOrName::Id(Id(0)), ResourceKind::VersionInfo), (text.clone(), false));
    assert_eq!(header_of(lang, &IdOrName::Id(Id(0xFFFF)), ResourceKind::VersionInfo), (text.clone(), false));
    assert_eq!(header_of(lang, &IdOrName::Id(Id(2)), ResourceKind::VersionInfo), (text.clone(), true));
    assert_eq!(header_of(lang, &IdOrName::from_name("V"), ResourceKind::VersionInfo), (text.clone(), true));
}

#[test]
fn warning_is_due_for_all_but_the_identifiers_that_may_be_ignored() {
    assert!(!ensure_id_or_name_ignorable(&IdOrName::Id(Id(0xFFFF))));
    assert!(!ensure_id_or_name_ignorable(&IdOrName::Id(Id(0))));
    assert!(!ensure_id_or_name_ignorable(&IdOrName::from_name("")));
    assert!(!ensure_id_or_name_ignorable(&IdOrName::from_name(" ")));
    assert!(!ensure_id_or_name_ignorable(&IdOrName::from_name("_")));
    assert!(ensure_id_or_name_ignorable(&IdOrName::Id(Id(1))));
    assert!(ensure_id_or_name_ignorable(&IdOrName::Id(Id(0xFFFE))));
    assert!(ensure_id_or_name_ignorable(&IdOrName::from_name("a")));
    assert!(ensure_id_or_name_ignorable(&IdOrName::from_name("  ")));
    assert!(ensure_id_or_name_ignorable(&IdOrName::from_name("é")));
}

#[test]
fn file_resource_is_header_and_path_on_one_line() {
    let mut w: Vec<u8> = Vec::new();
    let warning = write_path_only_resource(
        &mut w,
        Lang::new(9, 1),
        &IdOrName::Id(Id(1)),
        ResourceKind::Icon,
        &units("C:\\a.ico"),
    );
    assert!(!warning);
    assert_eq!(String::from_utf8(w).unwrap(), "LANGUAGE 0x9, 0x1\n1 ICON  \"C:\\134a.ico\"\n");
}
