use resw::bytes::bytes_lt;
use resw::id::IdOutOfRange;
use resw::lang::{
    lang_chs, lang_cht, lang_csy, lang_deu, lang_enu, lang_esn, lang_fra, lang_ita, lang_jpn,
    lang_kor, lang_plk, lang_ptb, lang_rus, lang_trk, preset_lang_1, preset_lang_10,
    preset_lang_14, preset_lang_9,
};
use resw::predefined_id;
use resw::{Id, IdOrName, Lang};
use std::cmp::Ordering;

#[test]
fn signed_value_becomes_an_identifier_within_its_range_only() {
    assert_eq!(Id::try_from(-1isize), Ok(Id(0xFFFF)));
    assert_eq!(Id::try_from(0isize), Ok(Id(0)));
    assert_eq!(Id::try_from(1isize), Ok(Id(1)));
    assert_eq!(Id::try_from(0xFFFEisize), Ok(Id(0xFFFE)));
    assert_eq!(Id::try_from(0xFFFFisize), Ok(Id(0xFFFF)));
    assert_eq!(Id::try_from(-2isize), Err(IdOutOfRange(-2)));
    assert_eq!(Id::try_from(0x10000isize), Err(IdOutOfRange(0x10000)));
    assert_eq!(Id::try_from(isize::MIN), Err(IdOutOfRange(isize::MIN)));
    assert_eq!(Id::try_from(isize::MAX), Err(IdOutOfRange(isize::MAX)));
    for v in 0..=0xFFFFisize {
        assert_eq!(Id::try_from(v).unwrap().0 as isize, v);
    }
}

#[test]
fn identifier_or_name_is_made_from_numbers_and_texts() {
    assert_eq!(Id::from(7u16), Id(7));
    assert_eq!(IdOrName::from(7u16), IdOrName::Id(Id(7)));
    assert_eq!(IdOrName::from(Id(8)), IdOrName::Id(Id(8)));
    assert_eq!(IdOrName::from("N".to_string()), IdOrName::Name("N".to_string()));
    assert_eq!(IdOrName::from_name("N"), IdOrName::Name("N".to_string()));
    assert_eq!(IdOrName::try_from(-1isize), Ok(IdOrName::Id(Id(0xFFFF))));
    assert_eq!(IdOrName::try_from(70000isize), Err(IdOutOfRange(70000)));
    assert_eq!(IdOrName::from_name("N").clone(), IdOrName::from_name("N"));
    assert_eq!(IdOrName::Id(Id(3)).clone(), IdOrName::Id(Id(3)));
}

#[test]
fn identifiers_are_equal_when_number_or_text_is() {
    assert!(IdOrName::Id(Id(1)) == IdOrName::Id(Id(1)));
    assert!(IdOrName::Id(Id(1)) != IdOrName::Id(Id(2)));
    assert!(IdOrName::from_name("a") == IdOrName::from_name("a"));
    assert!(IdOrName::from_name("a") != IdOrName::from_name("b"));
    assert!(IdOrName::from_name("1") != IdOrName::Id(Id(1)));
}

#[test]
fn numbers_stand_before_names_in_one_order() {
    let ordered = vec![
        IdOrName::Id(Id(0)),
        IdOrName::Id(Id(1)),
        IdOrName::Id(Id(0xFFFF)),
        IdOrName::from_name(""),
        IdOrName::from_name("A"),
        IdOrName::from_name("a"),
        IdOrName::from_name("ab"),
        IdOrName::from_name("b"),
        IdOrName::from_name("é"),
    ];
    for i in 0..ordered.len() {
        for j in 0..ordered.len() {
            let expected = i.cmp(&j);
            assert_eq!(ordered[i].partial_cmp(&ordered[j]), Some(expected));
            assert_eq!(ordered[i].cmp(&ordered[j]), expected);
            assert_eq!(ordered[i] < ordered[j], i < j);
            assert_eq!(ordered[i] == ordered[j], i == j);
        }
    }
    assert_eq!(Id(1).partial_cmp(&Id(2)), Some(Ordering::Less));
    assert_eq!(Id(2).partial_cmp(&Id(2)), Some(Ordering::Equal));
    assert_eq!(Id(3).partial_cmp(&Id(2)), Some(Ordering::Greater));
    assert_eq!(Id(3).cmp(&Id(2)), Ordering::Greater);
}

#[test]
fn byte_strings_are_ordered_lexicographically() {
    assert!(bytes_lt(b"", b"a"));
    assert!(!bytes_lt(b"", b""));
    assert!(!bytes_lt(b"a", b""));
    assert!(bytes_lt(b"a", b"ab"));
    assert!(bytes_lt(b"ab", b"b"));
    assert!(!bytes_lt(b"b", b"ab"));
    assert!(!bytes_lt(b"ab", b"ab"));
    assert!(bytes_lt(&[1, 255], &[2, 0]));
}

#[test]
fn identifiers_that_may_be_ignored() {
    assert!(IdOrName::Id(Id(0)).is_ignorable());
    assert!(IdOrName::Id(Id(predefined_id::DEFAULT)).is_ignorable());
    assert!(!IdOrName::Id(Id(predefined_id::OK)).is_ignorable());
    assert!(IdOrName::from_name("").is_ignorable());
    assert!(IdOrName::from_name(" ").is_ignorable());
    assert!(IdOrName::from_name("_").is_ignorable());
    assert!(!IdOrName::from_name("-").is_ignorable());
    assert!(!IdOrName::from_name("_ ").is_ignorable());
}

#[test]
fn identifiers_that_every_program_knows() {
    assert_eq!(predefined_id::DEFAULT, 0xFFFF);
    assert_eq!(predefined_id::OK, 1);
    assert_eq!(predefined_id::CANCEL, 2);
    assert_eq!(predefined_id::ABORT, 3);
    assert_eq!(predefined_id::RETRY, 4);
    assert_eq!(predefined_id::IGNORE, 5);
    assert_eq!(predefined_id::YES, 6);
    assert_eq!(predefined_id::NO, 7);
    assert_eq!(predefined_id::CLOSE, 8);
    assert_eq!(predefined_id::HELP, 9);
    assert_eq!(predefined_id::TRY_AGAIN, 10);
    assert_eq!(predefined_id::CONTINUE, 11);
    assert_eq!(predefined_id::TIMEOUT, 32000);
}

#[test]
fn language_keys_are_ordered_by_primary_tag_then_sub_tag() {
    let ordered = vec![Lang::new(0, 0), Lang::new(0, 1), Lang::new(1, 0), Lang::new(1, 2), Lang::new(2, 0)];
    for i in 0..ordered.len() {
        for j in 0..ordered.len() {
            let expected = i.cmp(&j);
            assert_eq!(ordered[i].partial_cmp(&ordered[j]), Some(expected));
            assert_eq!(ordered[i].cmp(&ordered[j]), expected);
            assert_eq!(ordered[i].is_before(&ordered[j]), i < j);
            assert_eq!(ordered[i] == ordered[j], i == j);
        }
    }
}

#[test]
fn keys_of_the_languages_most_in_use() {
    assert_eq!(lang_enu(), Lang(0x09, 0x01));
    assert_eq!(lang_chs(), Lang(0x04, 0x02));
    assert_eq!(lang_cht(), Lang(0x04, 0x01));
    assert_eq!(lang_deu(), Lang(0x07, 0x01));
    assert_eq!(lang_esn(), Lang(0x0a, 0x01));
    assert_eq!(lang_fra(), Lang(0x0c, 0x01));
    assert_eq!(lang_ita(), Lang(0x10, 0x01));
    assert_eq!(lang_jpn(), Lang(0x11, 0x01));
    assert_eq!(lang_kor(), Lang(0x12, 0x01));
    assert_eq!(lang_rus(), Lang(0x19, 0x01));
    assert_eq!(lang_csy(), Lang(0x05, 0x01));
    assert_eq!(lang_plk(), Lang(0x15, 0x01));
    assert_eq!(lang_ptb(), Lang(0x16, 0x01));
    assert_eq!(lang_trk(), Lang(0x1f, 0x01));
    assert_eq!(preset_lang_1(), vec![lang_enu()]);
    assert_eq!(
        preset_lang_9(),
        vec![lang_enu(), lang_chs(), lang_cht(), lang_deu(), lang_esn(), lang_fra(), lang_ita(), lang_jpn(), lang_kor()]
    );
    assert_eq!(preset_lang_10().len(), 10);
    assert_eq!(preset_lang_10()[9], lang_rus());
    assert_eq!(
        preset_lang_14(),
        vec![
            lang_enu(), lang_chs(), lang_cht(), lang_csy(), lang_deu(), lang_esn(), lang_fra(),
            lang_ita(), lang_jpn(), lang_kor(), lang_plk(), lang_ptb(), lang_rus(), lang_trk(),
        ]
    );
}
