use resw::multilang::{OptionLangSpecific, VecLangSpecific};
use resw::{Lang, MultiLangText};

const L1: Lang = Lang(9, 1);
const L2: Lang = Lang(4, 2);
const L3: Lang = Lang(4, 1);

#[test]
fn single_value_with_no_entry_shows_nothing() {
    let m: OptionLangSpecific<u32> = OptionLangSpecific::new();
    assert_eq!(m.get(L1), None);
    assert_eq!(m.get(L2), None);
}

#[test]
fn single_value_with_the_universal_entry_alone_is_the_same_for_every_language() {
    let mut m: OptionLangSpecific<u32> = OptionLangSpecific::new();
    m.insert_universal(7);
    assert_eq!(m.get(L1), Some(&7));
    assert_eq!(m.get(L2), Some(&7));
    assert_eq!(m.get(L1), m.get(L2));
    assert_eq!(m.get(Lang(0xFFFF, 0xFFFF)), Some(&7));
}

#[test]
fn single_value_for_a_language_alone_is_hidden_from_the_others() {
    let mut m: OptionLangSpecific<u32> = OptionLangSpecific::new();
    m.insert_lang_specific(L1, 3);
    assert_eq!(m.get(L1), Some(&3));
    assert_eq!(m.get(L2), None);
    assert_eq!(m.get(Lang(9, 2)), None);
    assert_eq!(m.get(Lang(1, 9)), None);
}

#[test]
fn single_value_for_a_language_overrides_the_universal_one() {
    let mut m: OptionLangSpecific<u32> = OptionLangSpecific::new();
    m.insert_lang_specific(L1, 3);
    m.insert_universal(7);
    m.insert_lang_specific(L2, 4);
    assert_eq!(m.get(L1), Some(&3));
    assert_eq!(m.get(L2), Some(&4));
    assert_eq!(m.get(L3), Some(&7));
}

#[test]
fn single_value_is_replaced_when_declared_again() {
    let mut m: OptionLangSpecific<&str> = OptionLangSpecific::new();
    m.insert_universal("a");
    m.insert_universal("b");
    m.insert_lang_specific(L1, "c");
    m.insert_lang_specific(L2, "x");
    m.insert_lang_specific(L1, "d");
    m.insert_lang_specific(L1, "d");
    assert_eq!(m.get(L1), Some(&"d"));
    assert_eq!(m.get(L2), Some(&"x"));
    assert_eq!(m.get(L3), Some(&"b"));
}

fn seen(list: &VecLangSpecific<u32>, lang: Lang) -> Vec<u32> {
    list.iter(lang).into_iter().copied().collect()
}

#[test]
fn list_with_no_entry_shows_nothing() {
    let list: VecLangSpecific<u32> = VecLangSpecific::new();
    assert_eq!(seen(&list, L1), Vec::<u32>::new());
}

#[test]
fn list_merges_universal_entries_with_those_of_the_language() {
    let mut list: VecLangSpecific<u32> = VecLangSpecific::new();
    list.push_lang_specific(L1, 1);
    list.push_universal(2);
    list.push_lang_specific(L2, 3);
    list.push_lang_specific(L1, 4);
    list.push_universal(5);
    list.push_universal(2);
    list.push_lang_specific(L2, 6);
    assert_eq!(seen(&list, L1), vec![1, 2, 4, 5, 2]);
    assert_eq!(seen(&list, L2), vec![2, 3, 5, 2, 6]);
    assert_eq!(seen(&list, L3), vec![2, 5, 2]);
}

#[test]
fn list_for_a_language_alone_is_hidden_from_the_others() {
    let mut list: VecLangSpecific<u32> = VecLangSpecific::new();
    list.push_lang_specific(L1, 1);
    list.push_lang_specific(L1, 0);
    assert_eq!(seen(&list, L1), vec![1, 0]);
    assert_eq!(seen(&list, L2), Vec::<u32>::new());
}

#[test]
fn list_is_not_sorted() {
    let mut list: VecLangSpecific<u32> = VecLangSpecific::new();
    list.push_universal(9);
    list.push_lang_specific(L1, 1);
    list.push_universal(5);
    assert_eq!(seen(&list, L1), vec![9, 1, 5]);
}

#[test]
fn text_per_language() {
    let empty = MultiLangText::empty();
    assert_eq!(empty.0.get(L1), None);
    let universal = MultiLangText::universal("all");
    assert_eq!(universal.0.get(L1).map(|s| s.as_str()), Some("all"));
    assert_eq!(universal.0.get(L2).map(|s| s.as_str()), Some("all"));
    let both = MultiLangText::universal("all").lang(L1, "one").lang(L1, "uno");
    assert_eq!(both.0.get(L1).map(|s| s.as_str()), Some("uno"));
    assert_eq!(both.0.get(L2).map(|s| s.as_str()), Some("all"));
    let only = MultiLangText::empty().lang(L2, "two");
    assert_eq!(only.0.get(L1), None);
    assert_eq!(only.0.get(L2).map(|s| s.as_str()), Some("two"));
}
