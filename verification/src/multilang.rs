//! Values that depend on the display language.
//!
//! A value is declared either for every language (a universal entry) or
//! for one language. There are two containers. In [`OptionLangSpecific`] an
//! entry for a language overrides the universal entry. In
//! [`VecLangSpecific`] the entries for a language are merged with the
//! universal entries, in the order in which they were declared.

use crate::lang::Lang;
use vstd::prelude::*;

verus! {

/// What a language sees of a map from keys to values, where the key `None`
/// holds the universal entry: its own entry, else the universal one, else
/// nothing.
pub open spec fn resolve<T>(entries: Map<Option<Lang>, T>, lang: Lang) -> Option<T> {
    if entries.contains_key(Some(lang)) {
        Some(entries[Some(lang)])
    } else if entries.contains_key(None) {
        Some(entries[None])
    } else {
        None
    }
}

/// Where only a universal entry was declared, every language sees the same.
pub proof fn lemma_universal_fallback_is_language_invariant<T>(
    entries: Map<Option<Lang>, T>,
    l1: Lang,
    l2: Lang,
)
    requires
        forall|l: Lang| !entries.contains_key(Some(l)),
    ensures
        resolve(entries, l1) == resolve(entries, l2),
{
}

/// An entry for a language hides the universal entry from that language and
/// from no other.
pub proof fn lemma_specific_entry_overrides<T>(
    entries: Map<Option<Lang>, T>,
    lang: Lang,
    other: Lang,
    v: T,
)
    requires
        other != lang,
    ensures
        resolve(entries.insert(Some(lang), v), lang) == Some(v),
        resolve(entries.insert(Some(lang), v), other) == resolve(entries, other),
{
}

/// Declaring a value again under a key leaves the last value alone: the
/// earlier one is replaced.
pub proof fn lemma_reinsertion_replaces<T>(
    entries: Map<Option<Lang>, T>,
    key: Option<Lang>,
    first: T,
    second: T,
)
    ensures
        entries.insert(key, first).insert(key, second) == entries.insert(key, second),
        entries.insert(key, second).insert(key, second) == entries.insert(key, second),
{
    assert(entries.insert(key, first).insert(key, second) =~= entries.insert(key, second));
    assert(entries.insert(key, second).insert(key, second) =~= entries.insert(key, second));
}

/// A single value per language: at most one universal entry, and at most
/// one entry for each language.
pub struct OptionLangSpecific<T> {
    universal: Option<T>,
    specific: Vec<(Lang, T)>,
}

impl<T> View for OptionLangSpecific<T> {
    type V = Map<Option<Lang>, T>;

    closed spec fn view(&self) -> Map<Option<Lang>, T> {
        Map::new(
            |key: Option<Lang>|
                match key {
                    None => self.universal is Some,
                    Some(lang) => has_language(self.specific@, lang),
                },
            |key: Option<Lang>|
                match key {
                    None => self.universal->0,
                    Some(lang) => self.specific@[index_of_language(self.specific@, lang)].1,
                },
        )
    }
}

/// Whether one of the entries is for `lang`.
spec fn has_language<T>(entries: Seq<(Lang, T)>, lang: Lang) -> bool {
    exists|i: int| 0 <= i < entries.len() && (#[trigger] entries[i]).0 == lang
}

/// The place of an entry for `lang`.
spec fn index_of_language<T>(entries: Seq<(Lang, T)>, lang: Lang) -> int {
    choose|i: int| 0 <= i < entries.len() && (#[trigger] entries[i]).0 == lang
}

impl<T> OptionLangSpecific<T> {
    #[verifier::type_invariant]
    spec fn one_entry_per_language(self) -> bool {
        forall|i: int, j: int|
            0 <= i < j < self.specific@.len() ==> (#[trigger] self.specific@[i]).0 != (
            #[trigger] self.specific@[j]).0
    }

    proof fn lemma_view(self)
        ensures
            self@.contains_key(None) <==> self.universal is Some,
            self.universal is Some ==> self@[None] == self.universal->0,
            forall|lang: Lang| #[trigger]
                self@.contains_key(Some(lang)) <==> has_language(self.specific@, lang),
            forall|lang: Lang|
                has_language(self.specific@, lang) ==> #[trigger] self@[Some(lang)]
                    == self.specific@[index_of_language(self.specific@, lang)].1,
    {
    }

    /// What the language `lang` sees.
    pub open spec fn resolved(&self, lang: Lang) -> Option<T> {
        resolve(self@, lang)
    }

    /// The container without entries.
    pub fn new() -> (r: Self)
        ensures
            r@ == Map::<Option<Lang>, T>::empty(),
    {
        let r = OptionLangSpecific { universal: None, specific: Vec::new() };
        proof {
            r.lemma_view();
            assert forall|key: Option<Lang>| !r@.contains_key(key) by {
                if let Some(lang) = key {
                    assert(!has_language(r.specific@, lang));
                }
            }
            assert(r@ =~= Map::<Option<Lang>, T>::empty());
        }
        r
    }

    fn position(&self, lang: Lang) -> (r: Option<usize>)
        ensures
            match r {
                Some(i) => i < self.specific@.len() && self.specific@[i as int].0 == lang
                    && index_of_language(self.specific@, lang) == i,
                None => !has_language(self.specific@, lang),
            },
    {
        proof {
            use_type_invariant(self);
        }
        let mut i: usize = 0;
        while i < self.specific.len()
            invariant
                i <= self.specific@.len(),
                self.one_entry_per_language(),
                forall|k: int| 0 <= k < i ==> (#[trigger] self.specific@[k]).0 != lang,
            decreases self.specific@.len() - i,
        {
            if self.specific[i].0 == lang {
                return Some(i);
            }
            i += 1;
        }
        None
    }

    /// Declares `v` for the language `lang`, in place of what was declared
    /// for it before.
    pub fn insert_lang_specific(&mut self, lang: Lang, v: T)
        ensures
            final(self)@ == old(self)@.insert(Some(lang), v),
    {
        proof {
            use_type_invariant(&*self);
        }
        let ghost before = *self;
        match self.position(lang) {
            Some(i) => {
                let mut specific: Vec<(Lang, T)> = Vec::new();
                std::mem::swap(&mut self.specific, &mut specific);
                specific.set(i, (lang, v));
                std::mem::swap(&mut self.specific, &mut specific);
                proof {
                    let after = *self;
                    assert forall|l: Lang|
                        has_language(after.specific@, l) == (l == lang || has_language(
                            before.specific@,
                            l,
                        )) by {
                        if has_language(before.specific@, l) {
                            let k = index_of_language(before.specific@, l);
                            assert(after.specific@[k].0 == l);
                        }
                        if has_language(after.specific@, l) && l != lang {
                            let k = index_of_language(after.specific@, l);
                            assert(before.specific@[k].0 == l);
                        }
                        if l == lang {
                            assert(after.specific@[i as int].0 == l);
                        }
                    }
                    assert forall|l: Lang| l != lang && has_language(before.specific@, l) implies {
                        after.specific@[index_of_language(after.specific@, l)].1
                            == before.specific@[index_of_language(before.specific@, l)].1
                    } by {
                        let k = index_of_language(before.specific@, l);
                        assert(after.specific@[k].0 == l);
                    }
                    assert(after@ =~= before@.insert(Some(lang), v));
                }
            },
            None => {
                let mut specific: Vec<(Lang, T)> = Vec::new();
                std::mem::swap(&mut self.specific, &mut specific);
                specific.push((lang, v));
                std::mem::swap(&mut self.specific, &mut specific);
                proof {
                    let after = *self;
                    let last = before.specific@.len() as int;
                    assert(after.specific@[last].0 == lang);
                    assert forall|l: Lang|
                        has_language(after.specific@, l) == (l == lang || has_language(
                            before.specific@,
                            l,
                        )) by {
                        if has_language(before.specific@, l) {
                            let k = index_of_language(before.specific@, l);
                            assert(after.specific@[k].0 == l);
                        }
                        if has_language(after.specific@, l) && l != lang {
                            let k = index_of_language(after.specific@, l);
                            assert(before.specific@[k].0 == l);
                        }
                    }
                    assert forall|l: Lang| l != lang && has_language(before.specific@, l) implies {
                        after.specific@[index_of_language(after.specific@, l)].1
                            == before.specific@[index_of_language(before.specific@, l)].1
                    } by {
                        let k = index_of_language(before.specific@, l);
                        assert(after.specific@[k].0 == l);
                    }
                    assert(after@ =~= before@.insert(Some(lang), v));
                }
            },
        }
    }

    /// Declares `v` for every language, in place of what was declared for
    /// every language before.
    pub fn insert_universal(&mut self, v: T)
        ensures
            final(self)@ == old(self)@.insert(None, v),
    {
        proof {
            use_type_invariant(&*self);
        }
        let ghost before = *self;
        self.universal = Some(v);
        assert(self@ =~= before@.insert(None, v));
    }

    /// Takes out what was declared under `key`, if anything was.
    pub(crate) fn take(&mut self, key: Option<Lang>) -> (r: Option<T>)
        ensures
            final(self)@ == old(self)@.remove(key),
            r == if old(self)@.contains_key(key) {
                Some(old(self)@[key])
            } else {
                None
            },
    {
        proof {
            use_type_invariant(&*self);
        }
        let ghost before = *self;
        match key {
            None => {
                let mut universal: Option<T> = None;
                std::mem::swap(&mut self.universal, &mut universal);
                proof {
                    before.lemma_view();
                    self.lemma_view();
                    assert(self@ =~= before@.remove(key));
                }
                universal
            },
            Some(lang) => match self.position(lang) {
                Some(i) => {
                    let mut specific: Vec<(Lang, T)> = Vec::new();
                    std::mem::swap(&mut self.specific, &mut specific);
                    let entry = specific.remove(i);
                    std::mem::swap(&mut self.specific, &mut specific);
                    proof {
                        let after = *self;
                        before.lemma_view();
                        after.lemma_view();
                        assert forall|l: Lang|
                            has_language(after.specific@, l) == (l != lang && has_language(
                                before.specific@,
                                l,
                            )) by {
                            if has_language(before.specific@, l) && l != lang {
                                let k = index_of_language(before.specific@, l);
                                if k < i {
                                    assert(after.specific@[k].0 == l);
                                } else {
                                    assert(after.specific@[k - 1].0 == l);
                                }
                            }
                            if has_language(after.specific@, l) {
                                let k = index_of_language(after.specific@, l);
                                if k < i {
                                    assert(before.specific@[k].0 == l);
                                } else {
                                    assert(before.specific@[k + 1].0 == l);
                                }
                            }
                        }
                        assert forall|l: Lang| l != lang && has_language(before.specific@, l) implies {
                            after.specific@[index_of_language(after.specific@, l)].1
                                == before.specific@[index_of_language(before.specific@, l)].1
                        } by {
                            let k = index_of_language(after.specific@, l);
                            if k < i {
                                assert(before.specific@[k].0 == l);
                            } else {
                                assert(before.specific@[k + 1].0 == l);
                            }
                        }
                        assert(after@ =~= before@.remove(key));
                    }
                    Some(entry.1)
                },
                None => {
                    proof {
                        before.lemma_view();
                        assert(self@ =~= before@.remove(key));
                    }
                    None
                },
            },
        }
    }

    /// What the language `lang` sees: the entry for it, else the universal
    /// entry, else nothing.
    pub fn get(&self, lang: Lang) -> (r: Option<&T>)
        ensures
            match r {
                Some(v) => self.resolved(lang) == Some(*v),
                None => self.resolved(lang) is None,
            },
    {
        match self.position(lang) {
            Some(i) => Some(&self.specific[i].1),
            None => match &self.universal {
                Some(v) => Some(v),
                None => None,
            },
        }
    }
}

/// Whether an entry declared under `key` is seen by the language `lang`.
pub open spec fn visible_to(key: Option<Lang>, lang: Lang) -> bool {
    key is None || key == Some(lang)
}

/// What the language `lang` sees of a list of entries: the values of the
/// universal entries and of its own, in the order of the list.
pub open spec fn selection<T>(entries: Seq<(Option<Lang>, T)>, lang: Lang) -> Seq<T>
    decreases entries.len(),
{
    if entries.len() == 0 {
        Seq::empty()
    } else if visible_to(entries.last().0, lang) {
        selection(entries.drop_last(), lang).push(entries.last().1)
    } else {
        selection(entries.drop_last(), lang)
    }
}

/// Whether `sub` is `full` with some of its places left out: `places` names,
/// in rising order, the place in `full` of each element of `sub`.
pub open spec fn is_subsequence_at<T>(sub: Seq<T>, full: Seq<T>, places: Seq<int>) -> bool {
    &&& places.len() == sub.len()
    &&& forall|k: int| 0 <= k < places.len() ==> 0 <= #[trigger] places[k] < full.len()
    &&& forall|k: int, m: int| 0 <= k < m < places.len() ==> places[k] < places[m]
    &&& forall|k: int| 0 <= k < sub.len() ==> #[trigger] sub[k] == full[places[k]]
}

/// The places, in a list of entries, of the entries that `lang` sees.
pub open spec fn selected_places<T>(entries: Seq<(Option<Lang>, T)>, lang: Lang) -> Seq<int>
    decreases entries.len(),
{
    if entries.len() == 0 {
        Seq::empty()
    } else if visible_to(entries.last().0, lang) {
        selected_places(entries.drop_last(), lang).push(entries.len() - 1)
    } else {
        selected_places(entries.drop_last(), lang)
    }
}

/// What a language sees is the list itself with the entries of the other
/// languages left out. Nothing is reordered: the values stand in the order
/// of declaration. An entry is seen exactly when it is universal or of that
/// language; so every universal entry is seen by every language.
pub proof fn lemma_selection_is_stable<T>(entries: Seq<(Option<Lang>, T)>, lang: Lang)
    ensures
        is_subsequence_at(
            selection(entries, lang),
            entries.map_values(|e: (Option<Lang>, T)| e.1),
            selected_places(entries, lang),
        ),
        forall|i: int|
            0 <= i < entries.len() ==> (selected_places(entries, lang).contains(i) <==> visible_to(
                (#[trigger] entries[i]).0,
                lang,
            )),
        forall|i: int|
            0 <= i < entries.len() && (#[trigger] entries[i]).0 is None ==> selected_places(
                entries,
                lang,
            ).contains(i),
    decreases entries.len(),
{
    let values = entries.map_values(|e: (Option<Lang>, T)| e.1);
    let places = selected_places(entries, lang);
    if entries.len() > 0 {
        let front = entries.drop_last();
        lemma_selection_is_stable(front, lang);
        let front_places = selected_places(front, lang);
        let front_values = front.map_values(|e: (Option<Lang>, T)| e.1);
        assert forall|k: int| 0 <= k < front.len() implies front_values[k] == values[k] by {}
        let last = entries.len() - 1;
        assert forall|i: int| 0 <= i < entries.len() implies (places.contains(i) <==> visible_to(
            (#[trigger] entries[i]).0,
            lang,
        )) by {
            if i < last {
                assert(entries[i] == front[i]);
                if front_places.contains(i) {
                    let k = choose|k: int| 0 <= k < front_places.len() && front_places[k] == i;
                    assert(places[k] == i);
                }
                if places.contains(i) {
                    let k = choose|k: int| 0 <= k < places.len() && places[k] == i;
                    assert(front_places[k] == i);
                }
            } else {
                if visible_to(entries[i].0, lang) {
                    assert(places[places.len() - 1] == i);
                }
                if places.contains(i) {
                    let k = choose|k: int| 0 <= k < places.len() && places[k] == i;
                    if !visible_to(entries[i].0, lang) {
                        assert(front_places[k] < front.len());
                    }
                }
            }
        }
    }
}

/// A list of values per language, in the order of declaration.
pub struct VecLangSpecific<T> {
    entries: Vec<(Option<Lang>, T)>,
}

impl<T> View for VecLangSpecific<T> {
    type V = Seq<(Option<Lang>, T)>;

    closed spec fn view(&self) -> Seq<(Option<Lang>, T)> {
        self.entries@
    }
}

impl<T> VecLangSpecific<T> {
    /// What the language `lang` sees.
    pub open spec fn selected(&self, lang: Lang) -> Seq<T> {
        selection(self@, lang)
    }

    /// The list without entries.
    pub fn new() -> (r: Self)
        ensures
            r@ == Seq::<(Option<Lang>, T)>::empty(),
    {
        VecLangSpecific { entries: Vec::new() }
    }

    /// Declares `v` for every language, after all that was declared before.
    pub fn push_universal(&mut self, v: T)
        ensures
            final(self)@ == old(self)@.push((None, v)),
            forall|l: Lang| #[trigger] final(self).selected(l) == old(self).selected(l).push(v),
    {
        self.entries.push((None, v));
        proof {
            let before = old(self)@;
            assert(self@.drop_last() =~= before);
        }
    }

    /// Declares `v` for the language `lang`, after all that was declared
    /// before.
    pub fn push_lang_specific(&mut self, lang: Lang, v: T)
        ensures
            final(self)@ == old(self)@.push((Some(lang), v)),
            final(self).selected(lang) == old(self).selected(lang).push(v),
            forall|l: Lang| l != lang ==> #[trigger] final(self).selected(l) == old(self).selected(l),
    {
        self.entries.push((Some(lang), v));
        proof {
            let before = old(self)@;
            assert(self@.drop_last() =~= before);
        }
    }

    /// What the language `lang` sees: the universal values and its own, in
    /// the order of declaration.
    pub fn iter(&self, lang: Lang) -> (r: Vec<&T>)
        ensures
            r@.len() == self.selected(lang).len(),
            forall|k: int| 0 <= k < r@.len() ==> *(#[trigger] r@[k]) == self.selected(lang)[k],
    {
        let mut r: Vec<&T> = Vec::new();
        let mut i: usize = 0;
        while i < self.entries.len()
            invariant
                i <= self.entries@.len(),
                r@.len() == selection(self.entries@.take(i as int), lang).len(),
                forall|k: int|
                    0 <= k < r@.len() ==> *(#[trigger] r@[k]) == selection(
                        self.entries@.take(i as int),
                        lang,
                    )[k],
            decreases self.entries@.len() - i,
        {
            proof {
                assert(self.entries@.take(i + 1).drop_last() =~= self.entries@.take(i as int));
            }
            let entry = &self.entries[i];
            let visible = match entry.0 {
                None => true,
                Some(l) => l == lang,
            };
            if visible {
                r.push(&entry.1);
            }
            i += 1;
        }
        proof {
            assert(self.entries@.take(i as int) =~= self.entries@);
        }
        r
    }
}

/// The two optional numbers that may follow the header of a resource.
#[derive(Copy, Clone, PartialEq, Eq, Debug, Structural)]
pub struct ExtraInfo {
    pub characteristics: Option<u32>,
    pub version: Option<u32>,
}

/// A text per language.
pub struct MultiLangText(pub OptionLangSpecific<String>);

impl MultiLangText {
    /// No text for any language.
    pub fn empty() -> (r: MultiLangText)
        ensures
            r.0@ == Map::<Option<Lang>, String>::empty(),
    {
        MultiLangText(OptionLangSpecific::new())
    }

    /// The same, with `text` for the language `lang`.
    pub fn lang(self, lang: Lang, text: &str) -> (r: MultiLangText)
        ensures
            r.0@.dom() == self.0@.dom().insert(Some(lang)),
            r.0@[Some(lang)]@ == text@,
            forall|k: Option<Lang>| k != Some(lang) && self.0@.contains_key(k) ==> r.0@[k] == self.0@[k],
    {
        let mut r = self;
        r.0.insert_lang_specific(lang, text.to_owned());
        r
    }

    /// The text `text` for every language.
    pub fn universal(text: &str) -> (r: MultiLangText)
        ensures
            r.0@.dom() == set![None::<Lang>],
            r.0@[None]@ == text@,
    {
        let mut r = MultiLangText::empty();
        r.0.insert_universal(text.to_owned());
        assert(r.0@.dom() =~= set![None::<Lang>]);
        r
    }
}

} // verus!
