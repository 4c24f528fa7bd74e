//! The document: the resources of a program for each of its languages, and
//! the script that is written from them.
//!
//! The languages of a document are fixed when it is made. A resource is
//! declared for every language or for one of them; each language sees, in
//! the order of declaration, the resources declared for every language and
//! its own. The script goes through the languages in the order of their
//! keys, and within a language through its resources.

use crate::bytes::lemma_concat_assoc;
use crate::codegen::{header_text, write_header};
use crate::id::IdOrName;
use crate::lang::{lang_enu, preset_lang_1, preset_lang_9, Lang};
use crate::multilang::{selection, VecLangSpecific};
use crate::resource::Resource;
use vstd::prelude::*;

verus! {

/// The resources that a language sees, each under its identifier.
pub type ResourceList = Seq<(IdOrName, Resource)>;

/// A warning that came up while the script was written: the identifier
/// `id_or_name` stands, in the resources of `lang`, where the script has no
/// use for one, and was left out.
pub struct Diagnostic {
    pub lang: Lang,
    pub id_or_name: IdOrName,
}

/// A script, and the warnings that came up while it was written.
pub struct Script {
    pub text: Vec<u8>,
    pub warnings: Vec<Diagnostic>,
}

/// Whether the keys stand in rising order, none twice.
pub open spec fn strictly_rising(languages: Seq<Lang>) -> bool {
    forall|i: int, j: int|
        0 <= i < j < languages.len() ==> (#[trigger] languages[i]).precedes(#[trigger] languages[j])
}

/// The languages of a document, in the order of the document.
pub open spec fn languages_of(document: Seq<(Lang, ResourceList)>) -> Seq<Lang> {
    Seq::new(document.len(), |i: int| document[i].0)
}

/// The text of the resources that a language sees.
pub open spec fn list_text(list: ResourceList, lang: Lang) -> Seq<u8>
    decreases list.len(),
{
    if list.len() == 0 {
        Seq::empty()
    } else {
        list_text(list.drop_last(), lang) + list.last().1.script_segment(lang, list.last().0)
    }
}

/// The text of the resources of all languages of a document.
pub open spec fn document_text(document: Seq<(Lang, ResourceList)>) -> Seq<u8>
    decreases document.len(),
{
    if document.len() == 0 {
        Seq::empty()
    } else {
        document_text(document.drop_last()) + list_text(document.last().1, document.last().0)
    }
}

/// The script of a document: the banner, then the resources.
pub open spec fn script_text(document: Seq<(Lang, ResourceList)>) -> Seq<u8> {
    header_text() + document_text(document)
}

/// The warnings that come up for the resources that a language sees.
pub open spec fn list_warnings(list: ResourceList, lang: Lang) -> Seq<Diagnostic>
    decreases list.len(),
{
    if list.len() == 0 {
        Seq::empty()
    } else if list.last().1.script_warns(lang, list.last().0) {
        list_warnings(list.drop_last(), lang).push(Diagnostic { lang, id_or_name: list.last().0 })
    } else {
        list_warnings(list.drop_last(), lang)
    }
}

/// The warnings that come up for a document.
pub open spec fn document_warnings(document: Seq<(Lang, ResourceList)>) -> Seq<Diagnostic>
    decreases document.len(),
{
    if document.len() == 0 {
        Seq::empty()
    } else {
        document_warnings(document.drop_last()) + list_warnings(
            document.last().1,
            document.last().0,
        )
    }
}

/// The script and the warnings are determined by what the languages of the
/// document see: two documents that show the same give the same script and
/// the same warnings, and so does one document written twice.
pub proof fn lemma_script_is_determined(a: Build, b: Build)
    requires
        a@ == b@,
    ensures
        script_text(a@) == script_text(b@),
        document_warnings(a@) == document_warnings(b@),
{
}

/// A document.
pub struct Build {
    languages: Vec<Lang>,
    resources: VecLangSpecific<(IdOrName, Resource)>,
}

impl View for Build {
    type V = Seq<(Lang, ResourceList)>;

    closed spec fn view(&self) -> Seq<(Lang, ResourceList)> {
        Seq::new(
            self.languages@.len(),
            |i: int| (self.languages@[i], selection(self.resources@, self.languages@[i])),
        )
    }
}

impl Build {
    #[verifier::type_invariant]
    spec fn languages_rising(self) -> bool {
        strictly_rising(self.languages@)
    }

    /// Whether `self` is `before` with one more resource, `resource` under
    /// `id_or_name`, at the end of the list of every language that `seen_by`
    /// holds of.
    pub open spec fn is_with_resource(
        self,
        before: Build,
        seen_by: spec_fn(Lang) -> bool,
        id_or_name: IdOrName,
        resource: Resource,
    ) -> bool {
        &&& self@.len() == before@.len()
        &&& forall|i: int|
            0 <= i < self@.len() ==> (#[trigger] self@[i]).0 == before@[i].0 && self@[i].1 == if seen_by(
                before@[i].0,
            ) {
                before@[i].1.push((id_or_name, resource))
            } else {
                before@[i].1
            }
    }

    /// The document of the languages `languages`, without resources. A
    /// language that is named more than once counts once.
    pub fn new(languages: &[Lang]) -> (r: Build)
        ensures
            strictly_rising(languages_of(r@)),
            forall|l: Lang| languages_of(r@).contains(l) <==> languages@.contains(l),
            forall|i: int| 0 <= i < r@.len() ==> (#[trigger] r@[i]).1 == ResourceList::empty(),
    {
        let mut sorted: Vec<Lang> = Vec::new();
        let mut n: usize = 0;
        while n < languages.len()
            invariant
                n <= languages@.len(),
                strictly_rising(sorted@),
                forall|l: Lang| sorted@.contains(l) <==> languages@.take(n as int).contains(l),
            decreases languages@.len() - n,
        {
            let lang = languages[n];
            let mut p: usize = 0;
            while p < sorted.len() && sorted[p].is_before(&lang)
                invariant
                    p <= sorted@.len(),
                    forall|k: int| 0 <= k < p ==> (#[trigger] sorted@[k]).precedes(lang),
                decreases sorted@.len() - p,
            {
                p += 1;
            }
            let ghost before = sorted@;
            let present = p < sorted.len() && sorted[p] == lang;
            if !present {
                sorted.insert(p, lang);
                proof {
                    assert forall|i: int, j: int| 0 <= i < j < sorted@.len() implies (
                    #[trigger] sorted@[i]).precedes(#[trigger] sorted@[j]) by {
                        let bi = if i < p { i } else { i - 1 };
                        let bj = if j < p { j } else { j - 1 };
                        if i != p && j != p {
                            assert(before[bi].precedes(before[bj]));
                        } else if i == p {
                            assert(sorted@[j] == before[j - 1]);
                            if j - 1 > p {
                                assert(before[p as int].precedes(before[j - 1]));
                            }
                        } else {
                            assert(before[i].precedes(lang));
                        }
                    }
                    assert(sorted@[p as int] == lang);
                    assert forall|l: Lang| sorted@.contains(l) <==> (l == lang || before.contains(
                        l,
                    )) by {
                        if before.contains(l) {
                            let k = choose|k: int| 0 <= k < before.len() && before[k] == l;
                            if k < p {
                                assert(sorted@[k] == l);
                            } else {
                                assert(sorted@[k + 1] == l);
                            }
                        }
                        if sorted@.contains(l) && l != lang {
                            let k = choose|k: int| 0 <= k < sorted@.len() && sorted@[k] == l;
                            if k < p {
                                assert(before[k] == l);
                            } else {
                                assert(before[k - 1] == l);
                            }
                        }
                    }
                }
            } else {
                proof {
                    assert(before[p as int] == lang);
                    assert(before.contains(lang));
                }
            }
            proof {
                let done = languages@.take(n as int);
                let next = languages@.take(n + 1);
                assert(next =~= done.push(lang));
                assert forall|l: Lang| sorted@.contains(l) <==> (l == lang || before.contains(
                    l,
                )) by {}
                assert forall|l: Lang| next.contains(l) <==> (l == lang || done.contains(l)) by {
                    if next.contains(l) {
                        let k = choose|k: int| 0 <= k < next.len() && next[k] == l;
                        if k < n {
                            assert(done[k] == l);
                        }
                    }
                    if done.contains(l) {
                        let k = choose|k: int| 0 <= k < done.len() && done[k] == l;
                        assert(next[k] == l);
                    }
                    assert(next[n as int] == lang);
                }
                assert forall|l: Lang| sorted@.contains(l) <==> next.contains(l) by {
                    assert(before.contains(l) <==> done.contains(l));
                }
            }
            n += 1;
        }
        proof {
            assert(languages@.take(n as int) =~= languages@);
        }
        let r = Build { languages: sorted, resources: VecLangSpecific::new() };
        proof {
            assert(languages_of(r@) =~= sorted@);
        }
        r
    }

    /// The document of English alone.
    pub fn with_one_language() -> (r: Build)
        ensures
            r@ == seq![(Lang(0x09, 0x01), ResourceList::empty())],
    {
        let languages = preset_lang_1();
        let r = Build::new(languages.as_slice());
        proof {
            let expected = seq![Lang(0x09, 0x01)];
            assert forall|l: Lang| languages_of(r@).contains(l) <==> expected.contains(l) by {
                assert(languages@[0] == Lang(0x09, 0x01));
                assert(expected[0] == Lang(0x09, 0x01));
            }
            lemma_rising_from_members(languages_of(r@), expected);
            assert(languages_of(r@).len() == r@.len());
            assert(languages_of(r@)[0] == r@[0].0);
            assert(r@ =~= seq![(Lang(0x09, 0x01), ResourceList::empty())]);
        }
        r
    }

    /// The document of English alone where `l` is English, else of English
    /// and `l`.
    pub fn with_one_or_two_languages(l: Lang) -> (r: Build)
        ensures
            strictly_rising(languages_of(r@)),
            forall|k: Lang| languages_of(r@).contains(k) <==> (k == Lang(0x09, 0x01) || k == l),
            forall|i: int| 0 <= i < r@.len() ==> (#[trigger] r@[i]).1 == ResourceList::empty(),
    {
        if l == lang_enu() {
            let r = Self::with_one_language();
            proof {
                assert(languages_of(r@) =~= seq![Lang(0x09, 0x01)]);
                assert(languages_of(r@)[0] == Lang(0x09, 0x01));
            }
            r
        } else {
            Self::with_two_languages(l)
        }
    }

    /// The document of English and `l`, which is another language.
    pub fn with_two_languages(l: Lang) -> (r: Build)
        requires
            l != Lang(0x09, 0x01),
        ensures
            strictly_rising(languages_of(r@)),
            forall|k: Lang| languages_of(r@).contains(k) <==> (k == Lang(0x09, 0x01) || k == l),
            forall|i: int| 0 <= i < r@.len() ==> (#[trigger] r@[i]).1 == ResourceList::empty(),
    {
        let mut languages: Vec<Lang> = Vec::new();
        languages.push(lang_enu());
        languages.push(l);
        proof {
            assert(languages@[0] == Lang(0x09, 0x01));
            assert(languages@[1] == l);
        }
        let r = Build::new(languages.as_slice());
        proof {
            assert forall|k: Lang| languages_of(r@).contains(k) <==> (k == Lang(0x09, 0x01) || k
                == l) by {
                assert(languages_of(r@).contains(k) <==> languages@.contains(k));
                if languages@.contains(k) {
                    let i = choose|i: int| 0 <= i < languages@.len() && languages@[i] == k;
                    assert(i == 0 || i == 1);
                }
            }
        }
        r
    }

    /// The document of the nine languages most in use.
    pub fn with_nine_languages() -> (r: Build)
        ensures
            r@.len() == 9,
            languages_of(r@) == seq![
                Lang(0x04, 0x01),
                Lang(0x04, 0x02),
                Lang(0x07, 0x01),
                Lang(0x09, 0x01),
                Lang(0x0a, 0x01),
                Lang(0x0c, 0x01),
                Lang(0x10, 0x01),
                Lang(0x11, 0x01),
                Lang(0x12, 0x01),
            ],
            forall|i: int| 0 <= i < r@.len() ==> (#[trigger] r@[i]).1 == ResourceList::empty(),
    {
        let languages = preset_lang_9();
        let r = Build::new(languages.as_slice());
        proof {
            let expected = seq![
                Lang(0x04, 0x01),
                Lang(0x04, 0x02),
                Lang(0x07, 0x01),
                Lang(0x09, 0x01),
                Lang(0x0a, 0x01),
                Lang(0x0c, 0x01),
                Lang(0x10, 0x01),
                Lang(0x11, 0x01),
                Lang(0x12, 0x01),
            ];
            let given = languages@;
            assert forall|l: Lang| languages_of(r@).contains(l) <==> expected.contains(l) by {
                if expected.contains(l) {
                    let k = choose|k: int| 0 <= k < expected.len() && expected[k] == l;
                    assert(given[0] == Lang(0x09, 0x01) && given[1] == Lang(0x04, 0x02) && given[2]
                        == Lang(0x04, 0x01) && given[3] == Lang(0x07, 0x01) && given[4] == Lang(
                        0x0a,
                        0x01,
                    ) && given[5] == Lang(0x0c, 0x01) && given[6] == Lang(0x10, 0x01) && given[7]
                        == Lang(0x11, 0x01) && given[8] == Lang(0x12, 0x01));
                }
                if given.contains(l) {
                    let k = choose|k: int| 0 <= k < given.len() && given[k] == l;
                    assert(expected[0] == Lang(0x04, 0x01) && expected[1] == Lang(0x04, 0x02)
                        && expected[2] == Lang(0x07, 0x01) && expected[3] == Lang(0x09, 0x01)
                        && expected[4] == Lang(0x0a, 0x01) && expected[5] == Lang(0x0c, 0x01)
                        && expected[6] == Lang(0x10, 0x01) && expected[7] == Lang(0x11, 0x01)
                        && expected[8] == Lang(0x12, 0x01));
                }
            }
            lemma_rising_from_members(languages_of(r@), expected);
        }
        r
    }

    /// Declares `resource` under `id_or_name` for every language of the
    /// document.
    pub fn resource(self, id_or_name: IdOrName, resource: Resource) -> (r: Build)
        ensures
            r.is_with_resource(self, |l: Lang| true, id_or_name, resource),
    {
        proof {
            use_type_invariant(&self);
        }
        let Build { languages, mut resources } = self;
        let ghost before = resources;
        resources.push_universal((id_or_name, resource));
        let r = Build { languages, resources };
        proof {
            assert forall|i: int| 0 <= i < r@.len() implies (#[trigger] r@[i]).0 == self@[i].0
                && r@[i].1 == self@[i].1.push((id_or_name, resource)) by {
                assert(resources.selected(languages@[i]) == before.selected(languages@[i]).push(
                    (id_or_name, resource),
                ));
            }
        }
        r
    }

    /// Declares `resource` under `id_or_name` for the language `language`.
    /// The languages of a document do not change: where `language` is none
    /// of them, the document is left as it is.
    pub fn lang_specific_resource(self, language: Lang, id_or_name: IdOrName, resource: Resource) -> (r:
        Build)
        ensures
            r.is_with_resource(self, |l: Lang| l == language, id_or_name, resource),
    {
        proof {
            use_type_invariant(&self);
        }
        let Build { languages, mut resources } = self;
        let ghost before = resources;
        let mut declared = false;
        let mut i: usize = 0;
        while i < languages.len()
            invariant
                i <= languages@.len(),
                declared <==> exists|k: int| 0 <= k < i && languages@[k] == language,
            decreases languages@.len() - i,
        {
            if languages[i] == language {
                declared = true;
            }
            i += 1;
        }
        if declared {
            resources.push_lang_specific(language, (id_or_name, resource));
        }
        let r = Build { languages, resources };
        proof {
            assert forall|i: int| 0 <= i < r@.len() implies (#[trigger] r@[i]).0 == self@[i].0
                && r@[i].1 == if self@[i].0 == language {
                self@[i].1.push((id_or_name, resource))
            } else {
                self@[i].1
            } by {
                let l = languages@[i];
                if declared {
                    if l == language {
                        assert(resources.selected(l) == before.selected(l).push(
                            (id_or_name, resource),
                        ));
                    } else {
                        assert(resources.selected(l) == before.selected(l));
                    }
                }
            }
        }
        r
    }

    /// The script of the document, and the warnings that come up for it.
    pub fn generate_script(&self) -> (r: Script)
        ensures
            r.text@ == script_text(self@),
            r.warnings@ == document_warnings(self@),
    {
        broadcast use lemma_concat_assoc;

        let mut text: Vec<u8> = Vec::new();
        let mut warnings: Vec<Diagnostic> = Vec::new();
        write_header(&mut text);
        assert(text@ =~= header_text());
        let mut i: usize = 0;
        while i < self.languages.len()
            invariant
                i <= self.languages@.len(),
                self@.len() == self.languages@.len(),
                text@ == header_text() + document_text(self@.take(i as int)),
                warnings@ == document_warnings(self@.take(i as int)),
            decreases self.languages@.len() - i,
        {
            proof {
                assert(self@.take(i + 1).drop_last() =~= self@.take(i as int));
                assert(self@.take(i + 1).last() == self@[i as int]);
            }
            let lang = self.languages[i];
            self.write_language(&mut text, &mut warnings, lang);
            proof {
                assert(warnings@ =~= document_warnings(self@.take(i as int)) + list_warnings(
                    self@[i as int].1,
                    lang,
                ));
            }
            i += 1;
        }
        proof {
            assert(self@.take(i as int) =~= self@);
        }
        Script { text, warnings }
    }

    fn write_language(&self, text: &mut Vec<u8>, warnings: &mut Vec<Diagnostic>, lang: Lang)
        ensures
            final(text)@ == old(text)@ + list_text(selection(self.resources@, lang), lang),
            final(warnings)@ == old(warnings)@ + list_warnings(
                selection(self.resources@, lang),
                lang,
            ),
    {
        let ghost text_start = text@;
        let ghost warnings_start = warnings@;
        let list = self.resources.iter(lang);
        let ghost seen = selection(self.resources@, lang);
        let mut k: usize = 0;
        while k < list.len()
            invariant
                k <= list@.len(),
                list@.len() == seen.len(),
                forall|m: int| 0 <= m < list@.len() ==> *(#[trigger] list@[m]) == seen[m],
                text@ == text_start + list_text(seen.take(k as int), lang),
                warnings@ == warnings_start + list_warnings(seen.take(k as int), lang),
            decreases list@.len() - k,
        {
            proof {
                assert(seen.take(k + 1).drop_last() =~= seen.take(k as int));
                assert(seen.take(k + 1).last() == seen[k as int]);
            }
            let entry = list[k];
            let ghost warnings_before = warnings@;
            let warning = entry.1.write_script_segment(text, lang, &entry.0);
            if warning {
                warnings.push(Diagnostic { lang, id_or_name: entry.0.clone() });
            }
            proof {
                let step = list_warnings(seen.take(k + 1), lang);
                let done = list_warnings(seen.take(k as int), lang);
                if warning {
                    assert(step == done.push(Diagnostic { lang, id_or_name: seen[k as int].0 }));
                    assert(warnings@ =~= warnings_start + step);
                } else {
                    assert(step == done);
                }
            }
            k += 1;
        }
        proof {
            assert(seen.take(k as int) =~= seen);
        }
    }
}

/// Two rising lists of keys with the same members are the same list.
pub proof fn lemma_rising_from_members(a: Seq<Lang>, b: Seq<Lang>)
    requires
        strictly_rising(a),
        strictly_rising(b),
        forall|l: Lang| a.contains(l) <==> b.contains(l),
    ensures
        a == b,
    decreases a.len(),
{
    if a.len() == 0 {
        if b.len() > 0 {
            assert(b.contains(b[0]));
        }
        assert(a =~= b);
    } else if b.len() == 0 {
        assert(a.contains(a[0]));
    } else {
        let x = a.last();
        let y = b.last();
        assert(a.contains(x));
        assert(b.contains(y));
        let kx = choose|k: int| 0 <= k < b.len() && b[k] == x;
        let ky = choose|k: int| 0 <= k < a.len() && a[k] == y;
        if kx < b.len() - 1 {
            assert(b[kx].precedes(b[b.len() - 1]));
        }
        if ky < a.len() - 1 {
            assert(a[ky].precedes(a[a.len() - 1]));
        }
        assert(x == y);
        let a0 = a.drop_last();
        let b0 = b.drop_last();
        assert forall|l: Lang| a0.contains(l) <==> b0.contains(l) by {
            if a0.contains(l) {
                let k = choose|k: int| 0 <= k < a0.len() && a0[k] == l;
                assert(a[k] == l);
                assert(a[k].precedes(a[a.len() - 1]));
                assert(a.contains(l));
                let m = choose|m: int| 0 <= m < b.len() && b[m] == l;
                assert(b0[m] == l);
            }
            if b0.contains(l) {
                let k = choose|k: int| 0 <= k < b0.len() && b0[k] == l;
                assert(b[k] == l);
                assert(b[k].precedes(b[b.len() - 1]));
                assert(b.contains(l));
                let m = choose|m: int| 0 <= m < a.len() && a[m] == l;
                assert(a0[m] == l);
            }
        }
        assert forall|i: int, j: int| 0 <= i < j < a0.len() implies (#[trigger] a0[i]).precedes(
            #[trigger] a0[j],
        ) by {
            assert(a[i].precedes(a[j]));
        }
        assert forall|i: int, j: int| 0 <= i < j < b0.len() implies (#[trigger] b0[i]).precedes(
            #[trigger] b0[j],
        ) by {
            assert(b[i].precedes(b[j]));
        }
        lemma_rising_from_members(a0, b0);
        assert(a =~= a0.push(x));
        assert(b =~= b0.push(y));
    }
}

} // verus!
