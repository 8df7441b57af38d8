//! Translations of the interface and the language in use.
use vstd::prelude::*;
use crate::text::owned;

verus! {

/// The texts of one language, by key.
#[derive(Debug, Clone)]
pub struct Translations {
    pub entries: Vec<(String, String)>,
}

/// The translations of every language and the language in use.
pub struct I18n {
    pub translations: Vec<(String, Translations)>,
    pub current_lang: String,
}

/// The languages of a list of translations, in order.
pub open spec fn langs(t: Seq<(String, Translations)>) -> Seq<Seq<char>> {
    t.map_values(|p: (String, Translations)| p.0@)
}

/// The views of a list of string slices.
pub open spec fn str_views(v: Seq<&str>) -> Seq<Seq<char>> {
    v.map_values(|s: &str| s@)
}

impl I18n {
    /// Each language once, and the language in use among them.
    pub open spec fn wf(self) -> bool {
        &&& langs(self.translations@).no_duplicates()
        &&& langs(self.translations@).contains(self.current_lang@)
    }

    /// The languages offered.
    pub open spec fn languages(self) -> Seq<Seq<char>> {
        langs(self.translations@)
    }

    /// The bundled translations: English, Russian and Belarusian, English in
    /// use.
    pub fn new(en: Translations, ru: Translations, be: Translations) -> (i: Self)
        ensures
            i.wf(),
            i.languages() == seq!["en"@, "ru"@, "be"@],
            i.current_lang@ == "en"@,
            i.translations@[0].1 == en,
            i.translations@[1].1 == ru,
            i.translations@[2].1 == be,
    {
        proof {
            reveal_strlit("en");
            reveal_strlit("ru");
            reveal_strlit("be");
        }
        let mut t: Vec<(String, Translations)> = Vec::new();
        t.push((owned("en"), en));
        t.push((owned("ru"), ru));
        t.push((owned("be"), be));
        assert(langs(t@) =~= seq!["en"@, "ru"@, "be"@]);
        assert("en"@[0] != "ru"@[0] && "en"@[0] != "be"@[0] && "ru"@[0] != "be"@[0]);
        assert(langs(t@).no_duplicates());
        assert(langs(t@).contains("en"@)) by {
            assert(langs(t@)[0] == "en"@);
        }
        I18n { translations: t, current_lang: owned("en") }
    }

    /// Translations loaded for several languages, English in use.
    pub fn with_languages(translations: Vec<(String, Translations)>) -> (i: Self)
        requires
            langs(translations@).no_duplicates(),
            langs(translations@).contains("en"@),
        ensures
            i.wf(),
            i.translations == translations,
            i.current_lang@ == "en"@,
    {
        I18n { translations, current_lang: owned("en") }
    }

    fn index_of(&self, lang: &str) -> (r: Option<usize>)
        ensures
            match r {
                Some(i) => i < self.translations@.len() && self.translations@[i as int].0@ == lang@,
                None => !langs(self.translations@).contains(lang@),
            },
    {
        let l = owned(lang);
        let mut k: usize = 0;
        while k < self.translations.len()
            invariant
                k <= self.translations@.len(),
                l@ == lang@,
                forall|j: int| 0 <= j < k ==> self.translations@[j].0@ != lang@,
            decreases self.translations@.len() - k,
        {
            if self.translations[k].0 == l {
                return Some(k);
            }
            k = k + 1;
        }
        proof {
            if langs(self.translations@).contains(lang@) {
                let j = choose|j: int| 0 <= j < langs(self.translations@).len() && langs(self.translations@)[j] == lang@;
                assert(self.translations@[j].0@ == lang@);
            }
        }
        None
    }

    /// Switches to `lang` when its translations are loaded; otherwise keeps
    /// the language in use.
    pub fn set_language(&mut self, lang: &str)
        requires
            old(self).wf(),
        ensures
            final(self).wf(),
            final(self).translations == old(self).translations,
            final(self).current_lang@ == if old(self).languages().contains(lang@) {
                lang@
            } else {
                old(self).current_lang@
            },
    {
        match self.index_of(lang) {
            Some(i) => {
                proof {
                    assert(langs(self.translations@)[i as int] == lang@);
                }
                self.current_lang = owned(lang);
            },
            None => {},
        }
    }

    /// The translations of the language in use.
    pub fn t(&self) -> (tr: &Translations)
        requires
            self.wf(),
        ensures
            exists|i: int| 0 <= i < self.translations@.len() && self.translations@[i].0@
                == self.current_lang@ && *tr == self.translations@[i].1,
    {
        match self.index_of(self.current_lang.as_str()) {
            Some(i) => &self.translations[i].1,
            None => {
                assert(false);
                &self.translations[0].1
            },
        }
    }

    /// The languages offered, each once.
    pub fn available_languages(&self) -> (ls: Vec<&str>)
        requires
            self.wf(),
        ensures
            str_views(ls@) == self.languages(),
    {
        let mut ls: Vec<&str> = Vec::new();
        let mut k: usize = 0;
        while k < self.translations.len()
            invariant
                k <= self.translations@.len(),
                str_views(ls@) == langs(self.translations@).take(k as int),
            decreases self.translations@.len() - k,
        {
            let x = self.translations[k].0.as_str();
            let ghost before = ls@;
            assert(str_views(before).len() == k);
            assert(before.len() == k);
            ls.push(x);
            assert(langs(self.translations@)[k as int] == self.translations@[k as int].0@);
            assert(ls@ == before.push(x));
            assert(x@ == self.translations@[k as int].0@);
            assert forall|i: int| 0 <= i < k + 1 implies #[trigger] str_views(ls@)[i] == langs(self.translations@).take(k + 1)[i] by {
                if i < k {
                    assert(ls@[i] == before[i]);
                    assert(str_views(before)[i] == langs(self.translations@).take(k as int)[i]);
                }
            }
            assert(str_views(ls@) =~= langs(self.translations@).take(k + 1));
            k = k + 1;
        }
        assert(langs(self.translations@).take(k as int) =~= langs(self.translations@));
        ls
    }
}

/// Switching the language never changes which languages are offered.
pub proof fn law_languages_kept(before: I18n, after: I18n)
    requires
        after.translations == before.translations,
    ensures
        after.languages() == before.languages(),
{
}

} // verus!
