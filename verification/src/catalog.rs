//! The message catalog: for each error code, the message template of each
//! locale.

use crate::assoc::{
    assoc_map, distinct_keys, has_key, lemma_assoc_contains, lemma_assoc_finite, lemma_assoc_index,
    lemma_assoc_len, lemma_assoc_push, lemma_assoc_remove, lemma_assoc_update,
};
use crate::string_map::StringMap;
use vstd::prelude::*;

verus! {

/// The templates of one code: from locale to template.
pub type Templates = Map<Seq<char>, Seq<char>>;

/// The mathematical catalog: from code to the templates of that code.
pub type Catalog = Map<Seq<char>, Templates>;

/// The message of a code or locale that the catalog does not hold.
pub open spec fn unknown_error() -> Seq<char> {
    "unknown error"@
}

/// The template that the catalog holds for `code` in `locale`, and
/// [`unknown_error`] where it holds none. There is no fallback from one
/// locale to another.
pub open spec fn resolve(catalog: Catalog, code: Seq<char>, locale: Seq<char>) -> Seq<char> {
    if catalog.contains_key(code) && catalog[code].contains_key(locale) {
        catalog[code][locale]
    } else {
        unknown_error()
    }
}

/// Every code of the catalog has a template in at least one locale.
pub open spec fn every_code_has_a_template(catalog: Catalog) -> bool {
    forall|code: Seq<char>| #[trigger]
        catalog.contains_key(code) ==> exists|locale: Seq<char>|
            catalog[code].contains_key(locale)
}

/// The catalog after the templates of `code` were set to `templates`: a
/// code left without templates is no code of the catalog.
pub open spec fn with_templates(catalog: Catalog, code: Seq<char>, templates: Templates) -> Catalog {
    if templates == Map::<Seq<char>, Seq<char>>::empty() {
        catalog.remove(code)
    } else {
        catalog.insert(code, templates)
    }
}

/// The catalog of message templates, keyed by error code and then by
/// locale. It is built once and read afterwards.
///
/// Like [`StringMap`], it is held as a list of entries in which no code
/// occurs twice, in place of a hash map with `String` keys. Beyond that,
/// every code that it holds has at least one template.
#[derive(Debug)]
pub struct StandardErrorMessages {
    entries: Vec<(String, StringMap)>,
}

/// Codes and templates of `entries` as mathematical values.
pub open spec fn catalog_pairs(entries: Seq<(String, StringMap)>) -> Seq<(Seq<char>, Templates)> {
    entries.map_values(|e: (String, StringMap)| (e.0@, e.1@))
}

impl View for StandardErrorMessages {
    type V = Catalog;

    closed spec fn view(&self) -> Catalog {
        assoc_map(catalog_pairs(self.entries@))
    }
}

impl StandardErrorMessages {
    #[verifier::type_invariant]
    spec fn well_formed(self) -> bool {
        &&& distinct_keys(catalog_pairs(self.entries@))
        &&& forall|i: int|
            0 <= i < self.entries@.len() ==> (#[trigger] self.entries@[i]).1@ != Map::<
                Seq<char>,
                Seq<char>,
            >::empty()
    }

    /// The catalog has finitely many codes.
    pub proof fn lemma_finite(&self)
        ensures
            self@.dom().finite(),
    {
        lemma_assoc_finite(catalog_pairs(self.entries@));
    }

    /// Every code has a template in at least one locale.
    proof fn lemma_templates(self)
        requires
            self.well_formed(),
        ensures
            every_code_has_a_template(self@),
    {
        let pairs = catalog_pairs(self.entries@);
        assert forall|code: Seq<char>| #[trigger] self@.contains_key(code) implies exists|
            locale: Seq<char>,
        |
            self@[code].contains_key(locale) by {
            lemma_assoc_contains(pairs, code);
            let i = choose|i: int| 0 <= i < pairs.len() && (#[trigger] pairs[i]).0 == code;
            lemma_assoc_index(pairs, i);
            let templates = self.entries@[i].1@;
            assert(self@[code] == templates);
            if forall|locale: Seq<char>| !templates.contains_key(locale) {
                assert(templates =~= Map::empty());
            }
        }
    }

    /// A catalog without codes.
    pub fn new() -> (catalog: StandardErrorMessages)
        ensures
            catalog@ == Map::<Seq<char>, Templates>::empty(),
            every_code_has_a_template(catalog@),
    {
        let catalog = StandardErrorMessages { entries: Vec::new() };
        assert(catalog_pairs(catalog.entries@) =~= Seq::empty());
        catalog
    }

    /// The position of the entry of `code`, if there is one.
    fn position(&self, code: &String) -> (at: Option<usize>)
        ensures
            match at {
                Some(i) => i < self.entries.len() && self.entries@[i as int].0@ == code@,
                None => !self@.contains_key(code@),
            },
    {
        let mut i: usize = 0;
        while i < self.entries.len()
            invariant
                i <= self.entries.len(),
                forall|k: int| 0 <= k < i ==> self.entries@[k].0@ != code@,
            decreases self.entries.len() - i,
        {
            if self.entries[i].0 == *code {
                return Some(i);
            }
            i += 1;
        }
        proof {
            let pairs = catalog_pairs(self.entries@);
            lemma_assoc_contains(pairs, code@);
            if has_key(pairs, code@) {
                let j = choose|j: int| 0 <= j < pairs.len() && (#[trigger] pairs[j]).0 == code@;
                assert(self.entries@[j].0@ != code@);
            }
        }
        None
    }

    /// Sets the templates of `code` to `templates`, in place of those it
    /// had. With no template at all the code leaves the catalog.
    pub fn insert(&mut self, code: String, templates: StringMap)
        ensures
            final(self)@ == with_templates(old(self)@, code@, templates@),
            every_code_has_a_template(final(self)@),
    {
        proof {
            use_type_invariant(&*self);
        }
        let ghost before = catalog_pairs(self.entries@);
        let found = self.position(&code);
        let empty = templates.is_empty();
        let mut entries: Vec<(String, StringMap)> = Vec::new();
        assert(catalog_pairs(entries@) =~= Seq::empty());
        std::mem::swap(&mut self.entries, &mut entries);
        match found {
            Some(i) => {
                if empty {
                    proof {
                        lemma_assoc_remove(before, i as int);
                        assert(catalog_pairs(entries@.remove(i as int)) =~= before.remove(i as int));
                    }
                    let _ = entries.remove(i);
                } else {
                    proof {
                        lemma_assoc_update(before, i as int, templates@);
                        assert(catalog_pairs(entries@.update(i as int, (code, templates)))
                            =~= before.update(i as int, (before[i as int].0, templates@)));
                    }
                    entries.set(i, (code, templates));
                }
            },
            None => {
                if empty {
                    proof {
                        assert(assoc_map(before).remove(code@) =~= assoc_map(before));
                    }
                } else {
                    proof {
                        lemma_assoc_push(before, code@, templates@);
                        lemma_assoc_contains(before, code@);
                        let after = before.push((code@, templates@));
                        assert(catalog_pairs(entries@.push((code, templates))) =~= after);
                        assert forall|a: int, b: int| 0 <= a < b < after.len() implies after[a].0
                            != after[b].0 by {
                            if b == before.len() {
                                assert(before[a].0 != code@);
                            } else {
                                assert(before[a].0 != before[b].0);
                            }
                        }
                    }
                    entries.push((code, templates));
                }
            },
        }
        self.entries = entries;
        proof {
            use_type_invariant(&*self);
            self.lemma_templates();
        }
    }

    /// The templates of `code`, if the catalog has that code.
    pub fn get(&self, code: &str) -> (templates: Option<&StringMap>)
        ensures
            match templates {
                Some(t) => self@.contains_key(code@) && t@ == self@[code@],
                None => !self@.contains_key(code@),
            },
    {
        proof {
            use_type_invariant(self);
        }
        let owned = code.to_string();
        match self.position(&owned) {
            Some(i) => {
                proof {
                    lemma_assoc_index(catalog_pairs(self.entries@), i as int);
                }
                Some(&self.entries[i].1)
            },
            None => None,
        }
    }

    /// Whether the catalog has the code `code`.
    pub fn contains_key(&self, code: &str) -> (found: bool)
        ensures
            found == self@.contains_key(code@),
    {
        self.get(code).is_some()
    }

    /// The number of codes. Each of them has a template in at least one
    /// locale.
    pub fn len(&self) -> (n: usize)
        ensures
            n == self@.len(),
            every_code_has_a_template(self@),
    {
        proof {
            use_type_invariant(self);
            self.lemma_templates();
            lemma_assoc_len(catalog_pairs(self.entries@));
        }
        self.entries.len()
    }

    /// Whether the catalog has no code.
    pub fn is_empty(&self) -> (empty: bool)
        ensures
            empty == (self@.len() == 0),
    {
        self.len() == 0
    }

    /// The template for `code` in `locale`: the stored one where the catalog
    /// has the code and the code has the locale, and the text
    /// `unknown error` in every other case.
    pub fn resolve_template(&self, code: &str, locale: &str) -> (template: String)
        ensures
            template@ == resolve(self@, code@, locale@),
            self@.contains_key(code@) && self@[code@].contains_key(locale@) ==> template@
                == self@[code@][locale@],
            !self@.contains_key(code@) || !self@[code@].contains_key(locale@) ==> template@
                == unknown_error(),
    {
        match self.get(code) {
            Some(templates) => match templates.get(locale) {
                Some(template) => template.clone(),
                None => "unknown error".to_string(),
            },
            None => "unknown error".to_string(),
        }
    }
}

impl Clone for StandardErrorMessages {
    fn clone(&self) -> (copy: Self)
        ensures
            copy@ == self@,
    {
        proof {
            use_type_invariant(self);
        }
        let mut entries: Vec<(String, StringMap)> = Vec::new();
        let mut i: usize = 0;
        while i < self.entries.len()
            invariant
                i <= self.entries.len(),
                entries@.len() == i,
                forall|k: int|
                    0 <= k < i ==> (#[trigger] entries@[k]).0@ == self.entries@[k].0@
                        && entries@[k].1@ == self.entries@[k].1@,
            decreases self.entries.len() - i,
        {
            entries.push((self.entries[i].0.clone(), self.entries[i].1.clone()));
            i += 1;
        }
        assert(catalog_pairs(entries@) =~= catalog_pairs(self.entries@));
        StandardErrorMessages { entries }
    }
}

impl Default for StandardErrorMessages {
    fn default() -> (catalog: Self)
        ensures
            catalog@ == Map::<Seq<char>, Templates>::empty(),
    {
        StandardErrorMessages::new()
    }
}

} // verus!
