use vstd::prelude::*;

verus! {

/// The locales in which a catalog entry can be written.
#[derive(Clone, Copy, Debug, PartialEq, Eq, Structural)]
pub enum Language {
    English,
    Spanish,
    Italian,
    Japanese,
}

/// A text body together with the language it is written in.
#[derive(Debug)]
pub struct LocalizedText {
    pub language: Language,
    pub text: String,
}

impl LocalizedText {
    /// An independent copy of this entry.
    pub fn copy(&self) -> (r: LocalizedText)
        ensures
            r == *self,
    {
        LocalizedText { language: self.language, text: self.text.clone() }
    }
}

/// `t` is written in `language` and reads `text`.
pub open spec fn text_is(t: LocalizedText, language: Language, text: Seq<char>) -> bool {
    t.language == language && t.text@ == text
}

/// What a lookup of `key` in a catalog viewed as `m` finds.
pub open spec fn lookup(m: Map<Seq<char>, Seq<LocalizedText>>, key: Seq<char>) -> Option<
    Seq<LocalizedText>,
> {
    if m.contains_key(key) {
        Some(m[key])
    } else {
        None
    }
}

/// A mapping from unique string keys to ordered sequences of localized texts.
#[derive(Debug)]
pub struct Catalog {
    entries: Vec<(String, Vec<LocalizedText>)>,
}

impl Catalog {
    /// The keys of the catalog, in the order they were first inserted.
    pub closed spec fn keys(&self) -> Seq<Seq<char>> {
        self.entries@.map_values(|e: (String, Vec<LocalizedText>)| e.0@)
    }

    /// Well-formedness: no key occurs twice.
    pub closed spec fn wf(&self) -> bool {
        self.keys().no_duplicates()
    }
}

impl View for Catalog {
    type V = Map<Seq<char>, Seq<LocalizedText>>;

    closed spec fn view(&self) -> Map<Seq<char>, Seq<LocalizedText>> {
        Map::new(
            |k: Seq<char>| self.keys().contains(k),
            |k: Seq<char>| self.entries@[self.keys().index_of(k)].1@,
        )
    }
}

/// In a sequence without duplicates, an element is found at its own index.
proof fn lemma_index_of_distinct(keys: Seq<Seq<char>>, i: int)
    requires
        keys.no_duplicates(),
        0 <= i < keys.len(),
    ensures
        keys.contains(keys[i]),
        keys.index_of(keys[i]) == i,
{
    assert(keys.contains(keys[i]));
    let j = keys.index_of(keys[i]);
    assert(keys[j] == keys[i]);
}

impl Catalog {
    /// The view maps the key of each entry to that entry's texts.
    proof fn lemma_view_at(&self, i: int)
        requires
            self.wf(),
            0 <= i < self.entries@.len(),
        ensures
            self@.contains_key(self.entries@[i].0@),
            self@[self.entries@[i].0@] == self.entries@[i].1@,
    {
        let k = self.entries@[i].0@;
        assert(self.keys()[i] == k);
        assert(self.keys().contains(k));
        let j = self.keys().index_of(k);
        assert(self.keys()[j] == k);
    }

    /// An empty catalog.
    pub fn new() -> (r: Catalog)
        ensures
            r.wf(),
            r@ == Map::<Seq<char>, Seq<LocalizedText>>::empty(),
    {
        let r = Catalog { entries: Vec::new() };
        assert(r@ =~= Map::<Seq<char>, Seq<LocalizedText>>::empty());
        r
    }

    /// Index of the entry whose key is `key`, if there is one.
    fn position(&self, key: &String) -> (r: Option<usize>)
        ensures
            match r {
                Some(i) => i < self.entries@.len() && self.keys()[i as int] == key@,
                None => !self.keys().contains(key@),
            },
    {
        let n = self.entries.len();
        let mut i: usize = 0;
        while i < n
            invariant
                n == self.entries@.len(),
                i <= n,
                forall|j: int| 0 <= j < i ==> self.keys()[j] != key@,
            decreases n - i,
        {
            if self.entries[i].0 == *key {
                return Some(i);
            }
            i = i + 1;
        }
        None
    }

    /// Stores `texts` under `key`, replacing what was stored there before.
    pub fn insert(&mut self, key: String, texts: Vec<LocalizedText>)
        requires
            old(self).wf(),
        ensures
            final(self).wf(),
            final(self)@ == old(self)@.insert(key@, texts@),
    {
        let ghost k = key@;
        let ghost v = texts@;
        let ghost old_keys = self.keys();
        match self.position(&key) {
            Some(i) => {
                self.entries.set(i, (key, texts));
                assert(self.keys() =~= old_keys);
                assert(old_keys[i as int] == k);
                assert forall|x: Seq<char>| #[trigger] self.keys().contains(x) implies self@[x] == (
                if x == k {
                    v
                } else {
                    old(self)@[x]
                }) by {
                    let j = choose|j: int| 0 <= j < old_keys.len() && old_keys[j] == x;
                    lemma_index_of_distinct(old_keys, j);
                    lemma_index_of_distinct(old_keys, i as int);
                };
            },
            None => {
                self.entries.push((key, texts));
                let ghost n = old_keys.len() as int;
                assert(self.keys() =~= old_keys.push(k));
                assert(self.keys()[n] == k);
                assert forall|x: Seq<char>| old_keys.contains(x) implies #[trigger] self.keys().contains(
                    x,
                ) by {
                    let j = choose|j: int| 0 <= j < old_keys.len() && old_keys[j] == x;
                    assert(self.keys()[j] == x);
                };
                assert forall|x: Seq<char>| #[trigger] self.keys().contains(x) && x != k implies old_keys.contains(
                    x,
                ) by {
                    let j = choose|j: int| 0 <= j < self.keys().len() && self.keys()[j] == x;
                    assert(old_keys[j] == x);
                };
                assert forall|x: Seq<char>| #[trigger] self.keys().contains(x) implies self@[x] == (
                if x == k {
                    v
                } else {
                    old(self)@[x]
                }) by {
                    let j = choose|j: int| 0 <= j < self.keys().len() && self.keys()[j] == x;
                    lemma_index_of_distinct(self.keys(), j);
                    if j < n {
                        lemma_index_of_distinct(old_keys, j);
                    }
                };
            },
        }
        assert(self@ =~= old(self)@.insert(k, v));
    }

    /// The number of keys in the catalog.
    pub fn len(&self) -> (r: usize)
        requires
            self.wf(),
        ensures
            r == self@.len(),
    {
        proof {
            lemma_catalog_keys_unique(self);
        }
        self.entries.len()
    }

    /// The texts stored under `key`, or `None` where the key is absent.
    pub fn get(&self, key: &String) -> (r: Option<&Vec<LocalizedText>>)
        requires
            self.wf(),
        ensures
            match r {
                Some(v) => lookup(self@, key@) == Some(v@),
                None => lookup(self@, key@) is None,
            },
    {
        match self.position(key) {
            Some(i) => {
                proof {
                    self.lemma_view_at(i as int);
                }
                Some(&self.entries[i].1)
            },
            None => None,
        }
    }
}

/// No two entries of a well-formed catalog share a key: its keys are exactly
/// the keys it maps, and there are as many entries as mapped keys.
pub proof fn lemma_catalog_keys_unique(c: &Catalog)
    requires
        c.wf(),
    ensures
        c.keys().no_duplicates(),
        forall|k: Seq<char>| #[trigger] c@.contains_key(k) <==> c.keys().contains(k),
        c.keys().len() == c@.len(),
{
    c.keys().unique_seq_to_set();
    assert(c@.dom() =~= c.keys().to_set());
}

/// A copy of `texts`, element by element.
pub fn copy_texts(texts: &Vec<LocalizedText>) -> (r: Vec<LocalizedText>)
    ensures
        r@ == texts@,
{
    let mut r: Vec<LocalizedText> = Vec::new();
    let n = texts.len();
    let mut i: usize = 0;
    while i < n
        invariant
            n == texts@.len(),
            i <= n,
            r@ == texts@.subrange(0, i as int),
        decreases n - i,
    {
        r.push(texts[i].copy());
        i = i + 1;
        assert(r@ =~= texts@.subrange(0, i as int));
    }
    assert(r@ =~= texts@);
    r
}

} // verus!
