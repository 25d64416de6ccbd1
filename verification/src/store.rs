//! The category document store.
//!
//! Each category holds text documents keyed by file name. The store is
//! the in-memory model of one category directory: saving overwrites or
//! appends, loading finds the stored text, listing yields the names
//! that carry the `json` extension in store order, deleting removes an
//! existing document and fails on a missing one. The surrounding
//! binary mirrors each step onto the directory itself.

use crate::names::has_json_extension;
use crate::names::is_json_name;
use vstd::prelude::*;

verus! {

/// One category's documents: file name and text in insertion order.
pub struct CategoryStore {
    entries: Vec<(String, String)>,
}

/// The text stored under `name`, searched front to back.
pub open spec fn lookup(s: Seq<(Seq<char>, Seq<char>)>, name: Seq<char>) -> Option<Seq<char>>
    decreases s.len(),
{
    if s.len() == 0 {
        None
    } else if s[0].0 == name {
        Some(s[0].1)
    } else {
        lookup(s.drop_first(), name)
    }
}

/// The store after `content` is written under `name`: an existing entry
/// is overwritten in place, otherwise a new one is appended.
pub open spec fn store_save(
    s: Seq<(Seq<char>, Seq<char>)>,
    name: Seq<char>,
    content: Seq<char>,
) -> Seq<(Seq<char>, Seq<char>)>
    decreases s.len(),
{
    if s.len() == 0 {
        seq![(name, content)]
    } else if s[0].0 == name {
        seq![(name, content)] + s.drop_first()
    } else {
        seq![s[0]] + store_save(s.drop_first(), name, content)
    }
}

/// The store after the entry under `name` is removed; unchanged when
/// there is none.
pub open spec fn store_delete(s: Seq<(Seq<char>, Seq<char>)>, name: Seq<char>) -> Seq<
    (Seq<char>, Seq<char>),
>
    decreases s.len(),
{
    if s.len() == 0 {
        s
    } else if s[0].0 == name {
        s.drop_first()
    } else {
        seq![s[0]] + store_delete(s.drop_first(), name)
    }
}

/// The stored names that carry the `json` extension, in store order.
pub open spec fn json_names(s: Seq<(Seq<char>, Seq<char>)>) -> Seq<Seq<char>>
    decreases s.len(),
{
    if s.len() == 0 {
        Seq::empty()
    } else if is_json_name(s[0].0) {
        seq![s[0].0] + json_names(s.drop_first())
    } else {
        json_names(s.drop_first())
    }
}

/// Every name appears at most once.
pub open spec fn unique_names(s: Seq<(Seq<char>, Seq<char>)>) -> bool {
    forall|i: int, j: int| 0 <= i < j < s.len() ==> s[i].0 != s[j].0
}

proof fn lemma_lookup_found(s: Seq<(Seq<char>, Seq<char>)>, name: Seq<char>, k: int)
    requires
        0 <= k < s.len(),
        s[k].0 == name,
        forall|i: int| 0 <= i < k ==> s[i].0 != name,
    ensures
        lookup(s, name) == Some(s[k].1),
    decreases k,
{
    if k > 0 {
        lemma_lookup_found(s.drop_first(), name, k - 1);
    }
}

proof fn lemma_lookup_missing(s: Seq<(Seq<char>, Seq<char>)>, name: Seq<char>)
    requires
        forall|i: int| 0 <= i < s.len() ==> s[i].0 != name,
    ensures
        lookup(s, name) is None,
    decreases s.len(),
{
    if s.len() > 0 {
        lemma_lookup_missing(s.drop_first(), name);
    }
}

proof fn lemma_store_save_found(
    s: Seq<(Seq<char>, Seq<char>)>,
    name: Seq<char>,
    content: Seq<char>,
    k: int,
)
    requires
        0 <= k < s.len(),
        s[k].0 == name,
        forall|i: int| 0 <= i < k ==> s[i].0 != name,
    ensures
        store_save(s, name, content) =~= s.update(k, (name, content)),
    decreases k,
{
    if k == 0 {
    } else {
        lemma_store_save_found(s.drop_first(), name, content, k - 1);
        assert(store_save(s, name, content) =~= seq![s[0]] + s.drop_first().update(
            k - 1,
            (name, content),
        ));
    }
}

proof fn lemma_store_save_missing(s: Seq<(Seq<char>, Seq<char>)>, name: Seq<char>, content: Seq<char>)
    requires
        forall|i: int| 0 <= i < s.len() ==> s[i].0 != name,
    ensures
        store_save(s, name, content) =~= s.push((name, content)),
    decreases s.len(),
{
    if s.len() > 0 {
        lemma_store_save_missing(s.drop_first(), name, content);
    }
}

proof fn lemma_store_delete_found(s: Seq<(Seq<char>, Seq<char>)>, name: Seq<char>, k: int)
    requires
        0 <= k < s.len(),
        s[k].0 == name,
        forall|i: int| 0 <= i < k ==> s[i].0 != name,
    ensures
        store_delete(s, name) =~= s.remove(k),
    decreases k,
{
    if k > 0 {
        lemma_store_delete_found(s.drop_first(), name, k - 1);
        assert(store_delete(s, name) =~= seq![s[0]] + s.drop_first().remove(k - 1));
    }
}

proof fn lemma_store_delete_missing(s: Seq<(Seq<char>, Seq<char>)>, name: Seq<char>)
    requires
        forall|i: int| 0 <= i < s.len() ==> s[i].0 != name,
    ensures
        store_delete(s, name) =~= s,
    decreases s.len(),
{
    if s.len() > 0 {
        lemma_store_delete_missing(s.drop_first(), name);
        assert(store_delete(s, name) =~= seq![s[0]] + store_delete(s.drop_first(), name));
    }
}

proof fn lemma_json_names_snoc(s: Seq<(Seq<char>, Seq<char>)>, e: (Seq<char>, Seq<char>))
    ensures
        is_json_name(e.0) ==> json_names(s.push(e)) =~= json_names(s).push(e.0),
        !is_json_name(e.0) ==> json_names(s.push(e)) =~= json_names(s),
    decreases s.len(),
{
    reveal_with_fuel(json_names, 2);
    if s.len() == 0 {
        assert(s.push(e)[0] == e);
        assert(s.push(e).drop_first() =~= Seq::<(Seq<char>, Seq<char>)>::empty());
    } else {
        lemma_json_names_snoc(s.drop_first(), e);
        assert(s.push(e)[0] == s[0]);
        assert(s.push(e).drop_first() =~= s.drop_first().push(e));
        if is_json_name(s[0].0) {
            if is_json_name(e.0) {
                assert(seq![s[0].0] + json_names(s.drop_first()).push(e.0) =~= (seq![s[0].0]
                    + json_names(s.drop_first())).push(e.0));
            }
        }
    }
}

impl View for CategoryStore {
    type V = Seq<(Seq<char>, Seq<char>)>;

    closed spec fn view(&self) -> Seq<(Seq<char>, Seq<char>)> {
        self.entries.deep_view()
    }
}

impl CategoryStore {
    /// The store keeps each name at most once.
    pub open spec fn wf(&self) -> bool {
        unique_names(self@)
    }

    /// A category that has never held a document.
    pub fn new() -> (r: CategoryStore)
        ensures
            r@ == Seq::<(Seq<char>, Seq<char>)>::empty(),
            r.wf(),
    {
        let r = CategoryStore { entries: Vec::new() };
        proof {
            assert(r@ =~= Seq::<(Seq<char>, Seq<char>)>::empty());
        }
        r
    }

    /// Writes `content` under `filename`, overwriting any document
    /// already stored there.
    #[verifier::loop_isolation(false)]
    pub fn save(&mut self, filename: &str, content: &str)
        requires
            old(self).wf(),
        ensures
            final(self)@ == store_save(old(self)@, filename@, content@),
            final(self).wf(),
    {
        let fname = filename.to_owned();
        let mut k: usize = 0;
        while k < self.entries.len()
            invariant
                *self == *old(self),
                k <= self.entries.len(),
                forall|i: int| 0 <= i < k ==> self@[i].0 != filename@,
            decreases self.entries.len() - k,
        {
            if self.entries[k].0 == fname {
                proof {
                    lemma_store_save_found(self@, filename@, content@, k as int);
                }
                let _ = self.entries.remove(k);
                self.entries.insert(k, (fname, content.to_owned()));
                proof {
                    assert(self@ =~= old(self)@.update(k as int, (filename@, content@)));
                    assert forall|i: int| 0 <= i < self@.len() implies self@[i].0 == old(
                        self,
                    )@[i].0 by {}
                }
                return ;
            }
            k = k + 1;
        }
        self.entries.push((fname, content.to_owned()));
        proof {
            lemma_store_save_missing(old(self)@, filename@, content@);
            assert(self@ =~= old(self)@.push((filename@, content@)));
        }
    }

    /// The stored text under `filename`, when the category holds it.
    #[verifier::loop_isolation(false)]
    pub fn load(&self, filename: &str) -> (r: Option<String>)
        ensures
            r.deep_view() == lookup(self@, filename@),
    {
        let fname = filename.to_owned();
        let mut k: usize = 0;
        while k < self.entries.len()
            invariant
                k <= self.entries.len(),
                forall|i: int| 0 <= i < k ==> self@[i].0 != filename@,
            decreases self.entries.len() - k,
        {
            if self.entries[k].0 == fname {
                proof {
                    lemma_lookup_found(self@, filename@, k as int);
                }
                return Some(self.entries[k].1.clone());
            }
            k = k + 1;
        }
        proof {
            lemma_lookup_missing(self@, filename@);
        }
        None
    }

    /// Removes the document under `filename`; reports whether one was
    /// there to remove.
    #[verifier::loop_isolation(false)]
    pub fn delete(&mut self, filename: &str) -> (r: bool)
        requires
            old(self).wf(),
        ensures
            r == (lookup(old(self)@, filename@) is Some),
            final(self)@ == store_delete(old(self)@, filename@),
            final(self).wf(),
    {
        let fname = filename.to_owned();
        let mut k: usize = 0;
        while k < self.entries.len()
            invariant
                *self == *old(self),
                k <= self.entries.len(),
                forall|i: int| 0 <= i < k ==> self@[i].0 != filename@,
            decreases self.entries.len() - k,
        {
            if self.entries[k].0 == fname {
                proof {
                    lemma_lookup_found(self@, filename@, k as int);
                    lemma_store_delete_found(self@, filename@, k as int);
                }
                let _ = self.entries.remove(k);
                proof {
                    assert(self@ =~= old(self)@.remove(k as int));
                    assert forall|i: int, j: int|
                        0 <= i < j < self@.len() implies self@[i].0 != self@[j].0 by {
                        assert(self@[i] == if i < k as int {
                            old(self)@[i]
                        } else {
                            old(self)@[i + 1]
                        });
                        assert(self@[j] == if j < k as int {
                            old(self)@[j]
                        } else {
                            old(self)@[j + 1]
                        });
                    }
                }
                return true;
            }
            k = k + 1;
        }
        proof {
            lemma_lookup_missing(self@, filename@);
            lemma_store_delete_missing(self@, filename@);
        }
        false
    }

    /// The stored names that carry the `json` extension, in store order.
    #[verifier::loop_isolation(false)]
    pub fn list(&self) -> (r: Vec<String>)
        ensures
            r.deep_view() == json_names(self@),
    {
        let mut r: Vec<String> = Vec::new();
        let mut k: usize = 0;
        proof {
            assert(r.deep_view() =~= json_names(self@.subrange(0, 0)));
        }
        while k < self.entries.len()
            invariant
                k <= self.entries.len(),
                r.deep_view() == json_names(self@.subrange(0, k as int)),
            decreases self.entries.len() - k,
        {
            let ghost pre = r.deep_view();
            if has_json_extension(self.entries[k].0.as_str()) {
                r.push(self.entries[k].0.clone());
                proof {
                    assert(r.deep_view() =~= pre.push(self@[k as int].0));
                }
            }
            proof {
                lemma_json_names_snoc(self@.subrange(0, k as int), self@[k as int]);
                assert(self@.subrange(0, k as int + 1) =~= self@.subrange(0, k as int).push(
                    self@[k as int],
                ));
            }
            k = k + 1;
        }
        proof {
            assert(self@.subrange(0, self@.len() as int) =~= self@);
        }
        r
    }
}

/// A document just saved is loaded back exactly: looking the name up
/// after a save finds precisely the text that was saved.
pub proof fn lemma_save_then_load(
    s: Seq<(Seq<char>, Seq<char>)>,
    name: Seq<char>,
    content: Seq<char>,
)
    ensures
        lookup(store_save(s, name, content), name) == Some(content),
    decreases s.len(),
{
    reveal_with_fuel(lookup, 2);
    if s.len() == 0 {
    } else if s[0].0 == name {
    } else {
        lemma_save_then_load(s.drop_first(), name, content);
        assert((seq![s[0]] + store_save(s.drop_first(), name, content)).drop_first()
            =~= store_save(s.drop_first(), name, content));
    }
}

/// A deleted document is gone: looking the name up after a delete
/// finds nothing.
pub proof fn lemma_delete_then_load(s: Seq<(Seq<char>, Seq<char>)>, name: Seq<char>)
    requires
        unique_names(s),
    ensures
        lookup(store_delete(s, name), name) is None,
    decreases s.len(),
{
    reveal_with_fuel(lookup, 2);
    if s.len() == 0 {
    } else if s[0].0 == name {
        assert forall|i: int|
            0 <= i < s.drop_first().len() implies s.drop_first()[i].0 != name by {
            assert(s.drop_first()[i] == s[i + 1]);
        }
        lemma_lookup_missing(s.drop_first(), name);
    } else {
        assert forall|i: int, j: int|
            0 <= i < j < s.drop_first().len() implies s.drop_first()[i].0 != s.drop_first()[j].0 by {
            assert(s.drop_first()[i] == s[i + 1]);
            assert(s.drop_first()[j] == s[j + 1]);
        }
        lemma_delete_then_load(s.drop_first(), name);
        assert((seq![s[0]] + store_delete(s.drop_first(), name)).drop_first() =~= store_delete(
            s.drop_first(),
            name,
        ));
    }
}

/// Saving under one name never touches what is stored under another.
pub proof fn lemma_save_preserves_others(
    s: Seq<(Seq<char>, Seq<char>)>,
    name: Seq<char>,
    content: Seq<char>,
    other: Seq<char>,
)
    requires
        other != name,
    ensures
        lookup(store_save(s, name, content), other) == lookup(s, other),
    decreases s.len(),
{
    reveal_with_fuel(lookup, 2);
    if s.len() == 0 {
    } else if s[0].0 == name {
        assert((seq![(name, content)] + s.drop_first()).drop_first() =~= s.drop_first());
    } else {
        lemma_save_preserves_others(s.drop_first(), name, content, other);
        assert((seq![s[0]] + store_save(s.drop_first(), name, content)).drop_first()
            =~= store_save(s.drop_first(), name, content));
    }
}

/// Deleting one name never touches what is stored under another.
pub proof fn lemma_delete_preserves_others(
    s: Seq<(Seq<char>, Seq<char>)>,
    name: Seq<char>,
    other: Seq<char>,
)
    requires
        other != name,
    ensures
        lookup(store_delete(s, name), other) == lookup(s, other),
    decreases s.len(),
{
    reveal_with_fuel(lookup, 2);
    if s.len() == 0 {
    } else if s[0].0 == name {
    } else {
        lemma_delete_preserves_others(s.drop_first(), name, other);
        assert((seq![s[0]] + store_delete(s.drop_first(), name)).drop_first() =~= store_delete(
            s.drop_first(),
            name,
        ));
    }
}

/// A category that has never been created lists no documents at all.
pub proof fn lemma_fresh_store_lists_nothing()
    ensures
        json_names(Seq::<(Seq<char>, Seq<char>)>::empty()) == Seq::<Seq<char>>::empty(),
{
}

/// A name is listed exactly when a document is stored under it and the
/// name carries the `json` extension.
pub proof fn lemma_listed_iff_stored_json(s: Seq<(Seq<char>, Seq<char>)>, name: Seq<char>)
    ensures
        json_names(s).contains(name) <==> (lookup(s, name) is Some && is_json_name(name)),
    decreases s.len(),
{
    reveal_with_fuel(json_names, 2);
    reveal_with_fuel(lookup, 2);
    if s.len() == 0 {
        assert(!json_names(s).contains(name));
    } else {
        lemma_listed_iff_stored_json(s.drop_first(), name);
        let t = json_names(s.drop_first());
        if is_json_name(s[0].0) {
            assert(json_names(s) == seq![s[0].0] + t);
            if s[0].0 == name {
                assert(json_names(s)[0] == name);
                assert(json_names(s).contains(name));
            } else {
                if t.contains(name) {
                    let i = choose|i: int| 0 <= i < t.len() && t[i] == name;
                    assert(json_names(s)[i + 1] == name);
                    assert(json_names(s).contains(name));
                }
                if json_names(s).contains(name) {
                    let i = choose|i: int|
                        0 <= i < json_names(s).len() && json_names(s)[i] == name;
                    assert(i > 0);
                    assert(t[i - 1] == name);
                    assert(t.contains(name));
                }
            }
        } else {
            assert(json_names(s) == t);
            if s[0].0 == name {
                assert(!is_json_name(name));
            }
        }
    }
}

} // verus!
