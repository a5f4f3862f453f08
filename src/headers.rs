use vstd::prelude::*;
use vstd::utf8::decode_utf8;
use vstd::utf8::valid_utf8;

use crate::text::lemma_same_name_symmetric;
use crate::text::lemma_same_name_transitive;
use crate::text::names_match;
use crate::text::same_name;

verus! {

/// A header multimap: each name holds its values in arrival order.
/// Names are compared ignoring ASCII case; each name keeps the spelling it
/// was first given.
#[derive(Debug)]
pub struct HeaderMap {
    entries: Vec<(String, Vec<String>)>,
}

/// One entry of a header multimap, as text.
pub type HeaderEntry = (Seq<char>, Seq<Seq<char>>);

pub open spec fn texts(v: Seq<String>) -> Seq<Seq<char>> {
    v.map_values(|s: String| s@)
}

/// No two entries carry the same name.
pub open spec fn distinct_names(v: Seq<HeaderEntry>) -> bool {
    forall|i: int, j: int|
        0 <= i < v.len() && 0 <= j < v.len() && i != j ==> !same_name(
            #[trigger] v[i].0,
            #[trigger] v[j].0,
        )
}

pub open spec fn has_name(v: Seq<HeaderEntry>, name: Seq<char>) -> bool {
    exists|i: int| 0 <= i < v.len() && #[trigger] same_name(v[i].0, name)
}

/// The values stored under `name`, if the name is present.
pub open spec fn values_of(v: Seq<HeaderEntry>, name: Seq<char>) -> Option<Seq<Seq<char>>> {
    if has_name(v, name) {
        Some(v[choose|i: int| 0 <= i < v.len() && #[trigger] same_name(v[i].0, name)].1)
    } else {
        None
    }
}

/// The entry at `i` answers every lookup of a name equal to its own.
pub proof fn lemma_values_at(v: Seq<HeaderEntry>, i: int, name: Seq<char>)
    requires
        distinct_names(v),
        0 <= i < v.len(),
        same_name(v[i].0, name),
    ensures
        values_of(v, name) == Some(v[i].1),
{
    assert(has_name(v, name));
    let j = choose|j: int| 0 <= j < v.len() && #[trigger] same_name(v[j].0, name);
    lemma_same_name_symmetric(v[j].0, name);
    lemma_same_name_transitive(v[i].0, name, v[j].0);
    assert(i == j);
}

/// Replacing the values at `i` leaves lookups of every other name as they were.
pub proof fn lemma_update_frame(v: Seq<HeaderEntry>, i: int, vals: Seq<Seq<char>>, name: Seq<char>)
    requires
        distinct_names(v),
        0 <= i < v.len(),
    ensures
        distinct_names(v.update(i, (v[i].0, vals))),
        !same_name(v[i].0, name) ==> values_of(v.update(i, (v[i].0, vals)), name) == values_of(
            v,
            name,
        ),
        same_name(v[i].0, name) ==> values_of(v.update(i, (v[i].0, vals)), name) == Some(vals),
{
    let w = v.update(i, (v[i].0, vals));
    assert(forall|k: int| 0 <= k < v.len() ==> #[trigger] w[k].0 == v[k].0);
    if same_name(v[i].0, name) {
        lemma_values_at(w, i, name);
    } else if has_name(v, name) {
        let j = choose|j: int| 0 <= j < v.len() && #[trigger] same_name(v[j].0, name);
        lemma_values_at(v, j, name);
        lemma_values_at(w, j, name);
    } else {
        assert(!has_name(w, name));
    }
}

/// Adding an entry under a new name leaves lookups of every other name as they were.
pub proof fn lemma_push_frame(v: Seq<HeaderEntry>, e: HeaderEntry, name: Seq<char>)
    requires
        distinct_names(v),
        !has_name(v, e.0),
    ensures
        distinct_names(v.push(e)),
        !same_name(e.0, name) ==> values_of(v.push(e), name) == values_of(v, name),
        same_name(e.0, name) ==> values_of(v.push(e), name) == Some(e.1),
{
    let w = v.push(e);
    assert forall|i: int, j: int|
        0 <= i < w.len() && 0 <= j < w.len() && i != j implies !same_name(
        #[trigger] w[i].0,
        #[trigger] w[j].0,
    ) by {
        if i == v.len() && same_name(w[i].0, w[j].0) {
            lemma_same_name_symmetric(w[i].0, w[j].0);
            assert(same_name(v[j].0, e.0));
        }
        if j == v.len() && same_name(w[i].0, w[j].0) {
            assert(same_name(v[i].0, e.0));
        }
    }
    if same_name(e.0, name) {
        lemma_values_at(w, v.len() as int, name);
    } else if has_name(v, name) {
        let j = choose|j: int| 0 <= j < v.len() && #[trigger] same_name(v[j].0, name);
        lemma_values_at(v, j, name);
        lemma_values_at(w, j, name);
    } else {
        assert forall|k: int| 0 <= k < w.len() implies !#[trigger] same_name(w[k].0, name) by {
            if k < v.len() {
                assert(w[k] == v[k]);
            }
        }
    }
}

/// Lookups ignore ASCII case: names that are the same name find the same values.
pub proof fn lemma_lookup_same_name(v: Seq<HeaderEntry>, a: Seq<char>, b: Seq<char>)
    requires
        distinct_names(v),
        same_name(a, b),
    ensures
        values_of(v, a) == values_of(v, b),
{
    if has_name(v, a) {
        let i = choose|i: int| 0 <= i < v.len() && #[trigger] same_name(v[i].0, a);
        lemma_same_name_transitive(v[i].0, a, b);
        lemma_values_at(v, i, a);
        lemma_values_at(v, i, b);
    } else if has_name(v, b) {
        let i = choose|i: int| 0 <= i < v.len() && #[trigger] same_name(v[i].0, b);
        lemma_same_name_symmetric(a, b);
        lemma_same_name_transitive(v[i].0, b, a);
    }
}

impl View for HeaderMap {
    type V = Seq<HeaderEntry>;

    closed spec fn view(&self) -> Seq<HeaderEntry> {
        self.entries@.map_values(|e: (String, Vec<String>)| (e.0@, texts(e.1@)))
    }
}

impl HeaderMap {
    /// The map's invariant: names are pairwise different.
    pub open spec fn wf(&self) -> bool {
        distinct_names(self@)
    }

    /// The values stored under `name`, if any.
    pub open spec fn lookup(&self, name: Seq<char>) -> Option<Seq<Seq<char>>> {
        values_of(self@, name)
    }

    pub fn new() -> (r: HeaderMap)
        ensures
            r.wf(),
            r@ == Seq::<HeaderEntry>::empty(),
    {
        let r = HeaderMap { entries: Vec::new() };
        assert(r@ =~= Seq::<HeaderEntry>::empty());
        r
    }

    fn position(&self, name: &str) -> (r: Option<usize>)
        ensures
            match r {
                Some(i) => i < self@.len() && same_name(self@[i as int].0, name@),
                None => !has_name(self@, name@),
            },
    {
        let mut i: usize = 0;
        while i < self.entries.len()
            invariant
                i <= self.entries@.len(),
                self@.len() == self.entries@.len(),
                forall|k: int| 0 <= k < i ==> !#[trigger] same_name(self@[k].0, name@),
            decreases self.entries@.len() - i,
        {
            if names_match(self.entries[i].0.as_str(), name) {
                return Some(i);
            }
            i += 1;
        }
        None
    }

    /// The values stored under `name`, compared ignoring ASCII case.
    pub fn get(&self, name: &str) -> (r: Option<&Vec<String>>)
        requires
            self.wf(),
        ensures
            match r {
                Some(v) => self.lookup(name@) == Some(texts(v@)),
                None => self.lookup(name@) is None,
            },
    {
        match self.position(name) {
            Some(i) => {
                proof {
                    lemma_values_at(self@, i as int, name@);
                }
                Some(&self.entries[i].1)
            },
            None => None,
        }
    }

    /// Whether a value is stored under `name`.
    pub fn contains(&self, name: &str) -> (r: bool)
        requires
            self.wf(),
        ensures
            r == has_name(self@, name@),
    {
        self.position(name).is_some()
    }

    /// Stores `values` under `name`, replacing what the name held.
    pub fn insert(&mut self, name: String, values: Vec<String>)
        requires
            old(self).wf(),
        ensures
            final(self).wf(),
            final(self).lookup(name@) == Some(texts(values@)),
            forall|k: Seq<char>|
                !same_name(k, name@) ==> #[trigger] final(self).lookup(k) == old(self).lookup(k),
    {
        match self.position(name.as_str()) {
            Some(i) => {
                let ghost v = self@;
                let kept = self.entries[i].0.clone();
                self.entries.set(i, (kept, values));
                proof {
                    assert(self@ =~= v.update(i as int, (v[i as int].0, texts(values@))));
                    lemma_update_frame(v, i as int, texts(values@), name@);
                    assert forall|k: Seq<char>| !same_name(k, name@) implies #[trigger] self.lookup(
                        k,
                    ) == values_of(v, k) by {
                        lemma_update_frame(v, i as int, texts(values@), k);
                        if same_name(v[i as int].0, k) {
                            lemma_same_name_symmetric(v[i as int].0, k);
                            lemma_same_name_transitive(k, v[i as int].0, name@);
                        }
                    }
                }
            },
            None => {
                let ghost v = self@;
                let ghost e: HeaderEntry = (name@, texts(values@));
                self.entries.push((name, values));
                proof {
                    assert(self@ =~= v.push(e));
                    crate::text::lemma_same_name_reflexive(e.0);
                    lemma_push_frame(v, e, e.0);
                    assert forall|k: Seq<char>| !same_name(k, e.0) implies #[trigger] self.lookup(k)
                        == values_of(v, k) by {
                        lemma_push_frame(v, e, k);
                        lemma_same_name_symmetric(k, e.0);
                    }
                }
            },
        }
    }

    /// Adds `value` after the values already stored under `name`.
    pub fn append(&mut self, name: String, value: String)
        requires
            old(self).wf(),
        ensures
            final(self).wf(),
            final(self).lookup(name@) == Some(
                match old(self).lookup(name@) {
                    Some(vs) => vs,
                    None => Seq::<Seq<char>>::empty(),
                }.push(value@),
            ),
            forall|k: Seq<char>|
                !same_name(k, name@) ==> #[trigger] final(self).lookup(k) == old(self).lookup(k),
    {
        match self.position(name.as_str()) {
            Some(i) => {
                let ghost v = self@;
                let kept = self.entries[i].0.clone();
                let mut vals = self.entries[i].1.clone();
                assert(vals@ =~= self.entries@[i as int].1@);
                vals.push(value);
                let ghost newvals = texts(vals@);
                self.entries.set(i, (kept, vals));
                proof {
                    lemma_values_at(v, i as int, name@);
                    assert(newvals =~= v[i as int].1.push(value@));
                    assert(self@ =~= v.update(i as int, (v[i as int].0, newvals)));
                    lemma_update_frame(v, i as int, newvals, name@);
                    assert forall|k: Seq<char>| !same_name(k, name@) implies #[trigger] self.lookup(
                        k,
                    ) == values_of(v, k) by {
                        lemma_update_frame(v, i as int, newvals, k);
                        if same_name(v[i as int].0, k) {
                            lemma_same_name_symmetric(v[i as int].0, k);
                            lemma_same_name_transitive(k, v[i as int].0, name@);
                        }
                    }
                }
            },
            None => {
                let ghost v = self@;
                let ghost e: HeaderEntry = (name@, seq![value@]);
                let vals = vec![value];
                assert(texts(vals@) =~= seq![value@]);
                self.entries.push((name, vals));
                proof {
                    assert(self@ =~= v.push(e));
                    crate::text::lemma_same_name_reflexive(e.0);
                    lemma_push_frame(v, e, e.0);
                    assert(Seq::<Seq<char>>::empty().push(value@) =~= seq![value@]);
                    assert forall|k: Seq<char>| !same_name(k, e.0) implies #[trigger] self.lookup(k)
                        == values_of(v, k) by {
                        lemma_push_frame(v, e, k);
                        lemma_same_name_symmetric(k, e.0);
                    }
                }
            },
        }
    }

    /// Stores `value` under `name` only when the name holds nothing yet;
    /// a value already set is never overwritten.
    pub fn insert_if_absent(&mut self, name: &str, value: &str)
        requires
            old(self).wf(),
        ensures
            final(self).wf(),
            final(self)@ == if has_name(old(self)@, name@) {
                old(self)@
            } else {
                old(self)@.push((name@, seq![value@]))
            },
    {
        if !self.contains(name) {
            let ghost v = self@;
            let ghost e: HeaderEntry = (name@, seq![value@]);
            let vals = vec![value.to_owned()];
            assert(texts(vals@) =~= seq![value@]);
            self.entries.push((name.to_owned(), vals));
            proof {
                assert(self@ =~= v.push(e));
                lemma_push_frame(v, e, e.0);
            }
        }
    }

    /// The entries in the order their names first arrived.
    pub fn entries(&self) -> (r: &Vec<(String, Vec<String>)>)
        ensures
            r@.map_values(|e: (String, Vec<String>)| (e.0@, texts(e.1@))) == self@,
    {
        &self.entries
    }
}

/// What the host's lossy UTF-8 decoding makes of `b`.
pub uninterp spec fn lossy_utf8(b: Seq<u8>) -> Seq<char>;

/// Relies on `String::from_utf8_lossy`: the text of `b`, where each invalid
/// sequence becomes U+FFFD; valid UTF-8 is decoded unchanged.
#[verifier::external_body]
fn lossy_text(b: &[u8]) -> (r: String)
    ensures
        r@ == lossy_utf8(b@),
        valid_utf8(b@) ==> r@ == decode_utf8(b@),
{
    String::from_utf8_lossy(b).into_owned()
}

/// The header fields as the host hands them over: a name and raw bytes.
pub open spec fn field_texts(fields: Seq<(String, Vec<u8>)>) -> Seq<(Seq<char>, Seq<char>)> {
    fields.map_values(|f: (String, Vec<u8>)| (f.0@, lossy_utf8(f.1@)))
}

/// The values that `fields` give `name`, in arrival order, if any field has that name.
pub open spec fn grouped(fields: Seq<(Seq<char>, Seq<char>)>, name: Seq<char>) -> Option<
    Seq<Seq<char>>,
>
    decreases fields.len(),
{
    if fields.len() == 0 {
        None
    } else {
        let prev = grouped(fields.drop_last(), name);
        if same_name(fields.last().0, name) {
            Some(
                match prev {
                    Some(vs) => vs,
                    None => Seq::<Seq<char>>::empty(),
                }.push(fields.last().1),
            )
        } else {
            prev
        }
    }
}

/// Collects raw header fields into a multimap, decoding each value as UTF-8
/// (lossily) and keeping the values of each name in arrival order.
pub fn parse_headers(fields: &Vec<(String, Vec<u8>)>) -> (r: HeaderMap)
    ensures
        r.wf(),
        forall|name: Seq<char>| #[trigger] r.lookup(name) == grouped(field_texts(fields@), name),
{
    let mut output = HeaderMap::new();
    let ghost all = field_texts(fields@);
    let mut i: usize = 0;
    while i < fields.len()
        invariant
            i <= fields@.len(),
            all == field_texts(fields@),
            output.wf(),
            forall|name: Seq<char>| #[trigger] output.lookup(name) == grouped(all.take(i as int), name),
        decreases fields@.len() - i,
    {
        let name = fields[i].0.clone();
        let value = lossy_text(fields[i].1.as_slice());
        let ghost before = output;
        output.append(name, value);
        proof {
            assert(all.take(i as int + 1).drop_last() =~= all.take(i as int));
            assert forall|k: Seq<char>| #[trigger] output.lookup(k) == grouped(
                all.take(i as int + 1),
                k,
            ) by {
                if same_name(k, fields@[i as int].0@) {
                    lemma_same_name_symmetric(k, fields@[i as int].0@);
                    assert(values_of(output@, k) == values_of(output@, fields@[i as int].0@)) by {
                        let j = choose|j: int|
                            0 <= j < output@.len() && #[trigger] same_name(
                                output@[j].0,
                                fields@[i as int].0@,
                            );
                        lemma_values_at(output@, j, fields@[i as int].0@);
                        lemma_same_name_transitive(output@[j].0, fields@[i as int].0@, k);
                        lemma_values_at(output@, j, k);
                    }
                    assert(values_of(before@, k) == values_of(before@, fields@[i as int].0@)) by {
                        if has_name(before@, fields@[i as int].0@) {
                            let j = choose|j: int|
                                0 <= j < before@.len() && #[trigger] same_name(
                                    before@[j].0,
                                    fields@[i as int].0@,
                                );
                            lemma_values_at(before@, j, fields@[i as int].0@);
                            lemma_same_name_transitive(before@[j].0, fields@[i as int].0@, k);
                            lemma_values_at(before@, j, k);
                        } else if has_name(before@, k) {
                            let j = choose|j: int|
                                0 <= j < before@.len() && #[trigger] same_name(before@[j].0, k);
                            lemma_same_name_transitive(before@[j].0, k, fields@[i as int].0@);
                        }
                    }
                }
            }
        }
        i += 1;
    }
    assert(all.take(fields@.len() as int) =~= all);
    output
}


} // verus!
