use vstd::prelude::*;

verus! {

/// One paste: an opaque id unique across all owners, the submitted text and
/// the creation instant. Pastes are immutable and never deleted.
pub struct Paste {
    pub id: String,
    pub text: String,
    pub created_at: i64,
}

/// The model of one paste.
pub struct PasteData {
    pub id: Seq<char>,
    pub text: Seq<char>,
    pub created_at: int,
}

impl View for Paste {
    type V = PasteData;

    open spec fn view(&self) -> PasteData {
        PasteData { id: self.id@, text: self.text@, created_at: self.created_at as int }
    }
}

/// The pastes of `owner`, in creation order.
pub open spec fn pastes_of(s: Seq<(Seq<char>, PasteData)>, owner: Seq<char>) -> Seq<PasteData>
    decreases s.len(),
{
    if s.len() == 0 {
        Seq::empty()
    } else if s.last().0 == owner {
        pastes_of(s.drop_last(), owner).push(s.last().1)
    } else {
        pastes_of(s.drop_last(), owner)
    }
}

/// Whether some stored paste carries `id`.
pub open spec fn has_id(s: Seq<(Seq<char>, PasteData)>, id: Seq<char>) -> bool {
    exists|i: int| 0 <= i < s.len() && s[i].1.id == id
}

/// The first stored (owner, paste) pair whose paste carries `id`; with
/// distinct ids it is the only one.
pub open spec fn find_by_id(s: Seq<(Seq<char>, PasteData)>, id: Seq<char>) -> Option<
    (Seq<char>, PasteData),
>
    decreases s.len(),
{
    if s.len() == 0 {
        None
    } else if s.first().1.id == id {
        Some(s.first())
    } else {
        find_by_id(s.drop_first(), id)
    }
}

/// No two stored pastes share an id, whoever owns them.
pub open spec fn distinct_ids(s: Seq<(Seq<char>, PasteData)>) -> bool {
    forall|i: int, j: int| 0 <= i < j < s.len() ==> s[i].1.id != s[j].1.id
}

/// A scan finds a paste exactly when some stored paste carries the id.
pub proof fn lemma_find_by_id_none(s: Seq<(Seq<char>, PasteData)>, id: Seq<char>)
    ensures
        (find_by_id(s, id) is None) <==> !has_id(s, id),
    decreases s.len(),
{
    if s.len() == 0 {
    } else if s.first().1.id == id {
        assert(s[0].1.id == id);
    } else {
        lemma_find_by_id_none(s.drop_first(), id);
        if has_id(s, id) {
            let i = choose|i: int| 0 <= i < s.len() && s[i].1.id == id;
            assert(s.drop_first()[i - 1].1.id == id);
        }
        if has_id(s.drop_first(), id) {
            let i = choose|i: int| 0 <= i < s.drop_first().len() && s.drop_first()[i].1.id == id;
            assert(s[i + 1].1.id == id);
        }
    }
}

/// With distinct ids, the scan returns the one stored pair whose paste
/// carries the id.
pub proof fn lemma_find_by_id_at(s: Seq<(Seq<char>, PasteData)>, id: Seq<char>, i: int)
    requires
        distinct_ids(s),
        0 <= i < s.len(),
        s[i].1.id == id,
    ensures
        find_by_id(s, id) == Some(s[i]),
    decreases s.len(),
{
    if i == 0 {
    } else {
        assert(s[0].1.id != id);
        assert(distinct_ids(s.drop_first())) by {
            assert(forall|x: int, y: int|
                0 <= x < y < s.drop_first().len() ==> s.drop_first()[x].1.id
                    != s.drop_first()[y].1.id) by {
                assert(forall|x: int, y: int|
                    0 <= x < y < s.drop_first().len() ==> (s.drop_first()[x] == s[x + 1]
                        && s.drop_first()[y] == s[y + 1]));
            }
        }
        assert(s.drop_first()[i - 1] == s[i]);
        lemma_find_by_id_at(s.drop_first(), id, i - 1);
    }
}

/// The paste store: owner -> pastes in creation order, modelled as the
/// sequence of (owner, paste) pairs in creation order across all owners.
/// Its invariant is the global uniqueness of paste ids.
pub struct PasteStore {
    entries: Vec<(String, Paste)>,
}

impl View for PasteStore {
    type V = Seq<(Seq<char>, PasteData)>;

    closed spec fn view(&self) -> Seq<(Seq<char>, PasteData)> {
        self.entries@.map_values(|e: (String, Paste)| (e.0@, e.1@))
    }
}

impl PasteStore {
    /// The store's invariant: paste ids are unique across all owners.
    pub open spec fn wf(self) -> bool {
        distinct_ids(self@)
    }

    /// An empty store: the fresh-install state.
    pub fn new() -> (r: Self)
        ensures
            r@ == Seq::<(Seq<char>, PasteData)>::empty(),
            r.wf(),
    {
        let r = PasteStore { entries: Vec::new() };
        proof {
            assert(r@ =~= Seq::<(Seq<char>, PasteData)>::empty());
        }
        r
    }

    /// Whether some stored paste already carries `id`.
    pub fn contains_id(&self, id: &String) -> (r: bool)
        ensures
            r == has_id(self@, id@),
    {
        let mut i: usize = 0;
        while i < self.entries.len()
            invariant
                i <= self.entries.len(),
                self@.len() == self.entries@.len(),
                forall|j: int| 0 <= j < i ==> self@[j].1.id != id@,
            decreases self.entries.len() - i,
        {
            if self.entries[i].1.id == *id {
                proof {
                    assert(0 <= i < self@.len() && self@[i as int].1.id == id@);
                }
                return true;
            }
            i = i + 1;
        }
        false
    }

    /// Appends a paste with a fresh id to `owner`'s sequence (an owner not
    /// seen before starts one). The caller persists the store afterwards.
    pub fn insert(&mut self, owner: String, id: String, text: String, created_at: i64)
        requires
            old(self).wf(),
            !has_id(old(self)@, id@),
        ensures
            final(self).wf(),
            final(self)@ == old(self)@.push(
                (owner@, PasteData { id: id@, text: text@, created_at: created_at as int }),
            ),
    {
        let ghost ov = owner@;
        let ghost pv = PasteData { id: id@, text: text@, created_at: created_at as int };
        self.entries.push((owner, Paste { id, text, created_at }));
        proof {
            assert(self@ =~= old(self)@.push((ov, pv)));
            assert forall|i: int, j: int| 0 <= i < j < self@.len() implies self@[i].1.id
                != self@[j].1.id by {
                if j < old(self)@.len() {
                    assert(self@[i] == old(self)@[i] && self@[j] == old(self)@[j]);
                } else {
                    assert(self@[i] == old(self)@[i]);
                    assert(!(0 <= i < old(self)@.len() && old(self)@[i].1.id == pv.id));
                }
            }
        }
    }

    /// Restores one paste record read back from a durable snapshot. A record
    /// whose id is already present — a corrupt snapshot — is dropped rather
    /// than let break the uniqueness of ids; the result says whether the
    /// record was taken.
    pub fn insert_loaded(&mut self, owner: String, id: String, text: String, created_at: i64) -> (r:
        bool)
        requires
            old(self).wf(),
        ensures
            final(self).wf(),
            r == !has_id(old(self)@, id@),
            final(self)@ == (if r {
                old(self)@.push(
                    (owner@, PasteData { id: id@, text: text@, created_at: created_at as int }),
                )
            } else {
                old(self)@
            }),
    {
        if self.contains_id(&id) {
            false
        } else {
            self.insert(owner, id, text, created_at);
            true
        }
    }

    /// The pastes of `owner` in creation order: empty both for an owner with
    /// no pastes and for one never seen, indistinguishably.
    pub fn list_by_owner(&self, owner: &String) -> (r: Vec<Paste>)
        ensures
            r@.map_values(|p: Paste| p@) == pastes_of(self@, owner@),
    {
        let mut result: Vec<Paste> = Vec::new();
        proof {
            assert(result@.map_values(|p: Paste| p@) =~= pastes_of(self@.take(0), owner@));
        }
        let mut i: usize = 0;
        while i < self.entries.len()
            invariant
                i <= self.entries.len(),
                self@.len() == self.entries@.len(),
                result@.map_values(|p: Paste| p@) == pastes_of(self@.take(i as int), owner@),
            decreases self.entries.len() - i,
        {
            let ghost prefix = self@.take(i as int + 1);
            proof {
                assert(prefix.drop_last() =~= self@.take(i as int));
                assert(prefix.last() == self@[i as int]);
            }
            let e = &self.entries[i];
            if e.0 == *owner {
                let p = Paste {
                    id: e.1.id.clone(),
                    text: e.1.text.clone(),
                    created_at: e.1.created_at,
                };
                result.push(p);
                proof {
                    assert(result@.map_values(|p: Paste| p@) =~= pastes_of(prefix, owner@));
                }
            } else {
                proof {
                    assert(result@.map_values(|p: Paste| p@) =~= pastes_of(prefix, owner@));
                }
            }
            i = i + 1;
        }
        proof {
            assert(self@.take(self@.len() as int) =~= self@);
        }
        result
    }

    /// The stored entry whose paste carries `id`, by a linear scan across all
    /// owners; ids are unique, so at most one entry matches.
    pub fn get_by_id(&self, id: &String) -> (r: Option<&(String, Paste)>)
        ensures
            match r {
                Some(e) => find_by_id(self@, id@) == Some((e.0@, e.1@)),
                None => !has_id(self@, id@),
            },
    {
        proof {
            assert(self@.skip(0) =~= self@);
        }
        let mut i: usize = 0;
        while i < self.entries.len()
            invariant
                i <= self.entries.len(),
                self@.len() == self.entries@.len(),
                find_by_id(self@, id@) == find_by_id(self@.skip(i as int), id@),
            decreases self.entries.len() - i,
        {
            let ghost rest = self@.skip(i as int);
            proof {
                assert(rest.first() == self@[i as int]);
                assert(rest.drop_first() =~= self@.skip(i as int + 1));
            }
            if self.entries[i].1.id == *id {
                return Some(&self.entries[i]);
            }
            i = i + 1;
        }
        proof {
            assert(self@.skip(self@.len() as int) =~= Seq::<(Seq<char>, PasteData)>::empty());
            lemma_find_by_id_none(self@, id@);
        }
        None
    }

    /// The stored entries in creation order, for writing a durable snapshot.
    pub fn records(&self) -> (r: &Vec<(String, Paste)>)
        ensures
            r@.map_values(|e: (String, Paste)| (e.0@, e.1@)) == self@,
    {
        &self.entries
    }
}

} // verus!
