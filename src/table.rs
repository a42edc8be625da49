//! An insertion-ordered table of records keyed by their identifier.

use vstd::prelude::*;
use crate::ids::same_id;

verus! {

/// A record that carries its own identifier.
pub trait Keyed {
    /// The identifier, as text.
    spec fn key(&self) -> Seq<char>;

    /// The identifier of the record.
    fn key_str(&self) -> (r: &str)
        ensures
            r@ == self.key(),
    ;
}

/// The identifiers of a sequence of records, in order.
pub open spec fn keys_of<T: Keyed>(s: Seq<T>) -> Seq<Seq<char>> {
    s.map_values(|t: T| t.key())
}

/// No identifier occurs twice.
pub open spec fn unique_keys<T: Keyed>(s: Seq<T>) -> bool {
    forall|i: int, j: int|
        0 <= i < s.len() && 0 <= j < s.len() && i != j ==> #[trigger] s[i].key() != #[trigger] s[j].key()
}

/// Some record of `s` has identifier `k`.
pub open spec fn seq_has<T: Keyed>(s: Seq<T>, k: Seq<char>) -> bool {
    exists|i: int| 0 <= i < s.len() && #[trigger] s[i].key() == k
}

/// The record that `choose` picks with identifier `k`.
pub open spec fn seq_position<T: Keyed>(s: Seq<T>, k: Seq<char>) -> int {
    choose|i: int| 0 <= i < s.len() && #[trigger] s[i].key() == k
}

/// `s` with `t` inserted: the record with the same identifier is replaced
/// where it stands, else `t` is appended.
pub open spec fn seq_inserted<T: Keyed>(s: Seq<T>, t: T) -> Seq<T> {
    if seq_has(s, t.key()) {
        s.update(seq_position(s, t.key()), t)
    } else {
        s.push(t)
    }
}

/// With unique identifiers, the record with identifier `k` is the one at the
/// index where it stands.
pub proof fn lemma_position_unique<T: Keyed>(s: Seq<T>, j: int)
    requires
        unique_keys(s),
        0 <= j < s.len(),
    ensures
        seq_has(s, s[j].key()),
        seq_position(s, s[j].key()) == j,
{
    let k = s[j].key();
    assert(seq_has(s, k));
    let p = seq_position(s, k);
    assert(0 <= p < s.len() && s[p].key() == k);
}

/// Inserting keeps every identifier, adds that of the new record, keeps
/// identifiers unique, and leaves the records of other identifiers where
/// they were.
pub proof fn lemma_inserted<T: Keyed>(s: Seq<T>, t: T)
    requires
        unique_keys(s),
    ensures
        unique_keys(seq_inserted(s, t)),
        forall|k: Seq<char>| #[trigger] seq_has(seq_inserted(s, t), k) <==> (seq_has(s, k) || k == t.key()),
        seq_has(seq_inserted(s, t), t.key()),
        seq_inserted(s, t)[seq_position(seq_inserted(s, t), t.key())] == t,
        forall|k: Seq<char>| seq_has(s, k) && k != t.key() ==>
            #[trigger] seq_inserted(s, t)[seq_position(seq_inserted(s, t), k)] == s[seq_position(s, k)],
{
    let n = seq_inserted(s, t);
    if seq_has(s, t.key()) {
        let j = seq_position(s, t.key());
        assert(0 <= j < s.len() && s[j].key() == t.key());
        assert forall|a: int, b: int| 0 <= a < n.len() && 0 <= b < n.len() && a != b implies
            #[trigger] n[a].key() != #[trigger] n[b].key() by {
            if a != j && b != j {
                assert(s[a].key() != s[b].key());
            } else if a == j {
                assert(s[b].key() != s[a].key());
            } else {
                assert(s[a].key() != s[b].key());
            }
        }
        assert forall|k: Seq<char>| #[trigger] seq_has(n, k) <==> (seq_has(s, k) || k == t.key()) by {
            if seq_has(s, k) {
                let i = seq_position(s, k);
                assert(0 <= i < s.len() && s[i].key() == k);
                if i == j {
                    assert(n[j].key() == k);
                } else {
                    assert(n[i].key() == k);
                }
            }
            if seq_has(n, k) {
                let i = seq_position(n, k);
                assert(0 <= i < n.len() && n[i].key() == k);
                if i != j {
                    assert(s[i].key() == k);
                }
            }
            if k == t.key() {
                assert(n[j].key() == k);
            }
        }
        lemma_position_unique(n, j);
        assert forall|k: Seq<char>| seq_has(s, k) && k != t.key() implies
            #[trigger] n[seq_position(n, k)] == s[seq_position(s, k)] by {
            let i = seq_position(s, k);
            assert(0 <= i < s.len() && s[i].key() == k);
            assert(i != j);
            assert(n[i] == s[i]);
            lemma_position_unique(n, i);
        }
    } else {
        let j = s.len() as int;
        assert forall|a: int, b: int| 0 <= a < n.len() && 0 <= b < n.len() && a != b implies
            #[trigger] n[a].key() != #[trigger] n[b].key() by {
            if a != j && b != j {
                assert(s[a].key() != s[b].key());
            } else if a == j {
                assert(n[b] == s[b]);
                assert(!(s[b].key() == t.key()));
            } else {
                assert(n[a] == s[a]);
                assert(!(s[a].key() == t.key()));
            }
        }
        assert forall|k: Seq<char>| #[trigger] seq_has(n, k) <==> (seq_has(s, k) || k == t.key()) by {
            if seq_has(s, k) {
                let i = seq_position(s, k);
                assert(0 <= i < s.len() && s[i].key() == k);
                assert(n[i].key() == k);
            }
            if seq_has(n, k) {
                let i = seq_position(n, k);
                assert(0 <= i < n.len() && n[i].key() == k);
                if i != j {
                    assert(s[i].key() == k);
                }
            }
            if k == t.key() {
                assert(n[j].key() == k);
            }
        }
        lemma_position_unique(n, j);
        assert forall|k: Seq<char>| seq_has(s, k) && k != t.key() implies
            #[trigger] n[seq_position(n, k)] == s[seq_position(s, k)] by {
            let i = seq_position(s, k);
            assert(0 <= i < s.len() && s[i].key() == k);
            assert(n[i] == s[i]);
            lemma_position_unique(n, i);
        }
    }
}

/// Each record after an insertion is the new one or the one that stood there.
pub proof fn lemma_inserted_elems<T: Keyed>(s: Seq<T>, t: T)
    ensures
        seq_inserted(s, t).len() >= s.len(),
        forall|i: int| 0 <= i < seq_inserted(s, t).len() ==>
            #[trigger] seq_inserted(s, t)[i] == t || (i < s.len() && seq_inserted(s, t)[i] == s[i]),
{
}

/// Records kept in the order in which their identifiers were first inserted;
/// each identifier occurs once.
#[derive(Debug)]
pub struct Table<T: Keyed> {
    entries: Vec<T>,
}

impl<T: Keyed> View for Table<T> {
    type V = Seq<T>;

    closed spec fn view(&self) -> Seq<T> {
        self.entries@
    }
}

impl<T: Keyed> Table<T> {
    /// Well-formed: each identifier occurs once.
    pub open spec fn wf(&self) -> bool {
        unique_keys(self@)
    }

    /// Whether some record has identifier `k`.
    pub open spec fn has(&self, k: Seq<char>) -> bool {
        seq_has(self@, k)
    }

    /// The position of the record with identifier `k`.
    pub open spec fn position_of(&self, k: Seq<char>) -> int {
        seq_position(self@, k)
    }

    /// The record with identifier `k`.
    pub open spec fn lookup(&self, k: Seq<char>) -> T {
        self@[self.position_of(k)]
    }

    /// An empty table.
    pub fn new() -> (r: Self)
        ensures
            r@ == Seq::<T>::empty(),
            r.wf(),
    {
        Table { entries: Vec::new() }
    }

    /// Number of records.
    pub fn len(&self) -> (r: usize)
        ensures
            r == self@.len(),
    {
        self.entries.len()
    }

    /// The records, in order.
    pub fn values(&self) -> (r: &Vec<T>)
        ensures
            r@ == self@,
    {
        &self.entries
    }

    /// Position of the record with identifier `key`, if any.
    pub fn find(&self, key: &str) -> (r: Option<usize>)
        requires
            self.wf(),
        ensures
            r is None <==> !self.has(key@),
            r matches Some(i) ==> i < self@.len() && self@[i as int].key() == key@
                && i == self.position_of(key@),
    {
        let mut i: usize = 0;
        while i < self.entries.len()
            invariant
                self.wf(),
                i <= self.entries@.len(),
                forall|j: int| 0 <= j < i ==> #[trigger] self.entries@[j].key() != key@,
            decreases self.entries@.len() - i,
        {
            if same_id(self.entries[i].key_str(), key) {
                assert(self@[i as int].key() == key@);
                assert(self.has(key@));
                let ghost p = self.position_of(key@);
                assert(0 <= p < self@.len() && self@[p].key() == key@);
                assert(p == i as int);
                return Some(i);
            }
            i = i + 1;
        }
        None
    }

    /// Whether a record has identifier `key`.
    pub fn contains_key(&self, key: &str) -> (r: bool)
        requires
            self.wf(),
        ensures
            r == self.has(key@),
    {
        self.find(key).is_some()
    }

    /// The record with identifier `key`, if any.
    pub fn get(&self, key: &str) -> (r: Option<&T>)
        requires
            self.wf(),
        ensures
            r is None <==> !self.has(key@),
            r matches Some(t) ==> *t == self.lookup(key@) && t.key() == key@,
    {
        match self.find(key) {
            Some(i) => Some(&self.entries[i]),
            None => None,
        }
    }

    /// Insert `t`, replacing the record with the same identifier if there is one.
    pub fn insert(&mut self, t: T)
        requires
            old(self).wf(),
        ensures
            final(self).wf(),
            final(self)@ == seq_inserted(old(self)@, t),
            final(self)@.len() == old(self)@.len() + if old(self).has(t.key()) { 0int } else { 1int },
    {
        let found = self.find(t.key_str());
        match found {
            Some(i) => {
                let ghost s = self.entries@;
                self.entries.set(i, t);
                assert(unique_keys(self.entries@)) by {
                    assert forall|a: int, b: int|
                        0 <= a < self.entries@.len() && 0 <= b < self.entries@.len() && a != b implies
                        #[trigger] self.entries@[a].key() != #[trigger] self.entries@[b].key() by {
                        if a != i && b != i {
                            assert(s[a].key() != s[b].key());
                        } else if a == i {
                            assert(s[b].key() != s[a].key());
                        } else {
                            assert(s[a].key() != s[b].key());
                        }
                    }
                }
            },
            None => {
                self.entries.push(t);
            },
        }
    }

    /// A length, in characters, that no identifier in the table exceeds.
    pub fn longest_key(&self) -> (r: usize)
        ensures
            forall|i: int| 0 <= i < self@.len() ==> #[trigger] self@[i].key().len() <= r,
    {
        let mut m: usize = 0;
        let mut i: usize = 0;
        while i < self.entries.len()
            invariant
                i <= self.entries@.len(),
                forall|j: int| 0 <= j < i ==> #[trigger] self.entries@[j].key().len() <= m,
            decreases self.entries@.len() - i,
        {
            let n = self.entries[i].key_str().unicode_len();
            if n > m {
                m = n;
            }
            i = i + 1;
        }
        m
    }

    /// Remove every record.
    pub fn clear(&mut self)
        ensures
            final(self)@ == Seq::<T>::empty(),
            final(self).wf(),
    {
        self.entries.clear();
    }
}

} // verus!
