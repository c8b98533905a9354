//! The book of named treasuries that a database holds, kept in name order.
//!
//! Names are ordered as strings are: character by character by code point,
//! a proper prefix coming first. A listing of the book runs in that order,
//! each name once.

use vstd::prelude::*;
use vstd::string::*;
use crate::profile::OrbProfile;

verus! {

/// `a` comes strictly before `b` in string order.
pub open spec fn name_less(a: Seq<char>, b: Seq<char>) -> bool
    decreases a.len(),
{
    if a.len() == 0 {
        b.len() > 0
    } else if b.len() == 0 {
        false
    } else if a[0] != b[0] {
        a[0] < b[0]
    } else {
        name_less(a.drop_first(), b.drop_first())
    }
}

/// No name comes before itself.
pub proof fn lemma_name_less_irreflexive(a: Seq<char>)
    ensures
        !name_less(a, a),
    decreases a.len(),
{
    if a.len() > 0 {
        lemma_name_less_irreflexive(a.drop_first());
    }
}

/// String order is transitive.
pub proof fn lemma_name_less_transitive(a: Seq<char>, b: Seq<char>, c: Seq<char>)
    requires
        name_less(a, b),
        name_less(b, c),
    ensures
        name_less(a, c),
    decreases a.len(),
{
    if a.len() > 0 && b.len() > 0 && c.len() > 0 {
        if a[0] == b[0] && b[0] == c[0] {
            lemma_name_less_transitive(a.drop_first(), b.drop_first(), c.drop_first());
        }
    }
}

/// Of two different names, one comes before the other.
pub proof fn lemma_name_less_total(a: Seq<char>, b: Seq<char>)
    requires
        a != b,
    ensures
        name_less(a, b) || name_less(b, a),
    decreases a.len(),
{
    if a.len() > 0 && b.len() > 0 && a[0] == b[0] {
        if a.drop_first() == b.drop_first() {
            assert(a =~= seq![a[0]] + a.drop_first());
            assert(b =~= seq![b[0]] + b.drop_first());
        }
        lemma_name_less_total(a.drop_first(), b.drop_first());
    } else if a.len() == 0 && b.len() == 0 {
        assert(a =~= b);
    }
}

/// String order is decided by the first character where two names differ,
/// compared by code point: with a common prefix of length `i` and different
/// characters at `i`, `a` comes first exactly when its character is smaller.
pub proof fn lemma_name_less_first_difference(a: Seq<char>, b: Seq<char>, i: int)
    requires
        0 <= i < a.len(),
        i < b.len(),
        a.take(i) == b.take(i),
        a[i] != b[i],
    ensures
        name_less(a, b) == (a[i] < b[i]),
    decreases i,
{
    if i > 0 {
        assert(a[0] == a.take(i)[0]);
        assert(b[0] == b.take(i)[0]);
        assert(a.drop_first().take(i - 1) =~= a.take(i).drop_first());
        assert(b.drop_first().take(i - 1) =~= b.take(i).drop_first());
        lemma_name_less_first_difference(a.drop_first(), b.drop_first(), i - 1);
    }
}

/// A proper prefix comes before the longer name.
pub proof fn lemma_name_less_prefix(a: Seq<char>, b: Seq<char>)
    requires
        a.len() < b.len(),
        b.take(a.len() as int) == a,
    ensures
        name_less(a, b),
    decreases a.len(),
{
    if a.len() > 0 {
        assert(a[0] == b.take(a.len() as int)[0]);
        assert(b.drop_first().take(a.drop_first().len() as int) =~= a.drop_first());
        lemma_name_less_prefix(a.drop_first(), b.drop_first());
    }
}

/// A name never comes both before and after another.
pub proof fn lemma_name_less_asymmetric(a: Seq<char>, b: Seq<char>)
    requires
        name_less(a, b),
    ensures
        !name_less(b, a),
{
    if name_less(b, a) {
        lemma_name_less_transitive(a, b, a);
        lemma_name_less_irreflexive(a);
    }
}

/// Whether string `a` comes strictly before string `b`.
pub fn names_in_order(a: &str, b: &str) -> (r: bool)
    ensures
        r == name_less(a@, b@),
{
    let la = a.unicode_len();
    let lb = b.unicode_len();
    let mut i: usize = 0;
    assert(a@.skip(0) =~= a@);
    assert(b@.skip(0) =~= b@);
    while i < la && i < lb
        invariant
            la == a@.len(),
            lb == b@.len(),
            i <= la,
            i <= lb,
            name_less(a@, b@) == name_less(a@.skip(i as int), b@.skip(i as int)),
        decreases la - i,
    {
        let ca = a.get_char(i);
        let cb = b.get_char(i);
        assert(a@.skip(i as int)[0] == ca);
        assert(b@.skip(i as int)[0] == cb);
        if ca != cb {
            return ca < cb;
        }
        assert(a@.skip(i as int).drop_first() =~= a@.skip(i + 1));
        assert(b@.skip(i as int).drop_first() =~= b@.skip(i + 1));
        i = i + 1;
    }
    assert(a@.skip(i as int).len() == la - i);
    assert(b@.skip(i as int).len() == lb - i);
    i == la && i < lb
}

/// One treasury of the book under its name.
#[derive(Debug)]
pub struct TreasuryEntry {
    pub name: String,
    pub profile: OrbProfile,
}

/// The names of a listing strictly increase, so none occurs twice.
pub open spec fn in_name_order(s: Seq<TreasuryEntry>) -> bool {
    forall|i: int, j: int|
        0 <= i < j < s.len() ==> name_less(#[trigger] s[i].name@, #[trigger] s[j].name@)
}

/// Whether some entry of the listing bears `name`.
pub open spec fn lists_name(s: Seq<TreasuryEntry>, name: Seq<char>) -> bool {
    exists|i: int| 0 <= i < s.len() && #[trigger] s[i].name@ == name
}

/// The position of an entry bearing `name` (meaningful when one does).
pub open spec fn name_index(s: Seq<TreasuryEntry>, name: Seq<char>) -> int {
    choose|i: int| 0 <= i < s.len() && #[trigger] s[i].name@ == name
}

/// The profile of an entry bearing `name` (meaningful when one does).
pub open spec fn listed_profile(s: Seq<TreasuryEntry>, name: Seq<char>) -> OrbProfile {
    s[name_index(s, name)].profile
}

/// The map from names to profiles that a listing spells.
pub open spec fn listing_map(s: Seq<TreasuryEntry>) -> Map<Seq<char>, OrbProfile> {
    Map::new(|k: Seq<char>| lists_name(s, k), |k: Seq<char>| listed_profile(s, k))
}

/// In a listing in name order, the map holds each entry's profile under its name.
pub proof fn lemma_listing_at(s: Seq<TreasuryEntry>, i: int)
    requires
        in_name_order(s),
        0 <= i < s.len(),
    ensures
        listing_map(s).contains_key(s[i].name@),
        listing_map(s)[s[i].name@] == s[i].profile,
{
    let k = s[i].name@;
    assert(exists|j: int| 0 <= j < s.len() && #[trigger] s[j].name@ == k);
    let j = name_index(s, k);
    if j != i {
        if j < i {
            assert(name_less(s[j].name@, s[i].name@));
        } else {
            assert(name_less(s[i].name@, s[j].name@));
        }
        lemma_name_less_irreflexive(k);
    }
    assert(j == i);
    assert(lists_name(s, k));
    assert(listing_map(s)[k] == listed_profile(s, k));
    assert(listed_profile(s, k) == s[j].profile);
}

/// The treasuries of one database, by name.
pub struct TreasuryBook {
    entries: Vec<TreasuryEntry>,
}

impl View for TreasuryBook {
    type V = Map<Seq<char>, OrbProfile>;

    closed spec fn view(&self) -> Map<Seq<char>, OrbProfile> {
        listing_map(self.entries@)
    }
}

impl TreasuryBook {
    /// The book's entries are kept in name order.
    pub closed spec fn wf(&self) -> bool {
        in_name_order(self.entries@)
    }

    /// An empty book.
    pub fn new() -> (b: TreasuryBook)
        ensures
            b.wf(),
            b@ == Map::<Seq<char>, OrbProfile>::empty(),
    {
        let b = TreasuryBook { entries: Vec::new() };
        assert(b@ =~= Map::<Seq<char>, OrbProfile>::empty());
        b
    }

    /// Files `profile` under `name`, replacing what was filed there before.
    pub fn insert(&mut self, name: String, profile: OrbProfile)
        requires
            old(self).wf(),
        ensures
            final(self).wf(),
            final(self)@ == old(self)@.insert(name@, profile),
    {
        let ghost old_entries = self.entries@;
        let len = self.entries.len();
        let mut i: usize = 0;
        while i < len
            invariant
                len == self.entries@.len(),
                self.entries@ == old_entries,
                i <= len,
                forall|j: int| 0 <= j < i ==> name_less(#[trigger] old_entries[j].name@, name@),
            ensures
                i <= len,
                self.entries@ == old_entries,
                forall|j: int| 0 <= j < i ==> name_less(#[trigger] old_entries[j].name@, name@),
                i < len ==> !name_less(old_entries[i as int].name@, name@),
            decreases len - i,
        {
            if !names_in_order(self.entries[i].name.as_str(), name.as_str()) {
                break;
            }
            i = i + 1;
        }
        let ghost k = name@;
        if i < len && self.entries[i].name == name {
            self.entries.set(i, TreasuryEntry { name, profile });
            let ghost new_entries = self.entries@;
            assert(in_name_order(new_entries)) by {
                assert forall|a: int, b: int| 0 <= a < b < new_entries.len() implies name_less(
                    #[trigger] new_entries[a].name@,
                    #[trigger] new_entries[b].name@,
                ) by {
                    assert(old_entries[a].name@ == new_entries[a].name@);
                    assert(old_entries[b].name@ == new_entries[b].name@);
                }
            }
            assert(listing_map(new_entries) =~= listing_map(old_entries).insert(k, profile)) by {
                lemma_listing_at(new_entries, i as int);
                assert forall|key: Seq<char>|
                    #[trigger] listing_map(new_entries).contains_key(key) <==> listing_map(
                        old_entries,
                    ).insert(k, profile).contains_key(key) by {
                    if listing_map(old_entries).contains_key(key) {
                        let j = choose|j: int| 0 <= j < old_entries.len() && #[trigger] old_entries[j].name@ == key;
                        assert(new_entries[j].name@ == key);
                    }
                    if listing_map(new_entries).contains_key(key) {
                        let j = choose|j: int| 0 <= j < new_entries.len() && #[trigger] new_entries[j].name@ == key;
                        assert(old_entries[j].name@ == key);
                    }
                }
                assert forall|key: Seq<char>| #[trigger] listing_map(new_entries).contains_key(key) implies listing_map(
                    new_entries,
                )[key] == listing_map(old_entries).insert(k, profile)[key] by {
                    if key != k {
                        let j = choose|j: int| 0 <= j < new_entries.len() && #[trigger] new_entries[j].name@ == key;
                        lemma_listing_at(new_entries, j);
                        lemma_listing_at(old_entries, j);
                    }
                }
            }
        } else {
            proof {
                if i < len {
                    lemma_name_less_total(old_entries[i as int].name@, k);
                }
            }
            self.entries.insert(i, TreasuryEntry { name, profile });
            let ghost new_entries = self.entries@;
            assert(in_name_order(new_entries)) by {
                assert forall|a: int, b: int| 0 <= a < b < new_entries.len() implies name_less(
                    #[trigger] new_entries[a].name@,
                    #[trigger] new_entries[b].name@,
                ) by {
                    if b < i {
                        assert(new_entries[a] == old_entries[a]);
                        assert(new_entries[b] == old_entries[b]);
                    } else if b == i {
                        assert(new_entries[a] == old_entries[a]);
                    } else if a < i {
                        assert(new_entries[a] == old_entries[a]);
                        assert(new_entries[b] == old_entries[b - 1]);
                        assert(name_less(old_entries[a].name@, k));
                        assert(name_less(k, old_entries[i as int].name@));
                        lemma_name_less_transitive(old_entries[a].name@, k, old_entries[i as int].name@);
                        if b - 1 > i {
                            lemma_name_less_transitive(
                                old_entries[a].name@,
                                old_entries[i as int].name@,
                                old_entries[b - 1].name@,
                            );
                        }
                    } else if a == i {
                        assert(new_entries[b] == old_entries[b - 1]);
                        if b - 1 > i {
                            lemma_name_less_transitive(
                                k,
                                old_entries[i as int].name@,
                                old_entries[b - 1].name@,
                            );
                        }
                    } else {
                        assert(new_entries[a] == old_entries[a - 1]);
                        assert(new_entries[b] == old_entries[b - 1]);
                    }
                }
            }
            assert(listing_map(new_entries) =~= listing_map(old_entries).insert(k, profile)) by {
                lemma_listing_at(new_entries, i as int);
                assert forall|key: Seq<char>|
                    #[trigger] listing_map(new_entries).contains_key(key) <==> listing_map(
                        old_entries,
                    ).insert(k, profile).contains_key(key) by {
                    if listing_map(old_entries).contains_key(key) {
                        let j = choose|j: int| 0 <= j < old_entries.len() && #[trigger] old_entries[j].name@ == key;
                        if j < i {
                            assert(new_entries[j].name@ == key);
                        } else {
                            assert(new_entries[j + 1].name@ == key);
                        }
                    }
                    if listing_map(new_entries).contains_key(key) && key != k {
                        let j = choose|j: int| 0 <= j < new_entries.len() && #[trigger] new_entries[j].name@ == key;
                        if j < i {
                            assert(old_entries[j].name@ == key);
                        } else {
                            assert(old_entries[j - 1].name@ == key);
                        }
                    }
                }
                assert forall|key: Seq<char>| #[trigger] listing_map(new_entries).contains_key(key) implies listing_map(
                    new_entries,
                )[key] == listing_map(old_entries).insert(k, profile)[key] by {
                    if key != k {
                        let j = choose|j: int| 0 <= j < new_entries.len() && #[trigger] new_entries[j].name@ == key;
                        lemma_listing_at(new_entries, j);
                        if j < i {
                            lemma_listing_at(old_entries, j);
                        } else {
                            lemma_listing_at(old_entries, j - 1);
                        }
                    }
                }
            }
        }
    }

    /// The profile filed under `name`, if any.
    pub fn get(&self, name: &String) -> (r: Option<OrbProfile>)
        requires
            self.wf(),
        ensures
            r == (if self@.contains_key(name@) {
                Some(self@[name@])
            } else {
                None
            }),
    {
        let len = self.entries.len();
        let mut i: usize = 0;
        while i < len
            invariant
                len == self.entries@.len(),
                i <= len,
                in_name_order(self.entries@),
                forall|j: int| 0 <= j < i ==> #[trigger] self.entries@[j].name@ != name@,
            decreases len - i,
        {
            if self.entries[i].name == *name {
                proof {
                    lemma_listing_at(self.entries@, i as int);
                }
                return Some(self.entries[i].profile);
            }
            i = i + 1;
        }
        None
    }

    /// The book's entries, in name order.
    pub fn entries(&self) -> (r: &Vec<TreasuryEntry>)
        requires
            self.wf(),
        ensures
            in_name_order(r@),
            listing_map(r@) == self@,
    {
        &self.entries
    }
}

/// After `name` is filed, reading `name` gives back what was filed, and every
/// other name reads as before.
pub proof fn lemma_read_after_write(
    book: Map<Seq<char>, OrbProfile>,
    name: Seq<char>,
    profile: OrbProfile,
    other: Seq<char>,
)
    ensures
        book.insert(name, profile).contains_key(name),
        book.insert(name, profile)[name] == profile,
        other != name ==> (book.insert(name, profile).contains_key(other) == book.contains_key(other)),
        other != name && book.contains_key(other) ==> book.insert(name, profile)[other] == book[other],
{
}

/// A listing in name order holds each name once.
pub proof fn lemma_listing_names_unique(s: Seq<TreasuryEntry>, i: int, j: int)
    requires
        in_name_order(s),
        0 <= i < s.len(),
        0 <= j < s.len(),
        i != j,
    ensures
        s[i].name@ != s[j].name@,
{
    if i < j {
        assert(name_less(s[i].name@, s[j].name@));
    } else {
        assert(name_less(s[j].name@, s[i].name@));
    }
    lemma_name_less_irreflexive(s[i].name@);
}

} // verus!
