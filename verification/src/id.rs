use std::cmp::Ordering;
use std::marker::PhantomData;
use vstd::prelude::*;
use vstd::relations::{sorted_by, total_ordering};
use vstd::seq_lib::{lemma_sorted_unique, to_multiset_build, to_multiset_insert};
use vstd::utf8::encode_utf8;

verus! {

/// Marks the identifiers of players.
#[derive(Debug, PartialEq, Eq, PartialOrd, Ord, Hash)]
pub struct PlayerTag;

/// Marks the identifiers of rooms.
#[derive(Debug, PartialEq, Eq, PartialOrd, Ord, Hash)]
pub struct RoomTag;

/// Marks the identifiers of games.
#[derive(Debug, PartialEq, Eq, PartialOrd, Ord, Hash)]
pub struct GameTag;

/// Marks the identifiers of themes.
#[derive(Debug, PartialEq, Eq, PartialOrd, Ord, Hash)]
pub struct ThemeTag;

pub type PlayerId = Id<PlayerTag>;

pub type RoomId = Id<RoomTag>;

pub type GameId = Id<GameTag>;

pub type ThemeId = Id<ThemeTag>;

/// An identifier of an entity of kind `T`: a raw string that the type system
/// keeps apart from the identifiers of every other kind. Its view is the raw
/// string; equality and order are those of the raw string.
#[derive(Debug, Ord, Hash)]
pub struct Id<T> {
    raw: String,
    kind: PhantomData<T>,
}

impl<T> View for Id<T> {
    type V = Seq<char>;

    closed spec fn view(&self) -> Seq<char> {
        self.raw@
    }
}

/// The raw strings of a sequence of identifiers.
pub open spec fn raw_ids<T>(ids: Seq<Id<T>>) -> Seq<Seq<char>> {
    ids.map_values(|id: Id<T>| id@)
}

/// Lexicographic order on byte strings: a proper prefix comes first, and
/// otherwise the first byte that differs decides.
pub open spec fn bytes_le(a: Seq<u8>, b: Seq<u8>) -> bool
    decreases a.len(),
{
    if a.len() == 0 {
        true
    } else if b.len() == 0 {
        false
    } else if a[0] != b[0] {
        a[0] < b[0]
    } else {
        bytes_le(a.drop_first(), b.drop_first())
    }
}

/// The order of raw identifiers: that of their UTF-8 bytes.
pub open spec fn raw_le(a: Seq<char>, b: Seq<char>) -> bool {
    bytes_le(encode_utf8(a), encode_utf8(b))
}

/// `raw_le` as a relation, for the functions that take one.
pub open spec fn raw_order() -> spec_fn(Seq<char>, Seq<char>) -> bool {
    |a: Seq<char>, b: Seq<char>| raw_le(a, b)
}

proof fn lemma_bytes_le_reflexive(a: Seq<u8>)
    ensures
        bytes_le(a, a),
    decreases a.len(),
{
    if a.len() > 0 {
        lemma_bytes_le_reflexive(a.drop_first());
    }
}

proof fn lemma_bytes_le_antisymmetric(a: Seq<u8>, b: Seq<u8>)
    requires
        bytes_le(a, b),
        bytes_le(b, a),
    ensures
        a == b,
    decreases a.len(),
{
    if a.len() == 0 || b.len() == 0 {
        assert(a =~= b);
    } else {
        lemma_bytes_le_antisymmetric(a.drop_first(), b.drop_first());
        assert(a =~= seq![a[0]] + a.drop_first());
        assert(b =~= seq![b[0]] + b.drop_first());
    }
}

proof fn lemma_bytes_le_transitive(a: Seq<u8>, b: Seq<u8>, c: Seq<u8>)
    requires
        bytes_le(a, b),
        bytes_le(b, c),
    ensures
        bytes_le(a, c),
    decreases a.len(),
{
    if a.len() > 0 && b.len() > 0 && c.len() > 0 && a[0] == b[0] && b[0] == c[0] {
        lemma_bytes_le_transitive(a.drop_first(), b.drop_first(), c.drop_first());
    }
}

proof fn lemma_bytes_le_total(a: Seq<u8>, b: Seq<u8>)
    ensures
        bytes_le(a, b) || bytes_le(b, a),
    decreases a.len(),
{
    if a.len() > 0 && b.len() > 0 && a[0] == b[0] {
        lemma_bytes_le_total(a.drop_first(), b.drop_first());
    }
}

/// Skipping a common prefix does not change how two byte strings compare.
proof fn lemma_bytes_le_skip(a: Seq<u8>, b: Seq<u8>, n: int)
    requires
        0 <= n <= a.len(),
        n <= b.len(),
        forall|i: int| 0 <= i < n ==> a[i] == b[i],
    ensures
        bytes_le(a, b) == bytes_le(a.skip(n), b.skip(n)),
    decreases n,
{
    if n == 0 {
        assert(a.skip(0) =~= a);
        assert(b.skip(0) =~= b);
    } else {
        lemma_bytes_le_skip(a.drop_first(), b.drop_first(), n - 1);
        assert(a.drop_first().skip(n - 1) =~= a.skip(n));
        assert(b.drop_first().skip(n - 1) =~= b.skip(n));
    }
}

/// The order of raw identifiers is a total order: any two identifiers
/// compare, and two that compare both ways are the same identifier.
pub proof fn lemma_raw_order_total()
    ensures
        total_ordering(raw_order()),
{
    let r = raw_order();
    assert forall|x: Seq<char>| #[trigger] r(x, x) by {
        lemma_bytes_le_reflexive(encode_utf8(x));
    }
    assert forall|x: Seq<char>, y: Seq<char>| #[trigger] r(x, y) && #[trigger] r(y, x) implies x
        == y by {
        lemma_bytes_le_antisymmetric(encode_utf8(x), encode_utf8(y));
        vstd::utf8::encode_utf8_decode_utf8(x);
        vstd::utf8::encode_utf8_decode_utf8(y);
    }
    assert forall|x: Seq<char>, y: Seq<char>, z: Seq<char>| #[trigger]
        r(x, y) && #[trigger] r(y, z) implies r(x, z) by {
        lemma_bytes_le_transitive(encode_utf8(x), encode_utf8(y), encode_utf8(z));
    }
    assert forall|x: Seq<char>, y: Seq<char>| #[trigger] r(x, y) || #[trigger] r(y, x) by {
        lemma_bytes_le_total(encode_utf8(x), encode_utf8(y));
    }
}

impl<T> Id<T> {
    /// Wraps a raw identifier.
    pub fn new(raw_id: &str) -> (id: Self)
        ensures
            id@ == raw_id@,
    {
        Id { raw: raw_id.to_owned(), kind: PhantomData }
    }

    /// The raw identifier.
    pub fn raw_id(&self) -> (raw: &String)
        ensures
            raw@ == self@,
    {
        &self.raw
    }

    /// The raw identifier as text of its own.
    pub fn to_string(&self) -> (raw: String)
        ensures
            raw@ == self@,
    {
        self.raw.clone()
    }

    /// Whether this identifier comes before `other` in the order of raw
    /// identifiers, or is the same.
    pub fn le(&self, other: &Self) -> (le: bool)
        ensures
            le == raw_le(self@, other@),
    {
        let a = self.raw.as_str().as_bytes();
        let b = other.raw.as_str().as_bytes();
        let mut i: usize = 0;
        while i < a.len() && i < b.len()
            invariant
                a@ == encode_utf8(self@),
                b@ == encode_utf8(other@),
                i <= a@.len(),
                i <= b@.len(),
                forall|k: int| 0 <= k < i ==> a@[k] == b@[k],
            decreases a@.len() - i,
        {
            if a[i] != b[i] {
                proof {
                    lemma_bytes_le_skip(a@, b@, i as int);
                    assert(a@.skip(i as int)[0] == a@[i as int]);
                    assert(b@.skip(i as int)[0] == b@[i as int]);
                }
                return a[i] < b[i];
            }
            i += 1;
        }
        proof {
            lemma_bytes_le_skip(a@, b@, i as int);
            assert(a@.skip(i as int).len() == a@.len() - i);
            assert(b@.skip(i as int).len() == b@.len() - i);
        }
        i == a.len()
    }
}

/// A copy of `ids`: the same raw identifiers in the same order.
pub fn clone_ids<T>(ids: &Vec<Id<T>>) -> (copy: Vec<Id<T>>)
    ensures
        raw_ids(copy@) == raw_ids(ids@),
{
    let mut copy: Vec<Id<T>> = Vec::new();
    let mut i: usize = 0;
    while i < ids.len()
        invariant
            i <= ids@.len(),
            copy@.len() == i,
            forall|k: int| 0 <= k < i ==> copy@[k]@ == ids@[k]@,
        decreases ids@.len() - i,
    {
        copy.push(ids[i].clone());
        i += 1;
    }
    assert(raw_ids(copy@) =~= raw_ids(ids@));
    copy
}

/// The identifiers of `ids` in the order of raw identifiers. Identifiers
/// that are the same keep the order that they had.
pub fn sort_ids<T>(ids: &Vec<Id<T>>) -> (sorted: Vec<Id<T>>)
    ensures
        raw_ids(sorted@) == raw_ids(ids@).sort_by(raw_order()),
{
    let ghost order = raw_order();
    proof {
        lemma_raw_order_total();
    }
    let mut sorted: Vec<Id<T>> = Vec::new();
    let mut i: usize = 0;
    assert(raw_ids(sorted@) =~= raw_ids(ids@.take(0)));
    while i < ids.len()
        invariant
            i <= ids@.len(),
            order == raw_order(),
            total_ordering(order),
            sorted_by(raw_ids(sorted@), order),
            raw_ids(sorted@).to_multiset() == raw_ids(ids@.take(i as int)).to_multiset(),
        decreases ids@.len() - i,
    {
        let id = ids[i].clone();
        let mut at: usize = sorted.len();
        while at > 0 && !sorted[at - 1].le(&id)
            invariant
                at <= sorted@.len(),
                forall|k: int| at <= k < sorted@.len() ==> !raw_le(#[trigger] sorted@[k]@, id@),
            decreases at,
        {
            at -= 1;
        }
        let ghost before = raw_ids(sorted@);
        sorted.insert(at, id);
        proof {
            let after = raw_ids(sorted@);
            assert(after =~= before.insert(at as int, id@));
            to_multiset_insert(before, at as int, id@);
            assert(raw_ids(ids@.take(i + 1)) =~= raw_ids(ids@.take(i as int)).push(id@));
            to_multiset_build(raw_ids(ids@.take(i as int)), id@);
            assert forall|a: int, b: int| 0 <= a < b < after.len() implies #[trigger] order(
                after[a],
                after[b],
            ) by {
                if a == at {
                    assert(after[b] == before[b - 1]);
                    assert(!raw_le(before[b - 1], id@));
                    assert(order(before[b - 1], id@) || order(id@, before[b - 1]));
                } else if b == at {
                    assert(after[a] == before[a]);
                    assert(order(before[at - 1], id@));
                    if a < at - 1 {
                        assert(order(before[a], before[at - 1]));
                    }
                } else {
                    let a0 = if a < at { a } else { a - 1 };
                    let b0 = if b < at { b } else { b - 1 };
                    assert(after[a] == before[a0]);
                    assert(after[b] == before[b0]);
                    assert(order(before[a0], before[b0]));
                }
            }
        }
        i += 1;
    }
    proof {
        assert(ids@.take(i as int) =~= ids@);
        let all = raw_ids(ids@);
        all.lemma_sort_by_ensures(order);
        lemma_sorted_unique(raw_ids(sorted@), all.sort_by(order), order);
    }
    sorted
}

impl<T> Clone for Id<T> {
    fn clone(&self) -> (copy: Self)
        ensures
            copy@ == self@,
    {
        Id { raw: self.raw.clone(), kind: PhantomData }
    }
}

impl<T> PartialEq for Id<T> {
    fn eq(&self, other: &Self) -> (same: bool)
    {
        self.raw == other.raw
    }
}

impl<T> Eq for Id<T> {
}

impl<T> vstd::std_specs::cmp::PartialEqSpecImpl for Id<T> {
    open spec fn obeys_eq_spec() -> bool {
        true
    }

    open spec fn eq_spec(&self, other: &Self) -> bool {
        self@ == other@
    }
}

/// How two raw identifiers compare in the order of raw identifiers.
pub open spec fn raw_compare(a: Seq<char>, b: Seq<char>) -> Ordering {
    if !raw_le(a, b) {
        Ordering::Greater
    } else if raw_le(b, a) {
        Ordering::Equal
    } else {
        Ordering::Less
    }
}

impl<T> PartialOrd for Id<T> {
    /// Identifiers compare as their raw identifiers do.
    fn partial_cmp(&self, other: &Self) -> (order: Option<Ordering>)
    {
        if !self.le(other) {
            Some(Ordering::Greater)
        } else if other.le(self) {
            Some(Ordering::Equal)
        } else {
            Some(Ordering::Less)
        }
    }
}

impl<T> vstd::std_specs::cmp::PartialOrdSpecImpl for Id<T> {
    open spec fn obeys_partial_cmp_spec() -> bool {
        true
    }

    open spec fn partial_cmp_spec(&self, other: &Self) -> Option<Ordering> {
        Some(raw_compare(self@, other@))
    }
}

impl<T> From<Id<T>> for String {
    fn from(id: Id<T>) -> (raw: String)
    {
        id.raw
    }
}

impl<T> vstd::std_specs::convert::FromSpecImpl<Id<T>> for String {
    open spec fn obeys_from_spec() -> bool {
        true
    }

    open spec fn from_spec(id: Id<T>) -> String {
        id.raw_spec()
    }
}

impl<T> Id<T> {
    /// The raw identifier, in contracts.
    pub closed spec fn raw_spec(self) -> String {
        self.raw
    }

    /// The raw identifier in contracts reads as the view does.
    pub broadcast proof fn lemma_raw_spec(self)
        ensures
            #[trigger] self.raw_spec()@ == self@,
    {
    }
}

} // verus!
