//! JSON documents as plain values.
use vstd::prelude::*;

verus! {

/// A JSON number. A fractional number is held by the bits of its double-precision form, so
/// that numbers can be carried around without being computed with.
#[derive(Clone, Copy, Debug, PartialEq, Eq, Structural)]
pub enum Number {
    /// An integer that is zero or more.
    Unsigned(u64),
    /// An integer below zero.
    Negative(i64),
    /// Any other number.
    Float { bits: u64 },
}

/// A JSON document.
#[derive(Debug)]
pub enum Json {
    Null,
    Bool(bool),
    Number(Number),
    String(String),
    Array(Vec<Json>),
    Object(Object),
}

/// The members of a JSON object. No key occurs twice; the order of the members carries no
/// meaning.
#[derive(Debug)]
pub struct Object {
    entries: Vec<(String, Json)>,
}

/// What a JSON document says: objects are maps, arrays are sequences.
#[verifier::ext_equal]
pub enum Tree {
    Null,
    Bool(bool),
    Number(Number),
    String(Seq<char>),
    Array(Seq<Tree>),
    Object(Map<Seq<char>, Tree>),
}

/// What a document says.
pub open spec fn tree(json: Json) -> Tree
    decreases json,
{
    match json {
        Json::Null => Tree::Null,
        Json::Bool(b) => Tree::Bool(b),
        Json::Number(n) => Tree::Number(n),
        Json::String(s) => Tree::String(s@),
        Json::Array(elements) => Tree::Array(elements_tree(elements@)),
        Json::Object(object) => Tree::Object(members_tree(object)),
    }
}

/// What the documents of an array say, one by one.
pub open spec fn elements_tree(elements: Seq<Json>) -> Seq<Tree>
    decreases elements,
{
    if elements.len() == 0 {
        Seq::empty()
    } else {
        elements_tree(elements.drop_last()).push(tree(elements.last()))
    }
}

/// What the members of an object say, by key.
pub closed spec fn members_tree(object: Object) -> Map<Seq<char>, Tree>
    decreases object,
{
    entries_tree(object.entries@)
}

/// The map that a list of members stands for.
pub open spec fn entries_tree(entries: Seq<(String, Json)>) -> Map<Seq<char>, Tree>
    decreases entries,
{
    if entries.len() == 0 {
        Map::empty()
    } else {
        entries_tree(entries.drop_last()).insert(entries.last().0@, tree(entries.last().1))
    }
}

impl View for Json {
    type V = Tree;

    open spec fn view(&self) -> Tree {
        tree(*self)
    }
}

impl View for Object {
    type V = Map<Seq<char>, Tree>;

    open spec fn view(&self) -> Map<Seq<char>, Tree> {
        members_tree(*self)
    }
}

/// Whether no key occurs twice in a list of members.
pub open spec fn distinct_keys(entries: Seq<(String, Json)>) -> bool {
    forall|i: int, j: int|
        0 <= i < j < entries.len() ==> (#[trigger] entries[i]).0@ != (#[trigger] entries[j]).0@
}

/// A key is in the map of a list of members just where some member has it.
pub proof fn lemma_entries_domain(entries: Seq<(String, Json)>, key: Seq<char>)
    ensures
        entries_tree(entries).dom().contains(key) <==> exists|i: int|
            0 <= i < entries.len() && (#[trigger] entries[i]).0@ == key,
    decreases entries.len(),
{
    if entries.len() > 0 {
        let rest = entries.drop_last();
        lemma_entries_domain(rest, key);
        if exists|i: int| 0 <= i < entries.len() && (#[trigger] entries[i]).0@ == key {
            let i = choose|i: int| 0 <= i < entries.len() && (#[trigger] entries[i]).0@ == key;
            if i < rest.len() {
                assert(rest[i].0@ == key);
            }
        }
        if entries_tree(rest).dom().contains(key) {
            let i = choose|i: int| 0 <= i < rest.len() && (#[trigger] rest[i]).0@ == key;
            assert(entries[i].0@ == key);
        }
        assert(entries.last() == entries[entries.len() - 1]);
    }
}

/// No key is repeated in a list of members that loses its last one.
proof fn lemma_rest_is_distinct(entries: Seq<(String, Json)>)
    requires
        distinct_keys(entries),
        entries.len() > 0,
    ensures
        distinct_keys(entries.drop_last()),
{
    let rest = entries.drop_last();
    assert forall|a: int, b: int| 0 <= a < b < rest.len() implies (#[trigger] rest[a]).0@ != (
    #[trigger] rest[b]).0@ by {
        assert(entries[a].0@ != entries[b].0@);
    }
}

/// The map of a list of members without repeated keys has each member's document under its key.
pub proof fn lemma_entries_index(entries: Seq<(String, Json)>, i: int)
    requires
        distinct_keys(entries),
        0 <= i < entries.len(),
    ensures
        entries_tree(entries).dom().contains(entries[i].0@),
        entries_tree(entries)[entries[i].0@] == entries[i].1@,
    decreases entries.len(),
{
    let rest = entries.drop_last();
    if i < rest.len() {
        lemma_rest_is_distinct(entries);
        lemma_entries_index(rest, i);
        assert(rest[i] == entries[i]);
        assert(entries[i].0@ != entries[entries.len() - 1].0@);
    }
}

/// Exchanging the document of one member exchanges it in the map.
pub proof fn lemma_entries_update(entries: Seq<(String, Json)>, i: int, member: (String, Json))
    requires
        distinct_keys(entries),
        0 <= i < entries.len(),
        member.0@ == entries[i].0@,
    ensures
        distinct_keys(entries.update(i, member)),
        entries_tree(entries.update(i, member)) == entries_tree(entries).insert(
            member.0@,
            member.1@,
        ),
    decreases entries.len(),
{
    let after = entries.update(i, member);
    assert(distinct_keys(after)) by {
        assert forall|a: int, b: int| 0 <= a < b < after.len() implies (#[trigger] after[a]).0@
            != (#[trigger] after[b]).0@ by {
            assert(entries[a].0@ != entries[b].0@);
        }
    }
    let rest = entries.drop_last();
    if i < rest.len() {
        lemma_rest_is_distinct(entries);
        lemma_entries_update(rest, i, member);
        assert(after.drop_last() =~= rest.update(i, member));
        assert(entries[i].0@ != entries[entries.len() - 1].0@);
        assert(entries_tree(after) =~= entries_tree(entries).insert(member.0@, member.1@));
    } else {
        assert(after.drop_last() =~= rest);
        assert(entries_tree(after) =~= entries_tree(entries).insert(member.0@, member.1@));
    }
}

impl Object {
    #[verifier::type_invariant]
    spec fn well_formed(&self) -> bool {
        distinct_keys(self.entries@)
    }

    /// An object without members.
    pub fn new() -> (r: Object)
        ensures
            r@ == Map::<Seq<char>, Tree>::empty(),
    {
        Object { entries: Vec::new() }
    }

    /// The members, in some order.
    pub fn entries(&self) -> (r: &Vec<(String, Json)>)
        ensures
            distinct_keys(r@),
            entries_tree(r@) == self@,
            decreases_to!(*self => *r),
    {
        proof {
            use_type_invariant(self);
        }
        &self.entries
    }

    /// Takes an object apart into its members.
    pub fn into_entries(self) -> (r: Vec<(String, Json)>)
        ensures
            distinct_keys(r@),
            entries_tree(r@) == self@,
    {
        proof {
            use_type_invariant(&self);
        }
        self.entries
    }

    /// Builds an object from members with distinct keys.
    pub(crate) fn from_distinct(entries: Vec<(String, Json)>) -> (r: Object)
        requires
            distinct_keys(entries@),
        ensures
            r@ == entries_tree(entries@),
    {
        Object { entries }
    }

    /// Where the member with the given key stands.
    pub(crate) fn position(entries: &Vec<(String, Json)>, key: &String) -> (r: Option<usize>)
        ensures
            match r {
                Some(i) => i < entries.len() && entries[i as int].0@ == key@,
                None => forall|i: int|
                    0 <= i < entries.len() ==> (#[trigger] entries[i]).0@ != key@,
            },
    {
        let mut i: usize = 0;
        while i < entries.len()
            invariant
                i <= entries.len(),
                forall|j: int| 0 <= j < i ==> (#[trigger] entries[j]).0@ != key@,
            decreases entries.len() - i,
        {
            if entries[i].0 == *key {
                return Some(i);
            }
            i += 1;
        }
        None
    }

    /// The document under a key.
    pub fn get(&self, key: &str) -> (r: Option<&Json>)
        ensures
            match r {
                Some(value) => self@.dom().contains(key@) && value@ == self@[key@],
                None => !self@.dom().contains(key@),
            },
    {
        proof {
            use_type_invariant(self);
            lemma_entries_domain(self.entries@, key@);
        }
        match Object::position(&self.entries, &key.to_owned()) {
            Some(i) => {
                proof {
                    lemma_entries_index(self.entries@, i as int);
                }
                Some(&self.entries[i].1)
            },
            None => None,
        }
    }

    /// Puts a document under a key, in place of the one that was there.
    pub fn insert(&mut self, key: String, value: Json)
        ensures
            final(self)@ == old(self)@.insert(key@, value@),
    {
        proof {
            use_type_invariant(&*self);
        }
        let mut entries: Vec<(String, Json)> = Vec::new();
        std::mem::swap(&mut self.entries, &mut entries);
        match Object::position(&entries, &key) {
            Some(i) => {
                proof {
                    lemma_entries_update(entries@, i as int, (key, value));
                }
                entries.set(i, (key, value));
            },
            None => {
                proof {
                    lemma_entries_push(entries@, (key, value));
                }
                entries.push((key, value));
            },
        }
        self.entries = entries;
    }
}

/// A member with a new key can be added at the end of a list of members.
pub proof fn lemma_entries_push(entries: Seq<(String, Json)>, member: (String, Json))
    requires
        distinct_keys(entries),
        forall|i: int| 0 <= i < entries.len() ==> (#[trigger] entries[i]).0@ != member.0@,
    ensures
        distinct_keys(entries.push(member)),
        entries_tree(entries.push(member)) == entries_tree(entries).insert(member.0@, member.1@),
{
    assert(entries.push(member).drop_last() =~= entries);
}

/// The trees of an array stand at the places of its elements.
pub proof fn lemma_elements_index(elements: Seq<Json>)
    ensures
        elements_tree(elements).len() == elements.len(),
        forall|i: int|
            0 <= i < elements.len() ==> #[trigger] elements_tree(elements)[i] == elements[i]@,
    decreases elements.len(),
{
    if elements.len() > 0 {
        lemma_elements_index(elements.drop_last());
    }
}

/// Two arrays joined say what the first says, then what the second says.
pub proof fn lemma_elements_join(first: Seq<Json>, second: Seq<Json>)
    ensures
        elements_tree(first + second) == elements_tree(first) + elements_tree(second),
{
    lemma_elements_index(first);
    lemma_elements_index(second);
    lemma_elements_index(first + second);
    assert(elements_tree(first + second) =~= elements_tree(first) + elements_tree(second));
}

impl Clone for Json {
    fn clone(&self) -> (r: Json)
        ensures
            r@ == self@,
        decreases self,
    {
        match self {
            Json::Null => Json::Null,
            Json::Bool(b) => Json::Bool(*b),
            Json::Number(n) => Json::Number(*n),
            Json::String(s) => Json::String(s.clone()),
            Json::Array(elements) => Json::Array(clone_elements(elements)),
            Json::Object(object) => Json::Object(object.clone()),
        }
    }
}

/// Copies the elements of an array.
pub(crate) fn clone_elements(elements: &Vec<Json>) -> (r: Vec<Json>)
    ensures
        elements_tree(r@) == elements_tree(elements@),
    decreases elements,
{
    let mut copy: Vec<Json> = Vec::new();
    let mut i: usize = 0;
    while i < elements.len()
        invariant
            i <= elements.len(),
            copy.len() == i,
            forall|j: int| 0 <= j < i ==> (#[trigger] copy[j])@ == elements[j]@,
        decreases elements.len() - i,
    {
        copy.push(elements[i].clone());
        i += 1;
    }
    proof {
        lemma_elements_index(elements@);
        lemma_elements_index(copy@);
        assert(elements_tree(copy@) =~= elements_tree(elements@));
    }
    copy
}

impl Clone for Object {
    fn clone(&self) -> (r: Object)
        ensures
            r@ == self@,
        decreases self,
    {
        proof {
            use_type_invariant(self);
        }
        let mut copy: Vec<(String, Json)> = Vec::new();
        let mut i: usize = 0;
        while i < self.entries.len()
            invariant
                i <= self.entries.len(),
                copy.len() == i,
                forall|j: int|
                    0 <= j < i ==> (#[trigger] copy[j]).0@ == self.entries[j].0@ && copy[j].1@
                        == self.entries[j].1@,
            decreases self.entries.len() - i,
        {
            let member = &self.entries[i];
            copy.push((member.0.clone(), member.1.clone()));
            i += 1;
        }
        proof {
            lemma_entries_same(copy@, self.entries@);
        }
        Object { entries: copy }
    }
}

/// Lists of members with the same keys and documents stand for the same map.
proof fn lemma_entries_same(first: Seq<(String, Json)>, second: Seq<(String, Json)>)
    requires
        first.len() == second.len(),
        forall|j: int|
            0 <= j < first.len() ==> (#[trigger] first[j]).0@ == second[j].0@ && first[j].1@
                == second[j].1@,
    ensures
        entries_tree(first) == entries_tree(second),
        distinct_keys(second) ==> distinct_keys(first),
    decreases first.len(),
{
    if first.len() > 0 {
        lemma_entries_same(first.drop_last(), second.drop_last());
        assert(first[first.len() - 1].0@ == second[first.len() - 1].0@);
    }
    if distinct_keys(second) {
        assert forall|a: int, b: int| 0 <= a < b < first.len() implies (#[trigger] first[a]).0@
            != (#[trigger] first[b]).0@ by {
            assert(second[a].0@ != second[b].0@);
        }
    }
}

/// What a document says is all there is in it: two documents say the same just where they are of
/// one kind and have the same content.
pub proof fn law_documents_say_all_they_hold(json: Json)
    ensures
        json is Null <==> json@ is Null,
        json matches Json::Bool(truth) ==> json@ == Tree::Bool(truth),
        json matches Json::Number(number) ==> json@ == Tree::Number(number),
        json matches Json::String(text) ==> json@ == Tree::String(text@),
        json matches Json::Array(elements) ==> (json@ matches Tree::Array(trees) && trees.len()
            == elements@.len() && forall|i: int|
            0 <= i < trees.len() ==> #[trigger] trees[i] == elements@[i]@),
        json matches Json::Object(object) ==> json@ == Tree::Object(object@),
{
    if let Json::Array(elements) = json {
        lemma_elements_index(elements@);
    }
}

} // verus!
