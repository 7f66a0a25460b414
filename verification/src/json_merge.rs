//! Merging of JSON documents.
use vstd::prelude::*;

use crate::json::{
    clone_elements, distinct_keys, entries_tree, lemma_elements_join, lemma_entries_domain,
    lemma_entries_index, lemma_entries_push, lemma_entries_update, Json, Object, Tree,
};

verus! {

/// What is left when `other` is merged into `destination`: objects are merged key by key,
/// arrays grow, `null` changes nothing, and any other document replaces what was there.
pub open spec fn merged(destination: Tree, other: Tree) -> Tree
    decreases other,
{
    match (destination, other) {
        (Tree::Object(a), Tree::Object(b)) => Tree::Object(
            Map::new(
                |key: Seq<char>| a.dom().contains(key) || b.dom().contains(key),
                |key: Seq<char>|
                    if !b.dom().contains(key) {
                        a[key]
                    } else if a.dom().contains(key) {
                        merged(a[key], b[key])
                    } else {
                        b[key]
                    },
            ),
        ),
        (Tree::Array(a), Tree::Array(b)) => Tree::Array(a + b),
        (Tree::Array(a), Tree::Object(_)) => Tree::Array(a.push(other)),
        (_, Tree::Null) => destination,
        (_, _) => other,
    }
}

/// The members of two merged objects.
pub open spec fn merged_members(
    destination: Map<Seq<char>, Tree>,
    other: Map<Seq<char>, Tree>,
) -> Map<Seq<char>, Tree> {
    merged(Tree::Object(destination), Tree::Object(other))->Object_0
}

/// Merges `other` into `destination`.
pub fn merge_values(destination: &mut Json, other: &Json)
    ensures
        final(destination)@ == merged(old(destination)@, other@),
    decreases other,
{
    let mut taken = Json::Null;
    std::mem::swap(destination, &mut taken);
    *destination = match (taken, other) {
        (Json::Object(a), Json::Object(b)) => {
            let mut entries = a.into_entries();
            merge_entries(&mut entries, b.entries());
            Json::Object(Object::from_distinct(entries))
        },
        (Json::Array(a), Json::Array(b)) => {
            let mut elements = a;
            let mut more = clone_elements(b);
            proof {
                lemma_elements_join(elements@, more@);
            }
            elements.append(&mut more);
            Json::Array(elements)
        },
        (Json::Array(a), Json::Object(_)) => {
            let mut elements = a;
            let ghost before = elements@;
            elements.push(other.clone());
            assert(elements@.drop_last() =~= before);
            Json::Array(elements)
        },
        (any, Json::Null) => any,
        (_, b) => b.clone(),
    };
}

/// Merges the members `other` into the members `destination`.
fn merge_entries(destination: &mut Vec<(String, Json)>, other: &Vec<(String, Json)>)
    requires
        distinct_keys(old(destination)@),
        distinct_keys(other@),
    ensures
        distinct_keys(final(destination)@),
        entries_tree(final(destination)@) == merged_members(
            entries_tree(old(destination)@),
            entries_tree(other@),
        ),
    decreases other,
{
    let ghost before = entries_tree(destination@);
    let mut i: usize = 0;
    assert(other@.take(0) =~= Seq::empty());
    assert(entries_tree(destination@) =~= merged_members(before, entries_tree(other@.take(0))));
    while i < other.len()
        invariant
            i <= other.len(),
            distinct_keys(other@),
            distinct_keys(destination@),
            entries_tree(destination@) == merged_members(
                before,
                entries_tree(other@.take(i as int)),
            ),
        decreases other.len() - i,
    {
        let member = &other[i];
        let ghost done = other@.take(i as int);
        let ghost reached = destination@;
        proof {
            lemma_entries_domain(done, member.0@);
            lemma_entries_domain(reached, member.0@);
            assert(other@.take(i + 1).drop_last() =~= done);
            assert(other@.take(i + 1).last() == *member);
            assert(!entries_tree(done).dom().contains(member.0@)) by {
                if entries_tree(done).dom().contains(member.0@) {
                    let j = choose|j: int|
                        0 <= j < done.len() && (#[trigger] done[j]).0@ == member.0@;
                    assert(other@[j].0@ != other@[i as int].0@);
                }
            }
        }
        match Object::position(destination, &member.0) {
            Some(at) => {
                proof {
                    lemma_entries_index(reached, at as int);
                }
                merge_values(&mut destination[at].1, &member.1);
                proof {
                    lemma_entries_update(reached, at as int, destination@[at as int]);
                    assert(destination@ =~= reached.update(at as int, destination@[at as int]));
                }
            },
            None => {
                let copy = (member.0.clone(), member.1.clone());
                proof {
                    lemma_entries_push(reached, copy);
                }
                destination.push(copy);
            },
        }
        proof {
            assert(entries_tree(destination@) =~= merged_members(
                before,
                entries_tree(other@.take(i + 1)),
            ));
        }
        i += 1;
    }
    assert(other@.take(other@.len() as int) =~= other@);
}

/// A value that could not be written down as a JSON document, with the reason.
#[derive(Debug)]
pub struct MergeError {
    pub name: &'static str,
    pub cause: String,
}

impl MergeError {
    /// The sentence that reports the error.
    pub fn message(&self) -> (r: String)
        ensures
            r@ == "Cannot represent `"@ + self.name@ + "` as a dynamic value"@,
    {
        let mut text = "Cannot represent `".to_owned();
        text.append(self.name);
        text.append("` as a dynamic value");
        text
    }
}

/// A named value that takes part in a merge: absent, written down as a document, or impossible
/// to write down.
pub type Layer = (&'static str, Option<Result<Json, String>>);

/// The document of a value, if it has one.
pub open spec fn layer_tree(layer: Layer) -> Option<Tree> {
    match layer.1 {
        Some(Ok(json)) => Some(json@),
        _ => None,
    }
}

/// The documents of several values.
pub open spec fn layer_trees(layers: Seq<Layer>) -> Seq<Option<Tree>> {
    layers.map_values(|layer: Layer| layer_tree(layer))
}

/// Whether a value is present and cannot be written down.
pub open spec fn unrepresentable(layer: Layer) -> bool {
    layer.1 matches Some(Err(_))
}

/// What is left when documents are merged into `target` from first to last.
pub open spec fn merged_all(target: Tree, layers: Seq<Option<Tree>>) -> Tree
    decreases layers.len(),
{
    if layers.len() == 0 {
        target
    } else {
        match layers.last() {
            None => merged_all(target, layers.drop_last()),
            Some(other) => merged(merged_all(target, layers.drop_last()), other),
        }
    }
}

/// What merging named values reports: the first value that cannot be written down, with the
/// target before all others.
pub open spec fn merge_failure(
    target: Result<Json, String>,
    layers: Seq<Layer>,
    error: MergeError,
) -> bool {
    match target {
        Err(cause) => error.name@ == "target"@ && error.cause@ == cause@,
        Ok(_) => exists|i: int|
            {
                &&& 0 <= i < layers.len()
                &&& forall|j: int| 0 <= j < i ==> !unrepresentable(#[trigger] layers[j])
                &&& (#[trigger] layers[i]).1 matches Some(Err(cause))
                &&& error.name@ == layers[i].0@
                &&& error.cause@ == cause@
            },
    }
}

/// Merges named values into `target`, from first to last; absent values are passed over. Fails
/// on the first value that cannot be written down as a document.
pub fn merge(target: Result<Json, String>, layers: Vec<Layer>) -> (r: Result<Json, MergeError>)
    ensures
        match r {
            Ok(json) => {
                &&& target is Ok
                &&& forall|i: int|
                    0 <= i < layers.len() ==> !unrepresentable(#[trigger] layers@[i])
                &&& json@ == merged_all(target->Ok_0@, layer_trees(layers@))
            },
            Err(error) => merge_failure(target, layers@, error),
        },
        r is Ok <==> target is Ok && forall|i: int|
            0 <= i < layers.len() ==> !unrepresentable(#[trigger] layers@[i]),
{
    let mut merging = match target {
        Ok(json) => json,
        Err(cause) => return Err(MergeError { name: "target", cause }),
    };
    let mut i: usize = 0;
    assert(layer_trees(layers@).take(0) =~= Seq::empty());
    while i < layers.len()
        invariant
            i <= layers.len(),
            target is Ok,
            forall|j: int| 0 <= j < i ==> !unrepresentable(#[trigger] layers@[j]),
            merging@ == merged_all(target->Ok_0@, layer_trees(layers@).take(i as int)),
        decreases layers.len() - i,
    {
        assert(layer_trees(layers@).take(i + 1).drop_last() =~= layer_trees(layers@).take(
            i as int,
        ));
        match &layers[i].1 {
            None => {},
            Some(Ok(other)) => merge_values(&mut merging, other),
            Some(Err(cause)) => {
                assert(unrepresentable(layers@[i as int]));
                return Err(MergeError { name: layers[i].0, cause: cause.clone() });
            },
        }
        i += 1;
    }
    assert(layer_trees(layers@).take(layers@.len() as int) =~= layer_trees(layers@));
    Ok(merging)
}

/// The document that is reached from a document by following keys.
pub open spec fn lookup(document: Tree, path: Seq<Seq<char>>) -> Option<Tree>
    decreases path.len(),
{
    if path.len() == 0 {
        Some(document)
    } else {
        match document {
            Tree::Object(members) => if members.dom().contains(path[0]) {
                lookup(members[path[0]], path.drop_first())
            } else {
                None
            },
            _ => None,
        }
    }
}

/// Whether a document is a truth value, a number or a string.
pub open spec fn scalar(document: Tree) -> bool {
    document is Bool || document is Number || document is String
}

/// Whether following keys runs into an array before the last key.
pub open spec fn runs_into_array(document: Tree, path: Seq<Seq<char>>) -> bool
    decreases path.len(),
{
    path.len() > 0 && match document {
        Tree::Array(_) => true,
        Tree::Object(members) => members.dom().contains(path[0]) && runs_into_array(
            members[path[0]],
            path.drop_first(),
        ),
        _ => false,
    }
}

/// Whether a document consists of objects along a path and then lacks the next key.
pub open spec fn silent_on(document: Tree, path: Seq<Seq<char>>) -> bool
    decreases path.len(),
{
    path.len() > 0 && match document {
        Tree::Object(members) => !members.dom().contains(path[0]) || silent_on(
            members[path[0]],
            path.drop_first(),
        ),
        _ => false,
    }
}

/// A scalar field of the later document overwrites what the earlier one has there, unless the
/// earlier one has an array on the way to it: an array takes in a whole object.
pub proof fn law_later_field_wins(earlier: Tree, later: Tree, path: Seq<Seq<char>>)
    requires
        lookup(later, path) matches Some(field) && scalar(field),
        !runs_into_array(earlier, path),
    ensures
        lookup(merged(earlier, later), path) == lookup(later, path),
    decreases path.len(),
{
    if path.len() > 0 && earlier is Object {
        let key = path[0];
        if earlier->Object_0.dom().contains(key) {
            law_later_field_wins(
                earlier->Object_0[key],
                later->Object_0[key],
                path.drop_first(),
            );
        }
    }
}

/// A field that the later document does not have stays what it was in the earlier one.
pub proof fn law_missing_field_is_kept(earlier: Tree, later: Tree, path: Seq<Seq<char>>)
    requires
        silent_on(later, path),
    ensures
        lookup(merged(earlier, later), path) == lookup(earlier, path),
    decreases path.len(),
{
    let key = path[0];
    if later->Object_0.dom().contains(key) {
        let below = later->Object_0[key];
        if earlier is Object && earlier->Object_0.dom().contains(key) {
            law_missing_field_is_kept(earlier->Object_0[key], below, path.drop_first());
        } else {
            lemma_silent_lookup(below, path.drop_first());
        }
    }
}

/// Nothing is reached along a path on which a document is silent.
proof fn lemma_silent_lookup(document: Tree, path: Seq<Seq<char>>)
    requires
        silent_on(document, path),
    ensures
        lookup(document, path) is None,
    decreases path.len(),
{
    if document->Object_0.dom().contains(path[0]) {
        lemma_silent_lookup(document->Object_0[path[0]], path.drop_first());
    }
}

/// Merging `null` changes nothing.
pub proof fn law_null_changes_nothing(document: Tree)
    ensures
        merged(document, Tree::Null) == document,
{
}

/// A field that is `null` in the later document stays what it was in the earlier one, if the
/// earlier one has it.
pub proof fn law_null_field_is_kept(earlier: Tree, later: Tree, path: Seq<Seq<char>>)
    requires
        lookup(later, path) == Some(Tree::Null),
        lookup(earlier, path) is Some,
    ensures
        lookup(merged(earlier, later), path) == lookup(earlier, path),
    decreases path.len(),
{
    if path.len() > 0 {
        let key = path[0];
        law_null_field_is_kept(earlier->Object_0[key], later->Object_0[key], path.drop_first());
    }
}

/// Merging into `null` gives the merged document.
pub proof fn law_null_takes_anything(document: Tree)
    ensures
        merged(Tree::Null, document) == document,
{
}

/// An absent value has no part in a merge.
pub proof fn law_absent_value_is_passed_over(target: Tree, layers: Seq<Option<Tree>>, i: int)
    requires
        0 <= i < layers.len(),
        layers[i] is None,
    ensures
        merged_all(target, layers) == merged_all(target, layers.remove(i)),
    decreases layers.len(),
{
    let rest = layers.drop_last();
    if i < rest.len() {
        law_absent_value_is_passed_over(target, rest, i);
        assert(layers.remove(i).drop_last() =~= rest.remove(i));
    } else {
        assert(layers.remove(i) =~= rest);
    }
}

/// A merged object has the members of both objects and no others. A member that only one of them
/// has is taken whole, whatever it is; a member that both have is merged.
pub proof fn law_members_are_merged_one_by_one(
    a: Map<Seq<char>, Tree>,
    b: Map<Seq<char>, Tree>,
    key: Seq<char>,
)
    ensures
        merged(Tree::Object(a), Tree::Object(b)) is Object,
        ({
            let c = merged(Tree::Object(a), Tree::Object(b))->Object_0;
            &&& c.dom().contains(key) <==> a.dom().contains(key) || b.dom().contains(key)
            &&& a.dom().contains(key) && !b.dom().contains(key) ==> c[key] == a[key]
            &&& !a.dom().contains(key) && b.dom().contains(key) ==> c[key] == b[key]
            &&& a.dom().contains(key) && b.dom().contains(key) ==> c[key] == merged(a[key], b[key])
        }),
{
}

/// A merged array has the elements of the first array, then those of the second.
pub proof fn law_arrays_are_joined(a: Seq<Tree>, b: Seq<Tree>, i: int)
    ensures
        merged(Tree::Array(a), Tree::Array(b)) is Array,
        ({
            let c = merged(Tree::Array(a), Tree::Array(b))->Array_0;
            &&& c.len() == a.len() + b.len()
            &&& 0 <= i < a.len() ==> c[i] == a[i]
            &&& 0 <= i < b.len() ==> c[a.len() + i] == b[i]
        }),
{
}

/// An object that is merged into an array becomes its last element.
pub proof fn law_object_joins_array(a: Seq<Tree>, b: Map<Seq<char>, Tree>, i: int)
    ensures
        merged(Tree::Array(a), Tree::Object(b)) is Array,
        ({
            let c = merged(Tree::Array(a), Tree::Object(b))->Array_0;
            &&& c.len() == a.len() + 1
            &&& 0 <= i < a.len() ==> c[i] == a[i]
            &&& c[a.len() as int] == Tree::Object(b)
        }),
{
}

/// A truth value, a number or a string takes the place of anything; an array takes the place of
/// all but an array, and an object of all but an object or an array.
pub proof fn law_other_documents_are_replaced(destination: Tree, other: Tree)
    ensures
        scalar(other) ==> merged(destination, other) == other,
        other is Array && !(destination is Array) ==> merged(destination, other) == other,
        other is Object && !(destination is Object) && !(destination is Array) ==> merged(
            destination,
            other,
        ) == other,
{
}

/// A field that only the later document has is in the merged document unchanged, whatever it is.
pub proof fn law_new_field_is_taken_whole(earlier: Tree, later: Tree, path: Seq<Seq<char>>)
    requires
        lookup(later, path) is Some,
        silent_on(earlier, path),
    ensures
        lookup(merged(earlier, later), path) == lookup(later, path),
    decreases path.len(),
{
    let key = path[0];
    if earlier->Object_0.dom().contains(key) {
        law_new_field_is_taken_whole(
            earlier->Object_0[key],
            later->Object_0[key],
            path.drop_first(),
        );
    }
}

/// Documents are merged one after the other: the last one is merged into what the others give.
pub proof fn law_documents_are_merged_in_order(
    target: Tree,
    layers: Seq<Option<Tree>>,
    next: Option<Tree>,
)
    ensures
        merged_all(target, Seq::empty()) == target,
        next is None ==> merged_all(target, layers.push(next)) == merged_all(target, layers),
        next matches Some(other) ==> merged_all(target, layers.push(next)) == merged(
            merged_all(target, layers),
            other,
        ),
{
    assert(layers.push(next).drop_last() =~= layers);
}

/// Merging reports the first value that cannot be written down, by its name and with the reason,
/// and the target before all others.
pub proof fn law_first_unrepresentable_value_is_reported(
    target: Result<Json, String>,
    layers: Vec<Layer>,
    r: Result<Json, MergeError>,
    i: int,
)
    requires
        call_ensures(merge, (target, layers), r),
        0 <= i < layers@.len(),
        forall|j: int| 0 <= j < i ==> !((#[trigger] layers@[j]).1 matches Some(Err(_))),
        layers@[i].1 matches Some(Err(_)),
    ensures
        r is Err,
        target matches Err(cause) ==> r->Err_0.name@ == "target"@ && r->Err_0.cause@ == cause@,
        target is Ok ==> r->Err_0.name@ == layers@[i].0@ && (layers@[i].1 matches Some(Err(cause))
            && r->Err_0.cause@ == cause@),
{
    assert(unrepresentable(layers@[i]));
    if target is Ok {
        let error = r->Err_0;
        assert(merge_failure(target, layers@, error));
        let k = choose|k: int|
            {
                &&& 0 <= k < layers@.len()
                &&& forall|j: int| 0 <= j < k ==> !unrepresentable(#[trigger] layers@[j])
                &&& (#[trigger] layers@[k]).1 matches Some(Err(cause))
                &&& error.name@ == layers@[k].0@
                &&& error.cause@ == cause@
            };
        assert(unrepresentable(layers@[k]));
        if k < i {
            assert(!(layers@[k].1 matches Some(Err(_))));
        }
    }
}

/// A value takes part in a merge with its document just where it is present and can be written
/// down.
pub proof fn law_present_values_take_part(layers: Seq<Layer>, i: int)
    requires
        0 <= i < layers.len(),
    ensures
        layer_trees(layers).len() == layers.len(),
        layers[i].1 matches Some(Ok(json)) ==> layer_trees(layers)[i] == Some(json@),
        layers[i].1 is None ==> layer_trees(layers)[i] is None,
        layers[i].1 matches Some(Err(_)) ==> layer_trees(layers)[i] is None,
{
}

/// Merging succeeds where everything can be written down, and gives the documents merged into the
/// target from first to last.
pub proof fn law_representable_values_are_merged(
    target: Json,
    layers: Vec<Layer>,
    r: Result<Json, MergeError>,
)
    requires
        call_ensures(merge, (Ok(target), layers), r),
        forall|i: int|
            0 <= i < layers@.len() ==> !((#[trigger] layers@[i]).1 matches Some(Err(_))),
    ensures
        r matches Ok(json) && json@ == merged_all(target@, layer_trees(layers@)),
{
    assert forall|i: int| 0 <= i < layers@.len() implies !unrepresentable(
        #[trigger] layers@[i],
    ) by {}
}

} // verus!
