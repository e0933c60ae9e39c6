//! Which lists are taken out of a description, and what stays.

use vstd::prelude::*;
use crate::idl::{
    absent_is_not_found, concrete, first_is_found, is_const, lookup, redundant,
    strip_redundant_const_generics, stripped, stripped_branch, stripped_branch_by_branch,
    stripped_branches, stripped_item_by_item, without, Branch, Json, Tree,
};

verus! {

/// The first branch with a key stands at a place.
pub open spec fn stands_at(branches: Seq<Branch>, key: Seq<char>, at: int) -> bool {
    &&& 0 <= at < branches.len()
    &&& branches[at].key == key
    &&& forall|j: int| 0 <= j < at ==> (#[trigger] branches[j]).key != key
}

/// No branch has a key.
pub open spec fn lacks(branches: Seq<Branch>, key: Seq<char>) -> bool {
    forall|j: int| 0 <= j < branches.len() ==> (#[trigger] branches[j]).key != key
}

/// An argument that says of itself that it is a constant.
pub open spec fn says_const(t: Tree) -> bool {
    t matches Tree::Object(branches) && exists|at: int|
        stands_at(branches, "kind"@, at) && (#[trigger] branches[at]).value == Tree::Text("const"@)
}

proof fn first_place(branches: Seq<Branch>, key: Seq<char>)
    ensures
        lacks(branches, key) <==> lookup(branches, key) is None,
        !lacks(branches, key) ==> exists|at: int| stands_at(branches, key, at) && lookup(branches, key) == Some((#[trigger] branches[at]).value),
    decreases branches.len(),
{
    if branches.len() > 0 {
        if branches[0].key == key {
            assert(stands_at(branches, key, 0));
            assert(lookup(branches, key) == Some(branches[0].value));
        } else {
            let rest = branches.drop_first();
            first_place(rest, key);
            assert forall|j: int| 0 <= j < rest.len() implies #[trigger] rest[j] == branches[j + 1] by {
            }
            if lacks(rest, key) {
                assert forall|j: int| 0 <= j < branches.len() implies (#[trigger] branches[j]).key != key by {
                    if j > 0 {
                        assert(rest[j - 1] == branches[j]);
                    }
                }
            } else {
                let k = choose|at: int| stands_at(rest, key, at) && lookup(rest, key) == Some((#[trigger] rest[at]).value);
                assert(branches[k + 1] == rest[k]);
                assert forall|j: int| 0 <= j < k + 1 implies (#[trigger] branches[j]).key != key by {
                    if j > 0 {
                        assert(rest[j - 1] == branches[j]);
                    }
                }
                assert(stands_at(branches, key, k + 1));
                assert(branches[k + 1].key == key);
            }
        }
    }
}

proof fn consts_say_so(t: Tree)
    ensures
        is_const(t) == says_const(t),
{
    if let Tree::Object(branches) = t {
        first_place(branches, "kind"@);
        assert forall|at: int| stands_at(branches, "kind"@, at) implies lookup(branches, "kind"@) == Some((#[trigger] branches[at]).value) by {
            first_is_found(branches, "kind"@, at);
        }
    }
}

proof fn one_key_is_left_out(branches: Seq<Branch>, key: Seq<char>, at: int)
    requires
        0 <= at < branches.len(),
        branches[at].key == key,
        forall|j: int| 0 <= j < branches.len() && j != at ==> (#[trigger] branches[j]).key != key,
    ensures
        without(branches, key) == branches.remove(at),
    decreases branches.len(),
{
    let rest = branches.drop_first();
    assert forall|j: int| 0 <= j < rest.len() implies #[trigger] rest[j] == branches[j + 1] by {
    }
    if at == 0 {
        nothing_is_left_out(rest, key);
        assert(branches.remove(0) =~= rest);
    } else {
        one_key_is_left_out(rest, key, at - 1);
        assert(seq![branches[0]] + rest.remove(at - 1) =~= branches.remove(at));
    }
}

proof fn nothing_is_left_out(branches: Seq<Branch>, key: Seq<char>)
    requires
        lacks(branches, key),
    ensures
        without(branches, key) == branches,
    decreases branches.len(),
{
    if branches.len() > 0 {
        let rest = branches.drop_first();
        assert forall|j: int| 0 <= j < rest.len() implies #[trigger] rest[j] == branches[j + 1] by {
        }
        nothing_is_left_out(rest, key);
        assert(seq![branches[0]] + rest =~= branches);
    } else {
        assert(without(branches, key) =~= branches);
    }
}

/// What a call leaves behind is the stripped description.
pub proof fn calls_strip(value: &mut Json)
    requires
        call_ensures(strip_redundant_const_generics, (value,), ()),
    ensures
        final(value)@ == stripped(old(value)@),
{
}

/// Scalars stay as they are; an array keeps its items, each stripped; an object
/// keeps its keys in their places.
pub proof fn stripping_keeps_the_shape(t: Tree, i: int)
    ensures
        t is Null || t is Bool || t is Number || t is Text ==> stripped(t) == t,
        t matches Tree::Array(items) ==> (stripped(t) matches Tree::Array(after) && after.len()
            == items.len() && (0 <= i < items.len() ==> after[i] == stripped(items[i]))),
        t matches Tree::Object(branches) ==> (stripped(t) matches Tree::Object(after) && after.len()
            == branches.len() && (0 <= i < branches.len() ==> after[i].key == branches[i].key)),
{
    if let Tree::Array(items) = t {
        stripped_item_by_item(items);
        if 0 <= i < items.len() {
            assert(items[i] == items[i]);
        }
    }
    if let Tree::Object(branches) = t {
        stripped_branch_by_branch(branches);
        if 0 <= i < branches.len() {
            assert(branches[i] == branches[i]);
        }
    }
}

/// A definition that lists constants and nothing else, and at least one, loses the
/// list and nothing else: the other keys stay in order, each with what it held,
/// stripped.
pub proof fn lists_of_constants_are_taken_out(
    outer: Seq<Branch>,
    i: int,
    inner: Seq<Branch>,
    g: int,
    listed: Seq<Tree>,
)
    requires
        0 <= i < outer.len(),
        outer[i].key == "defined"@,
        outer[i].value == Tree::Object(inner),
        0 <= g < inner.len(),
        inner[g].key == "generics"@,
        forall|j: int| 0 <= j < inner.len() && j != g ==> (#[trigger] inner[j]).key != "generics"@,
        inner[g].value == Tree::Array(listed),
        listed.len() > 0,
        forall|k: int| 0 <= k < listed.len() ==> says_const(#[trigger] listed[k]),
    ensures
        stripped(Tree::Object(outer)) matches Tree::Object(after) && after[i].key == "defined"@ && (
        after[i].value matches Tree::Object(left) && left.len() == inner.len() - 1 && (forall|j: int|
            0 <= j < left.len() ==> (#[trigger] left[j]).key == inner[if j < g { j } else { j
                + 1 }].key) && lacks(left, "generics"@)),
{
    stripped_branch_by_branch(outer);
    assert(stripped_branches(outer)[i] == stripped_branch(outer[i]));
    first_is_found(inner, "generics"@, g);
    assert forall|k: int| 0 <= k < listed.len() implies is_const(#[trigger] listed[k]) by {
        consts_say_so(listed[k]);
    }
    assert(redundant(outer[i].value));
    stripped_branch_by_branch(inner);
    let s = stripped_branches(inner);
    assert forall|j: int| 0 <= j < inner.len() implies (#[trigger] s[j]).key == inner[j].key by {
        assert(s[j] == stripped_branch(inner[j]));
    }
    one_key_is_left_out(s, "generics"@, g);
    let left = s.remove(g);
    assert forall|j: int| 0 <= j < left.len() implies (#[trigger] left[j]).key == inner[if j < g {
        j
    } else {
        j + 1
    }].key by {
        if j < g {
            assert(left[j] == s[j]);
        } else {
            assert(left[j] == s[j + 1]);
        }
    }
}

/// What is not such a definition keeps its list: under another key, without a list,
/// with an empty one, or with a list in which some argument is no constant.
pub proof fn other_lists_stay(outer: Seq<Branch>, i: int, inner: Seq<Branch>, g: int, k: int)
    requires
        0 <= i < outer.len(),
        outer[i].value == Tree::Object(inner),
        ({
            ||| outer[i].key != "defined"@
            ||| lacks(inner, "generics"@)
            ||| stands_at(inner, "generics"@, g) && !(inner[g].value is Array)
            ||| stands_at(inner, "generics"@, g) && (inner[g].value matches Tree::Array(listed)
                && listed.len() == 0)
            ||| stands_at(inner, "generics"@, g) && (inner[g].value matches Tree::Array(listed) && 0
                <= k < listed.len() && !says_const(listed[k]))
        }),
    ensures
        stripped(Tree::Object(outer)) matches Tree::Object(after) && after[i].value == stripped(
            outer[i].value,
        ),
{
    stripped_branch_by_branch(outer);
    assert(stripped_branches(outer)[i] == stripped_branch(outer[i]));
    if outer[i].key == "defined"@ {
        if lacks(inner, "generics"@) {
            absent_is_not_found(inner, "generics"@);
        } else {
            first_is_found(inner, "generics"@, g);
            if let Tree::Array(listed) = inner[g].value {
                if listed.len() > 0 {
                    consts_say_so(listed[k]);
                }
            }
        }
        assert(!redundant(outer[i].value));
    }
}

} // verus!
