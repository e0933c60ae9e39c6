//! The interface description of the exchange.
//!
//! A type with constant parameters is described under a concrete name, such as
//! `RelayBlock2x8`, and yet every reference to it lists the constants again. A
//! reader that honours them looks for a type that does not exist, so they are
//! taken out.

use vstd::prelude::*;

verus! {

/// A parsed description.
#[derive(Debug)]
pub enum Json {
    Null,
    Bool(bool),
    /// A number, as it is written.
    Number(String),
    Text(String),
    Array(Vec<Json>),
    /// Entries in order, each key once.
    Object(Vec<Entry>),
}

#[derive(Debug)]
pub struct Entry {
    pub key: String,
    pub value: Json,
}

/// What a description says.
pub enum Tree {
    Null,
    Bool(bool),
    Number(Seq<char>),
    Text(Seq<char>),
    Array(Seq<Tree>),
    Object(Seq<Branch>),
}

pub struct Branch {
    pub key: Seq<char>,
    pub value: Tree,
}

impl Json {
    pub open spec fn view(&self) -> Tree
        decreases self,
    {
        match *self {
            Json::Null => Tree::Null,
            Json::Bool(b) => Tree::Bool(b),
            Json::Number(n) => Tree::Number(n@),
            Json::Text(t) => Tree::Text(t@),
            Json::Array(items) => Tree::Array(item_views(items@)),
            Json::Object(entries) => Tree::Object(entry_views(entries@)),
        }
    }
}

pub open spec fn item_views(items: Seq<Json>) -> Seq<Tree>
    decreases items,
{
    if items.len() == 0 {
        Seq::empty()
    } else {
        item_views(items.drop_last()).push(items.last().view())
    }
}

pub open spec fn entry_views(entries: Seq<Entry>) -> Seq<Branch>
    decreases entries,
{
    if entries.len() == 0 {
        Seq::empty()
    } else {
        entry_views(entries.drop_last()).push(
            Branch { key: entries.last().key@, value: entries.last().value.view() },
        )
    }
}

/// The value of a key, if the key is there.
pub open spec fn lookup(branches: Seq<Branch>, key: Seq<char>) -> Option<Tree>
    decreases branches.len(),
{
    if branches.len() == 0 {
        None
    } else if branches[0].key == key {
        Some(branches[0].value)
    } else {
        lookup(branches.drop_first(), key)
    }
}

/// A generic argument that is a constant.
pub open spec fn is_const(t: Tree) -> bool {
    t matches Tree::Object(branches) && lookup(branches, "kind"@) == Some(Tree::Text("const"@))
}

/// A reference that lists constants, and nothing else.
pub open spec fn redundant(t: Tree) -> bool {
    t matches Tree::Object(branches) && lookup(branches, "generics"@) matches Some(
        Tree::Array(generics),
    ) && generics.len() > 0 && forall|i: int|
        0 <= i < generics.len() ==> is_const(#[trigger] generics[i])
}

/// The branches that have another key.
pub open spec fn without(branches: Seq<Branch>, key: Seq<char>) -> Seq<Branch>
    decreases branches.len(),
{
    if branches.len() == 0 {
        Seq::empty()
    } else if branches[0].key == key {
        without(branches.drop_first(), key)
    } else {
        seq![branches[0]] + without(branches.drop_first(), key)
    }
}

/// A reference without its list.
pub open spec fn concrete(t: Tree) -> Tree {
    match t {
        Tree::Object(branches) => Tree::Object(without(branches, "generics"@)),
        _ => t,
    }
}

/// A description without redundant lists.
pub open spec fn stripped(t: Tree) -> Tree
    decreases t,
{
    match t {
        Tree::Array(items) => Tree::Array(stripped_items(items)),
        Tree::Object(branches) => Tree::Object(stripped_branches(branches)),
        _ => t,
    }
}

pub open spec fn stripped_items(items: Seq<Tree>) -> Seq<Tree>
    decreases items,
{
    if items.len() == 0 {
        Seq::empty()
    } else {
        stripped_items(items.drop_last()).push(stripped(items.last()))
    }
}

pub open spec fn stripped_branches(branches: Seq<Branch>) -> Seq<Branch>
    decreases branches,
{
    if branches.len() == 0 {
        Seq::empty()
    } else {
        let last = branches.last();
        stripped_branches(branches.drop_last()).push(
            Branch {
                key: last.key,
                value: if last.key == "defined"@ && redundant(last.value) {
                    concrete(stripped(last.value))
                } else {
                    stripped(last.value)
                },
            },
        )
    }
}

pub open spec fn stripped_branch(b: Branch) -> Branch {
    Branch {
        key: b.key,
        value: if b.key == "defined"@ && redundant(b.value) {
            concrete(stripped(b.value))
        } else {
            stripped(b.value)
        },
    }
}

// ---------------------------------------------------------------------------
// Item by item
// ---------------------------------------------------------------------------

proof fn viewed_item_by_item(items: Seq<Json>)
    ensures
        item_views(items).len() == items.len(),
        forall|i: int| 0 <= i < items.len() ==> item_views(items)[i] == (#[trigger] items[i])@,
    decreases items.len(),
{
    if items.len() > 0 {
        let rest = items.drop_last();
        viewed_item_by_item(rest);
        assert forall|i: int| 0 <= i < items.len() implies item_views(items)[i]
            == (#[trigger] items[i])@ by {
            if i < rest.len() {
                assert(rest[i] == items[i]);
            }
        }
    }
}

proof fn viewed_entry_by_entry(entries: Seq<Entry>)
    ensures
        entry_views(entries).len() == entries.len(),
        forall|i: int|
            0 <= i < entries.len() ==> entry_views(entries)[i] == (Branch {
                key: (#[trigger] entries[i]).key@,
                value: entries[i].value@,
            }),
    decreases entries.len(),
{
    if entries.len() > 0 {
        let rest = entries.drop_last();
        viewed_entry_by_entry(rest);
        assert forall|i: int| 0 <= i < entries.len() implies entry_views(entries)[i] == (Branch {
            key: (#[trigger] entries[i]).key@,
            value: entries[i].value@,
        }) by {
            if i < rest.len() {
                assert(rest[i] == entries[i]);
            }
        }
    }
}

/// Items are stripped one by one.
pub proof fn stripped_item_by_item(items: Seq<Tree>)
    ensures
        stripped_items(items).len() == items.len(),
        forall|i: int|
            0 <= i < items.len() ==> stripped_items(items)[i] == stripped(#[trigger] items[i]),
    decreases items.len(),
{
    if items.len() > 0 {
        let rest = items.drop_last();
        stripped_item_by_item(rest);
        assert forall|i: int| 0 <= i < items.len() implies stripped_items(items)[i] == stripped(
            #[trigger] items[i],
        ) by {
            if i < rest.len() {
                assert(rest[i] == items[i]);
            }
        }
    }
}

/// Branches are stripped one by one, under their keys.
pub proof fn stripped_branch_by_branch(branches: Seq<Branch>)
    ensures
        stripped_branches(branches).len() == branches.len(),
        forall|i: int|
            0 <= i < branches.len() ==> stripped_branches(branches)[i] == stripped_branch(
                #[trigger] branches[i],
            ),
    decreases branches.len(),
{
    if branches.len() > 0 {
        let rest = branches.drop_last();
        stripped_branch_by_branch(rest);
        assert forall|i: int| 0 <= i < branches.len() implies stripped_branches(branches)[i]
            == stripped_branch(#[trigger] branches[i]) by {
            if i < rest.len() {
                assert(rest[i] == branches[i]);
            }
        }
    }
}

/// A key is found at its first branch.
pub proof fn first_is_found(branches: Seq<Branch>, key: Seq<char>, i: int)
    requires
        0 <= i < branches.len(),
        branches[i].key == key,
        forall|j: int| 0 <= j < i ==> (#[trigger] branches[j]).key != key,
    ensures
        lookup(branches, key) == Some(branches[i].value),
    decreases branches.len(),
{
    if i > 0 {
        assert(branches[0].key != key);
        let rest = branches.drop_first();
        assert forall|j: int| 0 <= j < i - 1 implies (#[trigger] rest[j]).key != key by {
            assert(rest[j] == branches[j + 1]);
        }
        first_is_found(rest, key, i - 1);
    }
}

/// A key that no branch has is not found.
pub proof fn absent_is_not_found(branches: Seq<Branch>, key: Seq<char>)
    requires
        forall|j: int| 0 <= j < branches.len() ==> (#[trigger] branches[j]).key != key,
    ensures
        lookup(branches, key) is None,
    decreases branches.len(),
{
    if branches.len() > 0 {
        let rest = branches.drop_first();
        assert(branches[0].key != key);
        assert forall|j: int| 0 <= j < rest.len() implies (#[trigger] rest[j]).key != key by {
            assert(rest[j] == branches[j + 1]);
        }
        absent_is_not_found(rest, key);
    }
}

// ---------------------------------------------------------------------------
// Stripping
// ---------------------------------------------------------------------------

fn find(entries: &Vec<Entry>, key: &str) -> (r: Option<usize>)
    ensures
        r matches Some(i) ==> i < entries@.len() && lookup(entry_views(entries@), key@) == Some(
            entries@[i as int].value@,
        ),
        r is None ==> lookup(entry_views(entries@), key@) is None,
{
    let wanted = key.to_string();
    let n = entries.len();
    let mut i: usize = 0;
    proof {
        viewed_entry_by_entry(entries@);
    }
    while i < n
        invariant
            i <= n,
            n == entries@.len(),
            wanted@ == key@,
            entry_views(entries@).len() == n,
            forall|j: int|
                0 <= j < n ==> entry_views(entries@)[j] == (Branch {
                    key: (#[trigger] entries@[j]).key@,
                    value: entries@[j].value@,
                }),
            forall|j: int| 0 <= j < i ==> (#[trigger] entry_views(entries@)[j]).key != key@,
        decreases n - i,
    {
        if entries[i].key == wanted {
            proof {
                first_is_found(entry_views(entries@), key@, i as int);
            }
            return Some(i);
        }
        i = i + 1;
    }
    proof {
        absent_is_not_found(entry_views(entries@), key@);
    }
    None
}

fn names_const(value: &Json) -> (r: bool)
    ensures
        r == is_const(value@),
{
    match value {
        Json::Object(entries) => match find(entries, "kind") {
            Some(i) => match &entries[i].value {
                Json::Text(t) => *t == "const".to_string(),
                _ => false,
            },
            None => false,
        },
        _ => false,
    }
}

fn lists_only_constants(value: &Json) -> (r: bool)
    ensures
        r == redundant(value@),
{
    match value {
        Json::Object(entries) => match find(entries, "generics") {
            Some(i) => match &entries[i].value {
                Json::Array(generics) => all_const(generics),
                _ => false,
            },
            None => false,
        },
        _ => false,
    }
}

fn all_const(generics: &Vec<Json>) -> (r: bool)
    ensures
        r == (item_views(generics@).len() > 0 && forall|i: int|
            0 <= i < item_views(generics@).len() ==> is_const(
                #[trigger] item_views(generics@)[i],
            )),
{
    let n = generics.len();
    let mut i: usize = 0;
    proof {
        viewed_item_by_item(generics@);
    }
    while i < n
        invariant
            i <= n,
            n == generics@.len(),
            item_views(generics@).len() == n,
            forall|j: int| 0 <= j < n ==> item_views(generics@)[j] == (#[trigger] generics@[j])@,
            forall|j: int| 0 <= j < i ==> is_const(#[trigger] item_views(generics@)[j]),
        decreases n - i,
    {
        if !names_const(&generics[i]) {
            assert(!is_const(item_views(generics@)[i as int]));
            return false;
        }
        i = i + 1;
    }
    n > 0
}

fn remove_key(entries: &mut Vec<Entry>, key: &str)
    ensures
        entry_views(final(entries)@) == without(entry_views(old(entries)@), key@),
{
    let key = key.to_string();
    let mut i: usize = 0;
    let ghost goal = without(entry_views(entries@), key@);
    proof {
        assert(entries@.take(0) =~= Seq::<Entry>::empty());
        assert(entries@.skip(0) =~= entries@);
        assert(entry_views(entries@.take(0)) + goal =~= goal);
    }
    while i < entries.len()
        invariant
            i <= entries@.len(),
            entry_views(entries@.take(i as int)) + without(
                entry_views(entries@.skip(i as int)),
                key@,
            ) == goal,
        decreases entries@.len() - i,
    {
        let ghost all = entries@;
        let ghost tail = all.skip(i as int);
        proof {
            viewed_entry_by_entry(tail);
            viewed_entry_by_entry(tail.drop_first());
            assert(tail[0] == all[i as int]);
            assert(entry_views(tail).drop_first() =~= entry_views(tail.drop_first())) by {
                assert forall|j: int| 0 <= j < tail.len() - 1 implies entry_views(
                    tail,
                ).drop_first()[j] == entry_views(tail.drop_first())[j] by {
                    assert(tail.drop_first()[j] == tail[j + 1]);
                }
            }
        }
        if entries[i].key == key {
            entries.remove(i);
            proof {
                assert(entries@.take(i as int) =~= all.take(i as int));
                assert(entries@.skip(i as int) =~= tail.drop_first());
            }
        } else {
            i = i + 1;
            proof {
                assert(all.skip(i as int) =~= tail.drop_first());
                assert(all.take(i as int).drop_last() =~= all.take(i - 1));
                assert(all.take(i as int).last() == tail[0]);
                let head = entry_views(tail)[0];
                assert(entry_views(all.take(i as int)) == entry_views(all.take(i - 1)).push(head));
                assert(entry_views(all.take(i - 1)).push(head) + without(
                    entry_views(tail.drop_first()),
                    key@,
                ) =~= entry_views(all.take(i - 1)) + (seq![head] + without(
                    entry_views(tail.drop_first()),
                    key@,
                )));
            }
        }
    }
    proof {
        assert(entries@.take(i as int) =~= entries@);
        assert(entries@.skip(i as int) =~= Seq::<Entry>::empty());
        assert(entry_views(entries@) + Seq::<Branch>::empty() =~= entry_views(entries@));
    }
}

/// Takes the redundant lists out of a description.
pub fn strip_redundant_const_generics(value: &mut Json)
    ensures
        final(value)@ == stripped(old(value)@),
    decreases *old(value),
{
    match value {
        Json::Array(items) => strip_items(items),
        Json::Object(entries) => strip_entries(entries),
        _ => {},
    }
}

fn strip_items(items: &mut Vec<Json>)
    ensures
        item_views(final(items)@) == stripped_items(item_views(old(items)@)),
    decreases *old(items),
{
    let n = items.len();
    let ghost before = items@;
    let mut i: usize = 0;
    while i < n
        invariant
            i <= n,
            n == before.len(),
            items@.len() == n,
            before == old(items)@,
            forall|j: int| i <= j < n ==> #[trigger] items@[j] == before[j],
            forall|j: int| 0 <= j < i ==> (#[trigger] items@[j])@ == stripped(before[j]@),
        decreases n - i,
    {
        assert(decreases_to!(*old(items) => old(items)@));
        assert(decreases_to!(old(items)@ => old(items)@[i as int]));
        strip_redundant_const_generics(&mut items[i]);
        i = i + 1;
    }
    proof {
        viewed_item_by_item(before);
        viewed_item_by_item(items@);
        stripped_item_by_item(item_views(before));
        assert forall|j: int| 0 <= j < n implies item_views(items@)[j] == stripped_items(
            item_views(before),
        )[j] by {
            assert(items@[j]@ == stripped(before[j]@));
            assert(item_views(before)[j] == before[j]@);
        }
        assert(item_views(items@) =~= stripped_items(item_views(before)));
    }
}

fn strip_entries(entries: &mut Vec<Entry>)
    ensures
        entry_views(final(entries)@) == stripped_branches(entry_views(old(entries)@)),
    decreases *old(entries),
{
    let n = entries.len();
    let ghost before = entries@;
    let mut i: usize = 0;
    let defined = "defined".to_string();
    while i < n
        invariant
            i <= n,
            n == before.len(),
            entries@.len() == n,
            before == old(entries)@,
            defined@ == "defined"@,
            forall|j: int| i <= j < n ==> #[trigger] entries@[j] == before[j],
            forall|j: int|
                0 <= j < i ==> (Branch {
                    key: (#[trigger] entries@[j]).key@,
                    value: entries@[j].value@,
                }) == stripped_branch(Branch { key: before[j].key@, value: before[j].value@ }),
        decreases n - i,
    {
        assert(decreases_to!(*old(entries) => old(entries)@));
        assert(decreases_to!(old(entries)@ => old(entries)@[i as int]));
        assert(decreases_to!(old(entries)@[i as int] => old(entries)@[i as int].value));
        let drop = entries[i].key == defined && lists_only_constants(&entries[i].value);
        strip_redundant_const_generics(&mut entries[i].value);
        if drop {
            drop_list(&mut entries[i].value);
        }
        i = i + 1;
    }
    proof {
        viewed_entry_by_entry(before);
        viewed_entry_by_entry(entries@);
        stripped_branch_by_branch(entry_views(before));
        assert forall|j: int| 0 <= j < n implies entry_views(entries@)[j] == stripped_branches(
            entry_views(before),
        )[j] by {
            assert((Branch { key: entries@[j].key@, value: entries@[j].value@ })
                == stripped_branch(Branch { key: before[j].key@, value: before[j].value@ }));
            assert(entry_views(before)[j] == (Branch {
                key: before[j].key@,
                value: before[j].value@,
            }));
        }
        assert(entry_views(entries@) =~= stripped_branches(entry_views(before)));
    }
}

fn drop_list(value: &mut Json)
    ensures
        final(value)@ == concrete(old(value)@),
{
    match value {
        Json::Object(entries) => remove_key(entries, "generics"),
        _ => {},
    }
}

// ---------------------------------------------------------------------------
// What stripping does
// ---------------------------------------------------------------------------

/// A description in which no reference lists constants again.
pub open spec fn clean(t: Tree) -> bool
    decreases t,
{
    match t {
        Tree::Array(items) => clean_items(items),
        Tree::Object(branches) => clean_branches(branches),
        _ => true,
    }
}

pub open spec fn clean_items(items: Seq<Tree>) -> bool
    decreases items,
{
    items.len() == 0 || (clean_items(items.drop_last()) && clean(items.last()))
}

pub open spec fn clean_branches(branches: Seq<Branch>) -> bool
    decreases branches,
{
    branches.len() == 0 || {
        &&& clean_branches(branches.drop_last())
        &&& clean(branches.last().value)
        &&& branches.last().key == "defined"@ ==> !redundant(branches.last().value)
    }
}

/// After stripping, no reference lists constants again.
pub proof fn stripping_cleans(t: Tree)
    ensures
        clean(stripped(t)),
    decreases t,
{
    match t {
        Tree::Array(items) => stripping_cleans_items(items),
        Tree::Object(branches) => stripping_cleans_branches(branches),
        _ => {},
    }
}

proof fn stripping_cleans_items(items: Seq<Tree>)
    ensures
        clean_items(stripped_items(items)),
    decreases items,
{
    if items.len() > 0 {
        stripping_cleans_items(items.drop_last());
        stripping_cleans(items.last());
        assert(stripped_items(items).drop_last() =~= stripped_items(items.drop_last()));
    }
}

proof fn stripping_cleans_branches(branches: Seq<Branch>)
    ensures
        clean_branches(stripped_branches(branches)),
    decreases branches,
{
    if branches.len() > 0 {
        let last = branches.last();
        stripping_cleans_branches(branches.drop_last());
        stripping_cleans(last.value);
        assert(stripped_branches(branches).drop_last() =~= stripped_branches(
            branches.drop_last(),
        ));
        if last.key == "defined"@ && redundant(last.value) {
            let inner = stripped(last.value)->Object_0;
            assert(stripped(last.value) is Object);
            removal_keeps_clean(inner, "generics"@);
            removal_removes(inner, "generics"@);
            let after = concrete(stripped(last.value));
            assert(after == Tree::Object(without(inner, "generics"@)));
            assert(clean(after));
            assert(!redundant(after));
            assert(stripped_branches(branches).last().value == after);
        } else {
            stripping_keeps_redundancy(last.value);
        }
    }
}

/// Leaving a key out keeps a description clean.
proof fn removal_keeps_clean(branches: Seq<Branch>, key: Seq<char>)
    requires
        clean_branches(branches),
    ensures
        clean_branches(without(branches, key)),
    decreases branches.len(),
{
    if branches.len() > 0 {
        let rest = branches.drop_first();
        clean_without_first(branches);
        removal_keeps_clean(rest, key);
        if branches[0].key != key {
            clean_with_first(branches[0], without(rest, key));
        }
    }
}

proof fn clean_without_first(branches: Seq<Branch>)
    requires
        branches.len() > 0,
        clean_branches(branches),
    ensures
        clean(branches[0].value),
        branches[0].key == "defined"@ ==> !redundant(branches[0].value),
        clean_branches(branches.drop_first()),
    decreases branches.len(),
{
    if branches.len() > 1 {
        let front = branches.drop_last();
        clean_without_first(front);
        assert(front[0] == branches[0]);
        assert(branches.drop_first().drop_last() =~= front.drop_first());
        assert(branches.drop_first().last() == branches.last());
    }
}

proof fn clean_with_first(first: Branch, rest: Seq<Branch>)
    requires
        clean(first.value),
        first.key == "defined"@ ==> !redundant(first.value),
        clean_branches(rest),
    ensures
        clean_branches(seq![first] + rest),
    decreases rest.len(),
{
    let all = seq![first] + rest;
    if rest.len() == 0 {
        assert(all.drop_last() =~= Seq::<Branch>::empty());
        assert(clean_branches(all.drop_last()));
        assert(all.last() == first);
    } else {
        clean_with_first(first, rest.drop_last());
        assert(all.drop_last() =~= seq![first] + rest.drop_last());
        assert(all.last() == rest.last());
    }
}

proof fn removal_removes(branches: Seq<Branch>, key: Seq<char>)
    ensures
        lookup(without(branches, key), key) is None,
    decreases branches.len(),
{
    if branches.len() > 0 {
        let rest = branches.drop_first();
        removal_removes(rest, key);
        if branches[0].key != key {
            let all = seq![branches[0]] + without(rest, key);
            assert(all.drop_first() =~= without(rest, key));
            assert(all[0] == branches[0]);
        }
    }
}

/// Stripping keeps keys where they are, and strips what stands under them.
proof fn stripped_lookup(branches: Seq<Branch>, key: Seq<char>)
    ensures
        lookup(branches, key) is None ==> lookup(stripped_branches(branches), key) is None,
        lookup(branches, key) matches Some(v) ==> lookup(stripped_branches(branches), key) == Some(
            stripped_branch(Branch { key, value: v }).value,
        ),
    decreases branches.len(),
{
    if branches.len() > 0 {
        let rest = branches.drop_first();
        let after = stripped_branches(branches);
        stripped_branch_by_branch(branches);
        stripped_branch_by_branch(rest);
        stripped_lookup(rest, key);
        assert forall|i: int| 0 <= i < rest.len() implies after.drop_first()[i]
            == stripped_branches(rest)[i] by {
            assert(rest[i] == branches[i + 1]);
        }
        assert(after.drop_first() =~= stripped_branches(rest));
        assert(after[0] == stripped_branch(branches[0]));
    }
}

proof fn stripping_keeps_const(t: Tree)
    ensures
        is_const(stripped(t)) == is_const(t),
{
    if let Tree::Object(branches) = t {
        stripped_lookup(branches, "kind"@);
        reveal_strlit("kind");
        reveal_strlit("defined");
        assert("kind"@.len() != "defined"@.len());
    }
}

/// Stripping what a reference holds does not make it redundant, nor mend it.
proof fn stripping_keeps_redundancy(t: Tree)
    ensures
        redundant(stripped(t)) == redundant(t),
{
    if let Tree::Object(branches) = t {
        stripped_lookup(branches, "generics"@);
        reveal_strlit("generics");
        reveal_strlit("defined");
        assert("generics"@.len() != "defined"@.len());
        if let Some(Tree::Array(generics)) = lookup(branches, "generics"@) {
            stripped_item_by_item(generics);
            let after = stripped_items(generics);
            assert forall|i: int| 0 <= i < generics.len() implies is_const(#[trigger] after[i])
                == is_const(generics[i]) by {
                stripping_keeps_const(generics[i]);
            }
            if redundant(stripped(t)) {
                assert forall|i: int| 0 <= i < generics.len() implies is_const(
                    #[trigger] generics[i],
                ) by {
                    assert(is_const(after[i]));
                }
            }
        }
    }
}

/// Stripping changes nothing in a clean description.
pub proof fn clean_descriptions_stay(t: Tree)
    requires
        clean(t),
    ensures
        stripped(t) == t,
    decreases t,
{
    match t {
        Tree::Array(items) => clean_items_stay(items),
        Tree::Object(branches) => clean_branches_stay(branches),
        _ => {},
    }
}

proof fn clean_items_stay(items: Seq<Tree>)
    requires
        clean_items(items),
    ensures
        stripped_items(items) == items,
    decreases items,
{
    if items.len() > 0 {
        clean_items_stay(items.drop_last());
        clean_descriptions_stay(items.last());
        assert(items.drop_last().push(items.last()) =~= items);
    }
}

proof fn clean_branches_stay(branches: Seq<Branch>)
    requires
        clean_branches(branches),
    ensures
        stripped_branches(branches) == branches,
    decreases branches,
{
    if branches.len() > 0 {
        clean_branches_stay(branches.drop_last());
        clean_descriptions_stay(branches.last().value);
        assert(branches.drop_last().push(branches.last()) =~= branches);
    }
}

/// Stripping twice is stripping once.
pub proof fn stripping_is_idempotent(t: Tree)
    ensures
        stripped(stripped(t)) == stripped(t),
{
    stripping_cleans(t);
    clean_descriptions_stay(stripped(t));
}

} // verus!
