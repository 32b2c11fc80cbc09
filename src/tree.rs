use vstd::prelude::*;

verus! {

/// A generic structured-data tree: objects, arrays and scalars.
///
/// Numbers are either integers or, when they carry a fraction, their decimal text.
pub enum Tree {
    Null,
    Bool(bool),
    Int(i128),
    Real(String),
    Str(String),
    Array(Vec<Tree>),
    Object(Vec<(String, Tree)>),
}

/// The mathematical model of a [`Tree`].
pub enum TreeV {
    Null,
    Bool(bool),
    Int(int),
    Real(Seq<char>),
    Str(Seq<char>),
    Array(Seq<TreeV>),
    Object(Seq<(Seq<char>, TreeV)>),
}

pub open spec fn tree_view(t: Tree) -> TreeV
    decreases t,
{
    match t {
        Tree::Null => TreeV::Null,
        Tree::Bool(b) => TreeV::Bool(b),
        Tree::Int(n) => TreeV::Int(n as int),
        Tree::Real(s) => TreeV::Real(s@),
        Tree::Str(s) => TreeV::Str(s@),
        Tree::Array(items) => TreeV::Array(
            Seq::new(
                items@.len(),
                |i: int|
                    if 0 <= i < items@.len() {
                        tree_view(items@[i])
                    } else {
                        TreeV::Null
                    },
            ),
        ),
        Tree::Object(fields) => TreeV::Object(
            Seq::new(
                fields@.len(),
                |i: int|
                    if 0 <= i < fields@.len() {
                        (fields@[i].0@, tree_view(fields@[i].1))
                    } else {
                        (Seq::empty(), TreeV::Null)
                    },
            ),
        ),
    }
}

impl View for Tree {
    type V = TreeV;

    open spec fn view(&self) -> TreeV {
        tree_view(*self)
    }
}

/// The model of the entries of an object.
pub open spec fn entries_view(fields: Seq<(String, Tree)>) -> Seq<(Seq<char>, TreeV)> {
    Seq::new(
        fields.len(),
        |i: int|
            if 0 <= i < fields.len() {
                (fields[i].0@, tree_view(fields[i].1))
            } else {
                (Seq::empty(), TreeV::Null)
            },
    )
}

/// The model of an object is the model of its entries.
pub proof fn lemma_object_view(fields: Vec<(String, Tree)>)
    ensures
        tree_view(Tree::Object(fields)) == TreeV::Object(entries_view(fields@)),
{
    let s = tree_view(Tree::Object(fields))->Object_0;
    assert(s =~= entries_view(fields@));
}

/// The model of an array is the model of its items.
pub proof fn lemma_array_view(items: Vec<Tree>)
    ensures
        tree_view(Tree::Array(items)) == TreeV::Array(items@.map_values(|t: Tree| t@)),
{
    let s = tree_view(Tree::Array(items))->Array_0;
    assert(s =~= items@.map_values(|t: Tree| t@));
}
/// The value under the first entry named `key`, if any.
pub open spec fn lookup(fields: Seq<(Seq<char>, TreeV)>, key: Seq<char>) -> Option<TreeV>
    decreases fields.len(),
{
    if fields.len() == 0 {
        None
    } else if fields[0].0 == key {
        Some(fields[0].1)
    } else {
        lookup(fields.drop_first(), key)
    }
}

/// The first entry named `key` decides the lookup.
pub proof fn lemma_lookup_first(fields: Seq<(Seq<char>, TreeV)>, i: int, key: Seq<char>)
    requires
        0 <= i < fields.len(),
        fields[i].0 == key,
        forall|j: int| 0 <= j < i ==> fields[j].0 != key,
    ensures
        lookup(fields, key) == Some(fields[i].1),
    decreases i,
{
    if i > 0 {
        lemma_lookup_first(fields.drop_first(), i - 1, key);
    }
}

/// With no entry named `key`, nothing is found.
pub proof fn lemma_lookup_absent(fields: Seq<(Seq<char>, TreeV)>, key: Seq<char>)
    requires
        forall|j: int| 0 <= j < fields.len() ==> fields[j].0 != key,
    ensures
        lookup(fields, key) is None,
    decreases fields.len(),
{
    if fields.len() > 0 {
        lemma_lookup_absent(fields.drop_first(), key);
    }
}

/// Finds the value under the first entry named `key`.
pub fn get_entry<'a>(fields: &'a Vec<(String, Tree)>, key: &str) -> (r: Option<&'a Tree>)
    ensures
        match r {
            Some(t) => lookup(entries_view(fields@), key@) == Some(t@),
            None => lookup(entries_view(fields@), key@) is None,
        },
{
    let ghost all = entries_view(fields@);
    let wanted = String::from_str(key);
    let mut i: usize = 0;
    assert(all.subrange(0, all.len() as int) =~= all);
    while i < fields.len()
        invariant
            i <= fields@.len(),
            all == entries_view(fields@),
            wanted@ == key@,
            lookup(all, key@) == lookup(all.subrange(i as int, all.len() as int), key@),
        decreases fields@.len() - i,
    {
        let ghost rest = all.subrange(i as int, all.len() as int);
        assert(rest[0] == all[i as int]);
        if fields[i].0 == wanted {
            return Some(&fields[i].1);
        }
        assert(rest.drop_first() =~= all.subrange(i + 1, all.len() as int));
        i = i + 1;
    }
    None
}

/// Makes an owned string with the text of `s`.
pub fn text(s: &str) -> (r: String)
    ensures
        r@ == s@,
{
    String::from_str(s)
}

} // verus!
