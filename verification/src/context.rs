//! Typing contexts: the types of the variables in scope, innermost last.
use vstd::prelude::*;

use crate::ast::{copy_type, AlfaType};

verus! {

/// One variable of a context and its type.
#[derive(Debug)]
pub struct ContextEntry<'a> {
    pub id: &'a str,
    pub typ: AlfaType,
}

impl<'a> Clone for ContextEntry<'a> {
    fn clone(&self) -> (r: ContextEntry<'a>)
        ensures
            r == *self,
    {
        ContextEntry { id: self.id, typ: copy_type(&self.typ) }
    }
}

/// A typing context. A later entry shadows an earlier one of the same name.
#[derive(Debug)]
pub struct Context<'a> {
    vec: Vec<ContextEntry<'a>>,
}

/// A context as a sequence of (name, type) pairs, oldest first.
pub open spec fn entries_view<'a>(entries: Seq<ContextEntry<'a>>) -> Seq<(Seq<char>, AlfaType)> {
    entries.map_values(|e: ContextEntry<'a>| (e.id@, e.typ))
}

impl<'a> View for Context<'a> {
    type V = Seq<(Seq<char>, AlfaType)>;

    closed spec fn view(&self) -> Seq<(Seq<char>, AlfaType)> {
        entries_view(self.vec@)
    }
}

/// The type of the innermost entry named `name`, if any.
pub open spec fn lookup_in(entries: Seq<(Seq<char>, AlfaType)>, name: Seq<char>) -> Option<AlfaType>
    decreases entries.len(),
{
    if entries.len() == 0 {
        None
    } else if entries.last().0 == name {
        Some(entries.last().1)
    } else {
        lookup_in(entries.drop_last(), name)
    }
}

/// Whether two names are the same.
fn same_name(a: &str, b: &str) -> (r: bool)
    ensures
        r == (a@ == b@),
{
    a.to_string() == b.to_string()
}

impl<'a> Clone for Context<'a> {
    fn clone(&self) -> (r: Context<'a>)
        ensures
            r@ == self@,
    {
        let mut vec: Vec<ContextEntry<'a>> = Vec::new();
        let n = self.vec.len();
        for i in 0..n
            invariant
                n == self.vec@.len(),
                vec@ == self.vec@.take(i as int),
        {
            vec.push(self.vec[i].clone());
            assert(self.vec@.take(i + 1) == self.vec@.take(i as int).push(self.vec@[i as int]));
        }
        assert(self.vec@.take(n as int) == self.vec@);
        Context { vec }
    }
}

impl<'a> Context<'a> {
    /// The empty context.
    pub fn new() -> (r: Self)
        ensures
            r@ == Seq::<(Seq<char>, AlfaType)>::empty(),
    {
        let r = Context { vec: Vec::new() };
        assert(r@ =~= Seq::<(Seq<char>, AlfaType)>::empty());
        r
    }

    /// The context of the given entries, oldest first.
    pub fn new_from(vec: Vec<ContextEntry<'a>>) -> (r: Context<'a>)
        ensures
            r@ == entries_view(vec@),
    {
        Context { vec }
    }

    /// The type of the innermost variable named `id`.
    pub fn lookup(&self, id: &str) -> (r: Option<&AlfaType>)
        ensures
            r is Some == lookup_in(self@, id@) is Some,
            r matches Some(t) ==> lookup_in(self@, id@) == Some(*t),
    {
        let n = self.vec.len();
        let mut i = n;
        assert(self.vec@.take(n as int) =~= self.vec@);
        while i > 0
            invariant
                i <= n == self.vec@.len(),
                lookup_in(self@, id@) == lookup_in(entries_view(self.vec@.take(i as int)), id@),
            decreases i,
        {
            let e = &self.vec[i - 1];
            proof {
                let s = entries_view(self.vec@.take(i as int));
                assert(s.last() == (e.id@, e.typ));
                assert(s.drop_last() =~= entries_view(self.vec@.take(i - 1)));
            }
            if same_name(id, e.id) {
                return Some(&e.typ);
            }
            i = i - 1;
        }
        assert(entries_view(self.vec@.take(0)) =~= Seq::<(Seq<char>, AlfaType)>::empty());
        None
    }

    /// This context extended with `id` at type `typ`.
    pub fn update(&self, id: &'a str, typ: &AlfaType) -> (r: Self)
        ensures
            r@ == self@.push((id@, *typ)),
    {
        let mut res = self.clone();
        res.vec.push(ContextEntry { id, typ: copy_type(typ) });
        proof {
            assert(entries_view(res.vec@) =~= entries_view(self.vec@).push((id@, *typ)));
        }
        res
    }
}

/// Looking up a name just added gives its type.
pub proof fn lemma_lookup_update_same(entries: Seq<(Seq<char>, AlfaType)>, name: Seq<char>, t: AlfaType)
    ensures
        lookup_in(entries.push((name, t)), name) == Some(t),
{
}

/// Adding a name leaves the lookup of every other name as it was.
pub proof fn lemma_lookup_update_other(
    entries: Seq<(Seq<char>, AlfaType)>,
    added: Seq<char>,
    t: AlfaType,
    name: Seq<char>,
)
    requires
        added != name,
    ensures
        lookup_in(entries.push((added, t)), name) == lookup_in(entries, name),
{
    assert(entries.push((added, t)).drop_last() =~= entries);
}

/// Nothing is bound in the empty context.
pub proof fn lemma_lookup_empty(name: Seq<char>)
    ensures
        lookup_in(Seq::<(Seq<char>, AlfaType)>::empty(), name) is None,
{
}

} // verus!
