use vstd::prelude::*;
use crate::text::str_eq;

verus! {

/// The value of the first tag named `key`.
pub open spec fn tag_lookup(s: Seq<(&'static str, &'static str)>, key: Seq<char>) -> Option<&'static str>
    decreases s.len(),
{
    if s.len() == 0 {
        None
    } else if s[0].0@ == key {
        Some(s[0].1)
    } else {
        tag_lookup(s.drop_first(), key)
    }
}

/// The tags of a struct or a field: key-value pairs in their written order.
#[derive(Clone, Copy, Debug, PartialEq, Eq, Hash, PartialOrd, Ord)]
pub struct Tags {
    pub tags: &'static [(&'static str, &'static str)],
}

impl Tags {
    pub open spec fn pairs(&self) -> Seq<(&'static str, &'static str)> {
        self.tags@
    }

    pub fn new(tags: &'static [(&'static str, &'static str)]) -> (r: Tags)
        ensures
            r.pairs() == tags@,
    {
        Tags { tags }
    }

    /// The pairs, in order.
    pub fn iter(&self) -> (r: Vec<(&'static str, &'static str)>)
        ensures
            r@ == self.pairs(),
    {
        let mut r: Vec<(&'static str, &'static str)> = Vec::new();
        let mut i: usize = 0;
        while i < self.tags.len()
            invariant
                i <= self.tags@.len(),
                r@ == self.tags@.subrange(0, i as int),
            decreases self.tags@.len() - i,
        {
            r.push(self.tags[i]);
            i = i + 1;
        }
        assert(self.tags@.subrange(0, i as int) == self.tags@);
        r
    }

    /// The keys, in order.
    pub fn keys(&self) -> (r: Vec<&'static str>)
        ensures
            r@.len() == self.pairs().len(),
            forall|i: int| 0 <= i < r@.len() ==> #[trigger] r@[i] == self.pairs()[i].0,
    {
        let mut r: Vec<&'static str> = Vec::new();
        let mut i: usize = 0;
        while i < self.tags.len()
            invariant
                i <= self.tags@.len(),
                r@.len() == i,
                forall|j: int| 0 <= j < i ==> #[trigger] r@[j] == self.tags@[j].0,
            decreases self.tags@.len() - i,
        {
            r.push(self.tags[i].0);
            i = i + 1;
        }
        r
    }

    /// The values, in order.
    pub fn values(&self) -> (r: Vec<&'static str>)
        ensures
            r@.len() == self.pairs().len(),
            forall|i: int| 0 <= i < r@.len() ==> #[trigger] r@[i] == self.pairs()[i].1,
    {
        let mut r: Vec<&'static str> = Vec::new();
        let mut i: usize = 0;
        while i < self.tags.len()
            invariant
                i <= self.tags@.len(),
                r@.len() == i,
                forall|j: int| 0 <= j < i ==> #[trigger] r@[j] == self.tags@[j].1,
            decreases self.tags@.len() - i,
        {
            r.push(self.tags[i].1);
            i = i + 1;
        }
        r
    }

    /// The value of the first tag named `key`.
    pub fn get(&self, key: &'static str) -> (r: Option<&'static str>)
        ensures
            r == tag_lookup(self.pairs(), key@),
    {
        let mut i: usize = 0;
        assert(self.tags@.subrange(0, self.tags@.len() as int) == self.tags@);
        while i < self.tags.len()
            invariant
                i <= self.tags@.len(),
                tag_lookup(self.tags@, key@) == tag_lookup(self.tags@.subrange(i as int, self.tags@.len() as int), key@),
            decreases self.tags@.len() - i,
        {
            let ghost rest = self.tags@.subrange(i as int, self.tags@.len() as int);
            assert(rest.drop_first() == self.tags@.subrange(i + 1, self.tags@.len() as int));
            assert(rest[0] == self.tags@[i as int]);
            let (k, v) = self.tags[i];
            if str_eq(k, key) {
                return Some(v);
            }
            i = i + 1;
        }
        None
    }
}

/// What is known of a field.
#[derive(Clone, Copy, Debug, PartialEq, Eq, Hash, PartialOrd, Ord)]
pub struct FieldInfo {
    pub name: &'static str,
    pub ty: &'static str,
    pub vis: &'static str,
    pub tags: Tags,
    pub size: usize,
}

impl FieldInfo {
    pub fn name(self) -> (r: &'static str)
        ensures
            r == self.name,
    {
        self.name
    }

    pub fn ty(self) -> (r: &'static str)
        ensures
            r == self.ty,
    {
        self.ty
    }

    pub fn vis(self) -> (r: &'static str)
        ensures
            r == self.vis,
    {
        self.vis
    }

    pub fn tags(self) -> (r: Tags)
        ensures
            r == self.tags,
    {
        self.tags
    }

    pub fn size(self) -> (r: usize)
        ensures
            r == self.size,
    {
        self.size
    }
}

/// What is known of a struct.
#[derive(Clone, Copy, Debug, PartialEq, Eq, Hash, PartialOrd, Ord)]
pub struct StructInfo {
    pub name: &'static str,
    pub vis: &'static str,
    pub fields: &'static [FieldInfo],
    /// `unit`, `tuple` or `struct`.
    pub ty: &'static str,
    pub size: usize,
    pub tags: Tags,
}

impl StructInfo {
    pub fn name(self) -> (r: &'static str)
        ensures
            r == self.name,
    {
        self.name
    }

    pub fn vis(self) -> (r: &'static str)
        ensures
            r == self.vis,
    {
        self.vis
    }

    pub fn fields(self) -> (r: &'static [FieldInfo])
        ensures
            r == self.fields,
    {
        self.fields
    }

    pub fn ty(self) -> (r: &'static str)
        ensures
            r == self.ty,
    {
        self.ty
    }

    pub fn size(self) -> (r: usize)
        ensures
            r == self.size,
    {
        self.size
    }

    pub fn tags(self) -> (r: Tags)
        ensures
            r == self.tags,
    {
        self.tags
    }
}

} // verus!
