use vstd::prelude::*;

verus! {

/// A literal inside an attribute, holding what the rules read of it.
#[derive(Clone, Debug, PartialEq, Eq)]
pub enum Lit {
    Str(String),
    ByteStr(Vec<u8>),
    Byte(u8),
    Char(char),
    /// An integer literal, as its base-10 digits.
    Int(String),
    /// A floating literal, as its base-10 digits.
    Float(String),
    Bool(bool),
    Verbatim(String),
}

/// The path that names an attribute entry.
#[derive(Clone, Debug, PartialEq, Eq)]
pub struct MetaPath {
    /// The path's segments joined by `::`.
    pub text: String,
    /// The identifier, where the path is a single identifier.
    pub ident: Option<String>,
}

/// One attribute entry: `name`, `name(...)` or `name = lit`.
#[derive(Debug, PartialEq, Eq)]
pub enum Meta {
    Path(MetaPath),
    List(MetaPath, Vec<NestedMeta>),
    NameValue(MetaPath, Lit),
}

/// An item of an attribute list.
#[derive(Debug, PartialEq, Eq)]
pub enum NestedMeta {
    Meta(Meta),
    Lit(Lit),
}

impl Meta {
    pub open spec fn path_spec(self) -> MetaPath {
        match self {
            Meta::Path(p) => p,
            Meta::List(p, _) => p,
            Meta::NameValue(p, _) => p,
        }
    }

    pub fn path(&self) -> (r: &MetaPath)
        ensures
            *r == self.path_spec(),
    {
        match self {
            Meta::Path(p) => p,
            Meta::List(p, _) => p,
            Meta::NameValue(p, _) => p,
        }
    }
}

} // verus!
