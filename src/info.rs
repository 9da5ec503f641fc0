use vstd::prelude::*;
use crate::tag_map::{decimal, decimal_text, digit, push_char, Entry, TagMap};

verus! {

/// The hexadecimal digit `d`, in lower case.
pub open spec fn hex_digit(d: nat) -> char {
    if d < 10 {
        digit(d)
    } else if d == 10 {
        'a'
    } else if d == 11 {
        'b'
    } else if d == 12 {
        'c'
    } else if d == 13 {
        'd'
    } else if d == 14 {
        'e'
    } else {
        'f'
    }
}

/// The hexadecimal numeral of a number below 256, without leading zeros.
pub open spec fn hex_text(n: nat) -> Seq<char> {
    if n < 16 {
        seq![hex_digit(n)]
    } else {
        seq![hex_digit(n / 16), hex_digit(n % 16)]
    }
}

/// Whether `c` is written as a `\u{..}` escape: the control characters.
pub open spec fn is_control(c: char) -> bool {
    (c as u32) < 0x20 || (c as u32) == 0x7f
}

/// One character as it stands inside a string literal.
#[verifier::opaque]
pub open spec fn escaped_char(c: char) -> Seq<char> {
    if c == '\\' {
        seq!['\\', '\\']
    } else if c == '"' {
        seq!['\\', '"']
    } else if is_control(c) {
        seq!['\\', 'u', '{'] + hex_text(c as u32 as nat) + seq!['}']
    } else {
        seq![c]
    }
}

/// The characters of `s` as they stand inside a string literal.
pub open spec fn escaped(s: Seq<char>) -> Seq<char>
    decreases s.len(),
{
    if s.len() == 0 {
        Seq::empty()
    } else {
        escaped(s.drop_last()) + escaped_char(s.last())
    }
}

/// `s` written as a Rust string literal.
#[verifier::opaque]
pub open spec fn str_literal(s: Seq<char>) -> Seq<char> {
    seq!['"'] + escaped(s) + seq!['"']
}

fn hex_char(d: u32) -> (c: char)
    requires
        d < 16,
    ensures
        c == hex_digit(d as nat),
{
    if d == 0 { '0' } else if d == 1 { '1' } else if d == 2 { '2' } else if d == 3 { '3' } else if d == 4 { '4' }
    else if d == 5 { '5' } else if d == 6 { '6' } else if d == 7 { '7' } else if d == 8 { '8' } else if d == 9 { '9' }
    else if d == 10 { 'a' } else if d == 11 { 'b' } else if d == 12 { 'c' } else if d == 13 { 'd' } else if d == 14 { 'e' }
    else { 'f' }
}

/// Writes `s` as a Rust string literal: backslash and double quote are
/// escaped, control characters are written as `\u{..}`, every other
/// character stands as it is.
pub fn string_literal(s: &str) -> (r: String)
    ensures
        r@ == str_literal(s@),
{
    let n = s.unicode_len();
    let mut r = String::new();
    push_char(&mut r, '"');
    let mut i: usize = 0;
    while i < n
        invariant
            n == s@.len(),
            i <= n,
            r@ == seq!['"'] + escaped(s@.subrange(0, i as int)),
        decreases n - i,
    {
        let c = s.get_char(i);
        assert(s@.subrange(0, i + 1).drop_last() == s@.subrange(0, i as int));
        assert(s@.subrange(0, i + 1).last() == c);
        let ghost before = r@;
        proof {
            reveal(escaped_char);
        }
        if c == '\\' {
            push_char(&mut r, '\\');
            push_char(&mut r, '\\');
        } else if c == '"' {
            push_char(&mut r, '\\');
            push_char(&mut r, '"');
        } else if (c as u32) < 0x20 || (c as u32) == 0x7f {
            let v = c as u32;
            push_char(&mut r, '\\');
            push_char(&mut r, 'u');
            push_char(&mut r, '{');
            if v >= 16 {
                push_char(&mut r, hex_char(v / 16));
            }
            push_char(&mut r, hex_char(v % 16));
            push_char(&mut r, '}');
        } else {
            push_char(&mut r, c);
        }
        assert(r@ == before + escaped_char(c));
        i = i + 1;
    }
    assert(s@.subrange(0, n as int) == s@);
    push_char(&mut r, '"');
    proof {
        reveal(str_literal);
    }
    r
}

/// The tags as a comma-separated list of `(key, value)` pairs of literals.
pub open spec fn tags_text(s: Seq<Entry>) -> Seq<char>
    decreases s.len(),
{
    if s.len() == 0 {
        Seq::empty()
    } else {
        let sep = if s.len() > 1 { ", "@ } else { Seq::empty() };
        tags_text(s.drop_last()) + sep + "("@ + str_literal(s.last().0) + ", "@ + str_literal(s.last().1) + ")"@
    }
}

/// Writes the tags as a list of `(key, value)` pairs.
pub fn tags_tokens(t: &TagMap) -> (r: String)
    ensures
        r@ == tags_text(t.entries()),
{
    let pairs = t.pairs();
    let ghost es = t.entries();
    let mut out = String::new();
    let mut i: usize = 0;
    while i < pairs.len()
        invariant
            i <= pairs@.len(),
            pairs@.len() == es.len(),
            forall|j: int| 0 <= j < pairs@.len() ==> (#[trigger] pairs@[j]).0@ == es[j].0 && pairs@[j].1@ == es[j].1,
            out@ == tags_text(es.subrange(0, i as int)),
        decreases pairs@.len() - i,
    {
        assert(es.subrange(0, i + 1).drop_last() == es.subrange(0, i as int));
        if i > 0 {
            out.append(", ");
        }
        out.append("(");
        out.append(string_literal(pairs[i].0.as_str()).as_str());
        out.append(", ");
        out.append(string_literal(pairs[i].1.as_str()).as_str());
        out.append(")");
        i = i + 1;
    }
    assert(es.subrange(0, i as int) == es);
    out
}

/// A field of a struct that derives its metadata, as token text.
pub struct InfoField {
    /// The field's name; `None` in a tuple struct.
    pub ident: Option<String>,
    pub ty: String,
    pub vis: String,
    pub tags: TagMap,
}

/// How many of the first `n` fields have no name.
pub open spec fn unnamed_before(fs: Seq<InfoField>, n: int) -> nat
    decreases n,
{
    if n <= 0 {
        0
    } else {
        unnamed_before(fs, n - 1) + if fs[n - 1].ident is None { 1nat } else { 0nat }
    }
}

/// The name recorded for field `i`: its own, or its place among the
/// unnamed fields.
pub open spec fn info_field_name(fs: Seq<InfoField>, i: int) -> Seq<char> {
    match fs[i].ident {
        Some(n) => n@,
        None => decimal(unnamed_before(fs, i)),
    }
}

/// The metadata entry of one field.
pub open spec fn field_info_text(name: Seq<char>, f: InfoField) -> Seq<char> {
    "::infoit::FieldInfo { name: "@ + str_literal(name) + ", ty: "@ + str_literal(f.ty@)
        + ", tags: ::infoit::Tags { tags: &["@ + tags_text(f.tags.entries()) + "] }, vis: "@ + str_literal(f.vis@)
        + ", size: ::core::mem::size_of::<"@ + f.ty@ + ">(), }"@
}

fn field_info_tokens(name: &str, f: &InfoField) -> (r: String)
    ensures
        r@ == field_info_text(name@, *f),
{
    let mut out = String::new();
    out.append("::infoit::FieldInfo { name: ");
    out.append(string_literal(name).as_str());
    out.append(", ty: ");
    out.append(string_literal(f.ty.as_str()).as_str());
    out.append(", tags: ::infoit::Tags { tags: &[");
    out.append(tags_tokens(&f.tags).as_str());
    out.append("] }, vis: ");
    out.append(string_literal(f.vis.as_str()).as_str());
    out.append(", size: ::core::mem::size_of::<");
    out.append(f.ty.as_str());
    out.append(">(), }");
    out
}

/// The metadata entries of the first `n` fields, comma-separated.
pub open spec fn fields_text(fs: Seq<InfoField>, n: int) -> Seq<char>
    decreases n,
{
    if n <= 0 {
        Seq::empty()
    } else {
        let sep = if n > 1 { ", "@ } else { Seq::empty() };
        fields_text(fs, n - 1) + sep + field_info_text(info_field_name(fs, n - 1), fs[n - 1])
    }
}

/// The kind recorded for a struct: `unit` without fields, `struct` where
/// its fields are named, `tuple` where they are not.
pub open spec fn kind_of(fs: Seq<InfoField>) -> Seq<char> {
    if fs.len() == 0 {
        "unit"@
    } else if fs[0].ident is Some {
        "struct"@
    } else {
        "tuple"@
    }
}

pub fn struct_kind(fields: &Vec<InfoField>) -> (r: &'static str)
    ensures
        r@ == kind_of(fields@),
{
    if fields.len() == 0 {
        "unit"
    } else if fields[0].ident.is_some() {
        "struct"
    } else {
        "tuple"
    }
}

/// A struct that derives its metadata, as token text.
pub struct InfoStruct {
    pub name: String,
    /// The visibility of the generated constant.
    pub vis: String,
    pub tags: TagMap,
    pub impl_generics: String,
    pub ty_generics: String,
    pub where_clause: String,
    pub fields: Vec<InfoField>,
}

impl InfoStruct {
    /// The `impl` block that defines the struct's `INFO` constant.
    pub open spec fn text(self) -> Seq<char> {
        "impl"@ + self.impl_generics@ + " "@ + self.name@ + self.ty_generics@ + " "@ + self.where_clause@ + " { "@
            + self.vis@ + " const INFO: ::infoit::StructInfo = ::infoit::StructInfo { name: "@ + str_literal(
            self.name@,
        ) + ", fields: &["@ + fields_text(self.fields@, self.fields@.len() as int)
            + "], size: ::core::mem::size_of::<Self>(), tags: ::infoit::Tags { tags: &["@ + tags_text(
            self.tags.entries(),
        ) + "] }, vis: "@ + str_literal(self.vis@) + ", ty: "@ + str_literal(kind_of(self.fields@)) + ", }; }"@
    }

    fn fields_tokens(&self) -> (r: String)
        ensures
            r@ == fields_text(self.fields@, self.fields@.len() as int),
    {
        let fs = &self.fields;
        let mut out = String::new();
        let mut ctr: usize = 0;
        let mut i: usize = 0;
        while i < fs.len()
            invariant
                i <= fs@.len(),
                ctr == unnamed_before(fs@, i as int),
                ctr <= i,
                out@ == fields_text(fs@, i as int),
            decreases fs@.len() - i,
        {
            let f = &fs[i];
            let name = match &f.ident {
                Some(n) => n.clone(),
                None => {
                    let n = decimal_text(ctr);
                    ctr = ctr + 1;
                    n
                },
            };
            assert(name@ == info_field_name(fs@, i as int));
            let piece = field_info_tokens(name.as_str(), f);
            let ghost before = out@;
            if i > 0 {
                out.append(", ");
            }
            out.append(piece.as_str());
            assert(out@ == fields_text(fs@, i + 1)) by {
                if i > 0 {
                    assert(out@ == before + ", "@ + piece@);
                } else {
                    assert(out@ == before + piece@);
                }
            }
            i = i + 1;
        }
        out
    }

    /// Writes the `impl` block that defines the struct's `INFO` constant.
    pub fn to_tokens(&self) -> (r: String)
        ensures
            r@ == self.text(),
    {
        let mut out = String::new();
        out.append("impl");
        out.append(self.impl_generics.as_str());
        out.append(" ");
        out.append(self.name.as_str());
        out.append(self.ty_generics.as_str());
        out.append(" ");
        out.append(self.where_clause.as_str());
        out.append(" { ");
        out.append(self.vis.as_str());
        out.append(" const INFO: ::infoit::StructInfo = ::infoit::StructInfo { name: ");
        out.append(string_literal(self.name.as_str()).as_str());
        out.append(", fields: &[");
        out.append(self.fields_tokens().as_str());
        out.append("], size: ::core::mem::size_of::<Self>(), tags: ::infoit::Tags { tags: &[");
        out.append(tags_tokens(&self.tags).as_str());
        out.append("] }, vis: ");
        out.append(string_literal(self.vis.as_str()).as_str());
        out.append(", ty: ");
        out.append(string_literal(struct_kind(&self.fields)).as_str());
        out.append(", }; }");
        out
    }
}

} // verus!
