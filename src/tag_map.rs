use vstd::prelude::*;
use crate::error::ErrorView;
use crate::meta::{Lit, Meta, NestedMeta};
use crate::info::hex_digit;

verus! {

broadcast use {vstd::seq::axiom_seq_index_decreases, vstd::std_specs::vec::axiom_vec_decreases_to_view};

#[verifier::external_type_specification]
#[verifier::external_body]
#[verifier::reject_recursive_types(K)]
#[verifier::reject_recursive_types(V)]
#[verifier::reject_recursive_types(S)]
pub struct ExIndexMap<K, V, S>(indexmap::IndexMap<K, V, S>);

/// A key and a value, as characters.
pub type Entry = (Seq<char>, Seq<char>);

/// The entries of an ordered map, in order.
pub uninterp spec fn tag_entries(m: indexmap::IndexMap<String, String>) -> Seq<Entry>;

/// One character as serde_json writes it inside a JSON string: quote and
/// backslash escaped, the common control characters by their letter, the
/// other ones below 0x20 as `\u00xx` in lower-case hex, the rest unchanged.
pub open spec fn json_escaped_char(c: char) -> Seq<char> {
    let n = c as u32 as nat;
    if c == '"' {
        seq!['\\', '"']
    } else if c == '\\' {
        seq!['\\', '\\']
    } else if n == 0x08 {
        seq!['\\', 'b']
    } else if n == 0x09 {
        seq!['\\', 't']
    } else if n == 0x0a {
        seq!['\\', 'n']
    } else if n == 0x0c {
        seq!['\\', 'f']
    } else if n == 0x0d {
        seq!['\\', 'r']
    } else if n < 0x20 {
        seq!['\\', 'u', '0', '0', hex_digit(n / 16), hex_digit(n % 16)]
    } else {
        seq![c]
    }
}

/// The characters of `s` as they stand inside a JSON string.
pub open spec fn json_escaped(s: Seq<char>) -> Seq<char>
    decreases s.len(),
{
    if s.len() == 0 {
        Seq::empty()
    } else {
        json_escaped(s.drop_last()) + json_escaped_char(s.last())
    }
}

/// `s` as a JSON string: quoted, with its special characters escaped.
pub open spec fn json_quoted(s: Seq<char>) -> Seq<char> {
    seq!['"'] + json_escaped(s) + seq!['"']
}

/// `b` decoded as UTF-8, each invalid sequence replaced by U+FFFD.
pub uninterp spec fn utf8_lossy(b: Seq<u8>) -> Seq<char>;

/// The entries after inserting `k` with `v`: an existing key keeps its
/// place and takes the new value, a new key goes last.
pub open spec fn entries_insert(s: Seq<Entry>, k: Seq<char>, v: Seq<char>) -> Seq<Entry>
    decreases s.len(),
{
    if s.len() == 0 {
        seq![(k, v)]
    } else if s[0].0 == k {
        s.update(0, (k, v))
    } else {
        seq![s[0]] + entries_insert(s.drop_first(), k, v)
    }
}

/// Relies on `IndexMap::new`: the new map is empty.
#[verifier::external_body]
fn new_map() -> (r: indexmap::IndexMap<String, String>)
    ensures
        tag_entries(r) == Seq::<Entry>::empty(),
{
    indexmap::IndexMap::new()
}

/// Relies on `IndexMap::insert`: an existing key keeps its place in the
/// order and takes the new value; a new key is inserted last.
#[verifier::external_body]
fn map_insert(m: &mut indexmap::IndexMap<String, String>, k: String, v: String)
    ensures
        tag_entries(*final(m)) == entries_insert(tag_entries(*old(m)), k@, v@),
{
    m.insert(k, v);
}

/// Relies on `IndexMap::iter`, which yields the entries in their order.
#[verifier::external_body]
fn map_entries(m: &indexmap::IndexMap<String, String>) -> (r: Vec<(String, String)>)
    ensures
        r@.len() == tag_entries(*m).len(),
        forall|i: int|
            0 <= i < r@.len() ==> (#[trigger] r@[i]).0@ == tag_entries(*m)[i].0 && r@[i].1@ == tag_entries(
                *m,
            )[i].1,
{
    m.iter().map(|(k, v)| (k.clone(), v.clone())).collect()
}

/// Relies on `serde_json::to_string` on an `IndexMap<String, String>`, which
/// indexmap serialises as a map in its order: `{`, then each key and value as
/// JSON strings joined by `:`, separated by `,`, then `}`. It writes into
/// memory, and string keys are always accepted, so it cannot fail.
#[verifier::external_body]
fn map_json(m: &indexmap::IndexMap<String, String>) -> (r: Option<String>)
    ensures
        r is Some,
        r matches Some(t) ==> t@ == "{"@ + json_members(
            tag_entries(*m).map_values(|e: Entry| (json_quoted(e.0), json_quoted(e.1))),
        ) + "}"@,
{
    serde_json::to_string(m).ok()
}

/// Relies on `String::from_utf8_lossy`.
#[verifier::external_body]
fn lossy_text(b: &Vec<u8>) -> (r: String)
    ensures
        r@ == utf8_lossy(b@),
{
    String::from_utf8_lossy(b.as_slice()).to_string()
}

/// Relies on `String::push`: the character is appended.
#[verifier::external_body]
pub(crate) fn push_char(s: &mut String, c: char)
    ensures
        final(s)@ == old(s)@.push(c),
{
    s.push(c);
}

/// The decimal digit `d`.
pub open spec fn digit(d: nat) -> char {
    if d == 0 { '0' } else if d == 1 { '1' } else if d == 2 { '2' } else if d == 3 { '3' } else if d == 4 { '4' }
    else if d == 5 { '5' } else if d == 6 { '6' } else if d == 7 { '7' } else if d == 8 { '8' } else { '9' }
}

/// The decimal numeral of `n`.
pub open spec fn decimal(n: nat) -> Seq<char>
    decreases n,
{
    if n < 10 {
        seq![digit(n)]
    } else {
        decimal(n / 10).push(digit(n % 10))
    }
}

fn digit_char(d: u8) -> (c: char)
    requires
        d < 10,
    ensures
        c == digit(d as nat),
{
    if d == 0 { '0' } else if d == 1 { '1' } else if d == 2 { '2' } else if d == 3 { '3' } else if d == 4 { '4' }
    else if d == 5 { '5' } else if d == 6 { '6' } else if d == 7 { '7' } else if d == 8 { '8' } else { '9' }
}

/// The decimal numeral of `n`.
pub fn decimal_text(n: usize) -> (r: String)
    ensures
        r@ == decimal(n as nat),
    decreases n,
{
    if n < 10 {
        let mut r = String::new();
        push_char(&mut r, digit_char(n as u8));
        r
    } else {
        let mut r = decimal_text(n / 10);
        push_char(&mut r, digit_char((n % 10) as u8));
        r
    }
}

/// The text that a tag takes from a literal.
pub open spec fn lit_text(l: Lit) -> Seq<char> {
    match l {
        Lit::Str(s) => s@,
        Lit::ByteStr(b) => utf8_lossy(b@),
        Lit::Byte(b) => decimal(b as nat),
        Lit::Char(c) => seq![c],
        Lit::Int(s) => s@,
        Lit::Float(s) => s@,
        Lit::Bool(b) => if b { "true"@ } else { "false"@ },
        Lit::Verbatim(s) => s@,
    }
}

/// Already quoted keys and values joined as the members of a JSON object:
/// `key:value`, separated by commas.
pub open spec fn json_members(s: Seq<Entry>) -> Seq<char>
    decreases s.len(),
{
    if s.len() == 0 {
        Seq::empty()
    } else {
        let sep = if s.len() > 1 { ","@ } else { Seq::empty() };
        json_members(s.drop_last()) + sep + s.last().0 + ":"@ + s.last().1
    }
}

/// The entries with key and value each written as a JSON string.
pub open spec fn json_quote_entries(s: Seq<Entry>) -> Seq<Entry> {
    s.map_values(|e: Entry| (json_quoted(e.0), json_quoted(e.1)))
}

/// A JSON object with the entries of `s`, in order.
pub open spec fn json_object(s: Seq<Entry>) -> Seq<char> {
    "{"@ + json_members(json_quote_entries(s)) + "}"@
}

/// The tags that the first `n` items of a tag list give: `key = lit` takes
/// the literal's text, a bare `key` takes its own name, and `key(...)` takes
/// the nested list's tags as a JSON object; a later key replaces the value
/// of an earlier one in its place.
pub open spec fn tags_from(items: Seq<NestedMeta>, n: int) -> Result<Seq<Entry>, ErrorView>
    decreases items, n,
{
    if n <= 0 || n > items.len() {
        Ok(Seq::empty())
    } else {
        match tags_from(items, n - 1) {
            Err(e) => Err(e),
            Ok(prev) => match items[n - 1] {
                NestedMeta::Lit(_) => Err(ErrorView::UnsupportedLiteral),
                NestedMeta::Meta(m) => match m.path_spec().ident {
                    None => Err(ErrorView::MissingIdent),
                    Some(key) => match m {
                        Meta::NameValue(_, lit) => Ok(entries_insert(prev, key@, lit_text(lit))),
                        Meta::Path(_) => Ok(entries_insert(prev, key@, key@)),
                        Meta::List(_, l) => match tags_from(l@, l@.len() as int) {
                            Err(e) => Err(e),
                            Ok(inner) => Ok(entries_insert(prev, key@, json_object(inner))),
                        },
                    },
                },
            },
        }
    }
}

/// The tags of a whole list.
pub open spec fn tags_of(items: Seq<NestedMeta>) -> Result<Seq<Entry>, ErrorView> {
    tags_from(items, items.len() as int)
}

/// The tags attached to a struct or a field: an ordered map from tag name
/// to text.
pub struct TagMap {
    pub map: indexmap::IndexMap<String, String>,
}

impl TagMap {
    pub open spec fn entries(&self) -> Seq<Entry> {
        tag_entries(self.map)
    }

    pub fn new() -> (r: TagMap)
        ensures
            r.entries() == Seq::<Entry>::empty(),
    {
        TagMap { map: new_map() }
    }

    /// The entries, in order.
    pub fn pairs(&self) -> (r: Vec<(String, String)>)
        ensures
            r@.len() == self.entries().len(),
            forall|i: int|
                0 <= i < r@.len() ==> (#[trigger] r@[i]).0@ == self.entries()[i].0 && r@[i].1@
                    == self.entries()[i].1,
    {
        map_entries(&self.map)
    }

    /// The entries as a JSON object.
    pub fn to_json(&self) -> (r: Result<String, crate::error::Error>)
        ensures
            r matches Ok(t) && t@ == json_object(self.entries()),
    {
        match map_json(&self.map) {
            Some(t) => Ok(t),
            None => Err(crate::error::Error::Json),
        }
    }

    /// Reads a tag list.
    pub fn from_list(items: &Vec<NestedMeta>) -> (r: Result<TagMap, crate::error::Error>)
        ensures
            match (r, tags_of(items@)) {
                (Ok(t), Ok(s)) => t.entries() == s,
                (Err(e), Err(f)) => e@ == f,
                _ => false,
            },
        decreases items@,
    {
        let mut map = TagMap::new();
        let mut k: usize = 0;
        while k < items.len()
            invariant
                k <= items@.len(),
                tags_from(items@, k as int) == Ok::<Seq<Entry>, ErrorView>(map.entries()),
            decreases items@.len() - k,
        {
            let (key, value) = match &items[k] {
                NestedMeta::Lit(_) => {
                    proof {
                        lemma_error_stays(items@, k as int + 1);
                    }
                    return Err(crate::error::Error::UnsupportedLiteral);
                },
                NestedMeta::Meta(m) => {
                    let key = match &m.path().ident {
                        Some(i) => i.clone(),
                        None => {
                            proof {
                                lemma_error_stays(items@, k as int + 1);
                            }
                            return Err(crate::error::Error::MissingIdent);
                        },
                    };
                    let value = match m {
                        Meta::NameValue(_, lit) => literal_text(lit),
                        Meta::Path(_) => key.clone(),
                        Meta::List(_, l) => {
                            assert(decreases_to!(items@ => l@));
                            match TagMap::from_list(l) {
                                Err(e) => {
                                    proof {
                                        lemma_error_stays(items@, k as int + 1);
                                    }
                                    return Err(e);
                                },
                                Ok(inner) => match inner.to_json() {
                                    Ok(j) => j,
                                    Err(e) => {
                                        return Err(e);
                                    },
                                },
                            }
                        },
                    };
                    (key, value)
                },
            };
            map_insert(&mut map.map, key, value);
            k = k + 1;
        }
        Ok(map)
    }
}

/// The text of a literal.
pub fn literal_text(l: &Lit) -> (r: String)
    ensures
        r@ == lit_text(*l),
{
    match l {
        Lit::Str(s) => s.clone(),
        Lit::ByteStr(b) => lossy_text(b),
        Lit::Byte(b) => decimal_text(*b as usize),
        Lit::Char(c) => {
            let mut r = String::new();
            push_char(&mut r, *c);
            r
        },
        Lit::Int(s) => s.clone(),
        Lit::Float(s) => s.clone(),
        Lit::Bool(b) => if *b {
            crate::text::owned("true")
        } else {
            crate::text::owned("false")
        },
        Lit::Verbatim(s) => s.clone(),
    }
}

/// Once reading stops at an error, the rest of the list does not change it.
proof fn lemma_error_stays(s: Seq<NestedMeta>, n: int)
    requires
        0 <= n <= s.len(),
        tags_from(s, n) is Err,
    ensures
        tags_of(s) == tags_from(s, n),
    decreases s.len() - n,
{
    if n < s.len() {
        lemma_error_stays(s, n + 1);
    }
}

} // verus!
