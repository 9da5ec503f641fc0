use vstd::prelude::*;
use crate::error::{Error, ErrorView};
use crate::meta::Lit;

verus! {

/// Relies on `syn::parse_str::<syn::Generics>`: `None` where the text parses
/// as a generics list, else syn's message. Nothing is promised of which
/// texts parse.
#[verifier::external_body]
fn generics_error(s: &str) -> (r: Option<String>) {
    syn::parse_str::<syn::Generics>(s).err().map(|e| e.to_string())
}

/// Extra generic parameters of a generated method, as token text.
#[derive(Clone, Debug, PartialEq, Eq, Default)]
pub struct FnGenerics {
    pub bound: Option<String>,
}

impl FnGenerics {
    pub open spec fn bound_view(self) -> Option<Seq<char>> {
        match self.bound {
            Some(b) => Some(b@),
            None => None,
        }
    }
}

/// The generics list that a non-empty `bound = "..."` string stands for.
pub open spec fn bracketed(s: Seq<char>) -> Seq<char> {
    "<"@ + s + ">"@
}

impl FnGenerics {
    /// The bound that the string `s` gives, where `parse_error` says whether
    /// its bracketed form failed to parse: none for an empty string, else the
    /// bracketed string, or the parser's message as the error.
    pub fn from_checked(s: &str, parse_error: Option<String>) -> (r: Result<FnGenerics, Error>)
        ensures
            s@.len() == 0 ==> r == Ok::<FnGenerics, Error>(FnGenerics { bound: None }),
            s@.len() != 0 && parse_error is None ==> (r matches Ok(g) && g.bound_view() == Some(bracketed(s@))),
            s@.len() != 0 && parse_error is Some ==> r == Err::<FnGenerics, Error>(
                Error::InvalidGenerics(parse_error->0),
            ),
    {
        if s.unicode_len() == 0 {
            return Ok(FnGenerics { bound: None });
        }
        match parse_error {
            Some(msg) => Err(Error::InvalidGenerics(msg)),
            None => {
                let mut tt = String::new();
                tt.append("<");
                tt.append(s);
                tt.append(">");
                Ok(FnGenerics { bound: Some(tt) })
            },
        }
    }

    /// Reads a bound from its attribute literal: an empty string gives no
    /// bound, another string `s` gives `<s>` where that parses as generics,
    /// any other literal is refused.
    pub fn from_value(value: &Lit) -> (r: Result<FnGenerics, Error>)
        ensures
            match *value {
                Lit::Str(s) => if s@.len() == 0 {
                    r == Ok::<FnGenerics, Error>(FnGenerics { bound: None })
                } else {
                    (r matches Ok(g) && g.bound_view() == Some(bracketed(s@))) || (r matches Err(e) && e@
                        == ErrorView::InvalidGenerics)
                },
                _ => (r matches Err(e) && e@ == ErrorView::ExpectedStrLiteral),
            },
    {
        match value {
            Lit::Str(s) => {
                if s.unicode_len() == 0 {
                    return Ok(FnGenerics { bound: None });
                }
                let mut tt = String::new();
                tt.append("<");
                tt.append(s.as_str());
                tt.append(">");
                FnGenerics::from_checked(s.as_str(), generics_error(tt.as_str()))
            },
            _ => Err(Error::ExpectedStrLiteral),
        }
    }
}

} // verus!
