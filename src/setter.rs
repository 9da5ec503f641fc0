use vstd::prelude::*;
use crate::generics::FnGenerics;
use crate::getter::opt_text;
use crate::style::SetterStyle;
use crate::text::owned;

verus! {

/// Per-field setter options.
#[derive(Clone, Debug, PartialEq, Eq, Default)]
pub struct FieldSetterOptions {
    pub rename: Option<String>,
    pub style: Option<SetterStyle>,
    pub ignore: bool,
    pub vis: Option<String>,
    pub bound: FnGenerics,
}

/// Setter options of a whole struct.
#[derive(Clone, Debug, PartialEq, Eq)]
pub struct StructSetterOptions {
    pub prefix: Option<String>,
    pub style: SetterStyle,
    pub ignore: bool,
    pub vis_all: Option<String>,
}

impl Default for StructSetterOptions {
    fn default() -> (r: StructSetterOptions)
        ensures
            r.prefix matches Some(p) && p@ == "set"@,
            r.style == SetterStyle::Move,
            !r.ignore,
            r.vis_all is None,
    {
        StructSetterOptions { prefix: Some(owned("set")), style: SetterStyle::Move, ignore: false, vis_all: None }
    }
}

/// `s` without its final `>`, where it ends with one.
pub open spec fn drop_closing(s: Seq<char>) -> Seq<char> {
    if s.len() > 0 && s.last() == '>' {
        s.drop_last()
    } else {
        s
    }
}

/// Removes the final `>` of `s`, where it ends with one.
pub fn drop_closing_bracket(s: &str) -> (r: String)
    ensures
        r@ == drop_closing(s@),
{
    let n = s.unicode_len();
    if n > 0 && s.get_char(n - 1) == '>' {
        owned(s.substring_char(0, n - 1))
    } else {
        owned(s)
    }
}

/// The generics of a `try_into` setter: the field's bound with an `Error`
/// parameter added, or `<Error>` alone.
pub open spec fn try_bound_text(bound: Option<String>) -> Seq<char> {
    match bound {
        Some(b) => drop_closing(b@) + ", Error>"@,
        None => "<Error>"@,
    }
}

/// The signature and body of a setter in each style.
pub open spec fn setter_tail(style: SetterStyle, field: Seq<char>, ty: Seq<char>) -> Seq<char> {
    match style {
        SetterStyle::Ref => " (&mut self, val: "@ + ty + ") { self."@ + field + " = val; }"@,
        SetterStyle::Move => " (mut self, val: "@ + ty + ") -> Self { self."@ + field + " = val; self }"@,
        SetterStyle::Into => " (mut self, val: impl ::core::convert::Into<"@ + ty
            + ">) -> Self { self."@ + field + " = ::core::convert::Into::into(val); self }"@,
        SetterStyle::TryInto => " (mut self, val: impl ::core::convert::TryInto<"@ + ty
            + ", Error = Error>) -> ::core::result::Result<Self, Error> { self."@ + field
            + " = ::core::convert::TryInto::try_into(val)?; ::core::result::Result::Ok(self) }"@,
    }
}

/// The text of a setter method.
pub open spec fn setter_text(
    style: SetterStyle,
    vis: Seq<char>,
    bound: Option<String>,
    field: Seq<char>,
    ty: Seq<char>,
    fn_name: Seq<char>,
) -> Seq<char> {
    let generics = match style {
        SetterStyle::TryInto => try_bound_text(bound),
        _ => opt_text(bound),
    };
    "#[inline] "@ + vis + " fn "@ + fn_name + " "@ + generics + setter_tail(style, field, ty)
}

impl SetterStyle {
    pub fn to_setter(
        &self,
        fn_vis: &str,
        bound: &Option<String>,
        field_name: &str,
        field_ty: &str,
        fn_name: &str,
    ) -> (r: String)
        ensures
            r@ == setter_text(*self, fn_vis@, *bound, field_name@, field_ty@, fn_name@),
    {
        let mut r = String::new();
        r.append("#[inline] ");
        r.append(fn_vis);
        r.append(" fn ");
        r.append(fn_name);
        r.append(" ");
        match self {
            SetterStyle::TryInto => match bound {
                Some(b) => {
                    let t = drop_closing_bracket(b.as_str());
                    r.append(t.as_str());
                    r.append(", Error>");
                },
                None => r.append("<Error>"),
            },
            _ => match bound {
                Some(b) => r.append(b.as_str()),
                None => {},
            },
        }
        match self {
            SetterStyle::Ref => {
                r.append(" (&mut self, val: ");
                r.append(field_ty);
                r.append(") { self.");
                r.append(field_name);
                r.append(" = val; }");
            },
            SetterStyle::Move => {
                r.append(" (mut self, val: ");
                r.append(field_ty);
                r.append(") -> Self { self.");
                r.append(field_name);
                r.append(" = val; self }");
            },
            SetterStyle::Into => {
                r.append(" (mut self, val: impl ::core::convert::Into<");
                r.append(field_ty);
                r.append(">) -> Self { self.");
                r.append(field_name);
                r.append(" = ::core::convert::Into::into(val); self }");
            },
            SetterStyle::TryInto => {
                r.append(" (mut self, val: impl ::core::convert::TryInto<");
                r.append(field_ty);
                r.append(", Error = Error>) -> ::core::result::Result<Self, Error> { self.");
                r.append(field_name);
                r.append(" = ::core::convert::TryInto::try_into(val)?; ::core::result::Result::Ok(self) }");
            },
        }
        r
    }
}

/// A setter to generate, with everything resolved.
#[derive(Clone, Debug, PartialEq, Eq)]
pub struct FieldSetter {
    pub vis: String,
    pub bound: Option<String>,
    pub field_name: String,
    pub field_ty: String,
    pub fn_name: String,
    pub style: SetterStyle,
}

impl FieldSetter {
    pub open spec fn text(self) -> Seq<char> {
        setter_text(self.style, self.vis@, self.bound, self.field_name@, self.field_ty@, self.fn_name@)
    }

    pub fn to_tokens(&self) -> (r: String)
        ensures
            r@ == self.text(),
    {
        self.style.to_setter(
            self.vis.as_str(),
            &self.bound,
            self.field_name.as_str(),
            self.field_ty.as_str(),
            self.fn_name.as_str(),
        )
    }
}

} // verus!
