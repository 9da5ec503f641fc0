use vstd::prelude::*;
use crate::generics::FnGenerics;
use crate::style::Style;

verus! {

/// The text of an optional piece, empty when absent.
pub open spec fn opt_text(o: Option<String>) -> Seq<char> {
    match o {
        Some(s) => s@,
        None => Seq::empty(),
    }
}

/// How a getter turns the field into its result.
#[derive(Clone, Debug, PartialEq, Eq, Default)]
pub struct FieldConverter {
    /// The style of the access that the function receives.
    pub style: Option<Style>,
    /// The path of the converting function.
    pub func: Option<String>,
}

/// The `result(...)` option of a field's getter.
#[derive(Clone, Debug, PartialEq, Eq)]
pub struct GetterConverter {
    /// The getter's result type, where it is not the field's type.
    pub ty: Option<String>,
    pub converter: FieldConverter,
    pub bound: FnGenerics,
}

/// Per-field getter options.
#[derive(Clone, Debug, PartialEq, Eq, Default)]
pub struct FieldGetterOptions {
    pub rename: Option<String>,
    pub style: Option<Style>,
    pub ignore: bool,
    pub vis: Option<String>,
    pub result: Option<GetterConverter>,
}

/// Getter options of a whole struct.
#[derive(Clone, Debug, PartialEq, Eq)]
pub struct StructGetterOptions {
    pub prefix: Option<String>,
    pub style: Style,
    pub ignore: bool,
    pub vis_all: Option<String>,
}

impl Default for StructGetterOptions {
    fn default() -> (r: StructGetterOptions)
        ensures
            r.prefix is None,
            r.style == Style::Ref,
            !r.ignore,
            r.vis_all is None,
    {
        StructGetterOptions { prefix: None, style: Style::Ref, ignore: false, vis_all: None }
    }
}

/// The expression that reads the field, passed through `func` if there is one.
pub open spec fn access_text(style: Style, func: Option<String>, field: Seq<char>) -> Seq<char> {
    let base = match style {
        Style::Ref => "&self."@ + field,
        Style::Move => "self."@ + field,
    };
    match func {
        Some(f) => f@ + "("@ + base + ")"@,
        None => base,
    }
}

/// A getter method that returns `body` as a `ty`, taking `self` by
/// reference or by value as `receiver` says.
pub open spec fn getter_text(
    vis: Seq<char>,
    fn_name: Seq<char>,
    bound: Seq<char>,
    receiver: Style,
    ty: Seq<char>,
    body: Seq<char>,
) -> Seq<char> {
    let recv = match receiver {
        Style::Ref => " (&self) -> "@,
        Style::Move => " (self) -> "@,
    };
    "#[inline] "@ + vis + " fn "@ + fn_name + " "@ + bound + recv + ty + " { "@ + body + " }"@
}

fn access(style: Style, func: &Option<String>, field: &str) -> (r: String)
    ensures
        r@ == access_text(style, *func, field@),
{
    let mut base = String::new();
    match style {
        Style::Ref => base.append("&self."),
        Style::Move => base.append("self."),
    }
    base.append(field);
    match func {
        Some(f) => {
            let mut r = f.clone();
            r.append("(");
            r.append(base.as_str());
            r.append(")");
            r
        },
        None => base,
    }
}

fn getter(vis: &str, fn_name: &str, bound: &Option<String>, receiver: Style, ty: &str, body: &str) -> (r:
    String)
    ensures
        r@ == getter_text(vis@, fn_name@, opt_text(*bound), receiver, ty@, body@),
{
    let mut r = String::new();
    r.append("#[inline] ");
    r.append(vis);
    r.append(" fn ");
    r.append(fn_name);
    r.append(" ");
    match bound {
        Some(b) => r.append(b.as_str()),
        None => {},
    }
    match receiver {
        Style::Ref => r.append(" (&self) -> "),
        Style::Move => r.append(" (self) -> "),
    }
    r.append(ty);
    r.append(" { ");
    r.append(body);
    r.append(" }");
    r
}

impl GetterConverter {
    /// The text of the converting getter `fn_name` of field `field_name`:
    /// the receiver follows `style`, the access follows the converter's own
    /// style where it has one, and the result type is the converter's type
    /// where it has one.
    pub open spec fn getter_fn_text(
        self,
        field_name: Seq<char>,
        field_ty: Seq<char>,
        style: Style,
        vis: Seq<char>,
        fn_name: Seq<char>,
    ) -> Seq<char> {
        let ty = match self.ty {
            Some(t) => t@,
            None => field_ty,
        };
        let access_style = match self.converter.style {
            Some(s) => s,
            None => style,
        };
        getter_text(
            vis,
            fn_name,
            opt_text(self.bound.bound),
            style,
            ty,
            access_text(access_style, self.converter.func, field_name),
        )
    }

    pub fn to_getter_fn(&self, field_name: &str, field_ty: &str, style: Style, vis: &str, fn_name: &str) -> (r:
        String)
        ensures
            r@ == self.getter_fn_text(field_name@, field_ty@, style, vis@, fn_name@),
    {
        let ty = match &self.ty {
            Some(t) => t.as_str(),
            None => field_ty,
        };
        let access_style = match self.converter.style {
            Some(s) => s,
            None => style,
        };
        let body = access(access_style, &self.converter.func, field_name);
        getter(vis, fn_name, &self.bound.bound, style, ty, body.as_str())
    }
}

/// A getter to generate, with everything resolved.
#[derive(Clone, Debug, PartialEq, Eq)]
pub struct FieldGetter {
    pub field_name: String,
    pub field_ty: String,
    pub style: Style,
    pub vis: String,
    pub fn_name: String,
    pub converter: Option<GetterConverter>,
}

impl FieldGetter {
    /// The text of the getter: with a converter, the converter's getter
    /// (see `GetterConverter::getter_fn_text`); without one, `&self`
    /// returning the field by reference or by value.
    pub open spec fn text(self) -> Seq<char> {
        match self.converter {
            Some(c) => c.getter_fn_text(self.field_name@, self.field_ty@, self.style, self.vis@, self.fn_name@),
            None => "#[inline] "@ + self.vis@ + " fn "@ + self.fn_name@ + "(&self) -> "@
                + self.style.token_spec() + " "@ + self.field_ty@ + " { "@ + self.style.token_spec()
                + " self."@ + self.field_name@ + " }"@,
        }
    }

    pub fn to_tokens(&self) -> (r: String)
        ensures
            r@ == self.text(),
    {
        match &self.converter {
            Some(c) => c.to_getter_fn(
                self.field_name.as_str(),
                self.field_ty.as_str(),
                self.style,
                self.vis.as_str(),
                self.fn_name.as_str(),
            ),
            None => {
                let tok = self.style.token();
                let mut r = String::new();
                r.append("#[inline] ");
                r.append(self.vis.as_str());
                r.append(" fn ");
                r.append(self.fn_name.as_str());
                r.append("(&self) -> ");
                r.append(tok);
                r.append(" ");
                r.append(self.field_ty.as_str());
                r.append(" { ");
                r.append(tok);
                r.append(" self.");
                r.append(self.field_name.as_str());
                r.append(" }");
                r
            },
        }
    }
}

} // verus!
