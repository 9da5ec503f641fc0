use vstd::prelude::*;
use crate::generics::FnGenerics;
use crate::getter::{FieldConverter, FieldGetter, FieldGetterOptions, GetterConverter, StructGetterOptions};
use crate::setter::{FieldSetter, FieldSetterOptions, StructSetterOptions};
use crate::style::{SetterStyle, Style};

verus! {

/// A named field of the input struct, as token text.
#[derive(Clone, Debug, PartialEq, Eq)]
pub struct Field {
    pub name: String,
    pub ty: String,
    pub vis: String,
    /// The field's attributes, each by its path's identifier where the path
    /// is a single identifier.
    pub attrs: Vec<Option<String>>,
}

/// The options attached to one field.
#[derive(Clone, Debug, PartialEq, Eq, Default)]
pub struct FieldOptions {
    /// The field's own visibility in the rewritten struct.
    pub vis: Option<String>,
    pub getter: FieldGetterOptions,
    pub setter: FieldSetterOptions,
}

/// A field together with its options.
#[derive(Clone, Debug, PartialEq, Eq)]
pub struct ViewField {
    pub field: Field,
    pub options: FieldOptions,
}

/// The options attached to the struct.
#[derive(Clone, Debug, PartialEq, Eq)]
pub struct ViewIt {
    /// The visibility given to every field and accessor without one of its own.
    pub vis_all: Option<String>,
    pub setter: StructSetterOptions,
    pub getter: StructGetterOptions,
    pub debug: Option<crate::debug::Debug>,
}

pub open spec fn or_text(o: Option<String>, d: Seq<char>) -> Seq<char> {
    match o {
        Some(s) => s@,
        None => d,
    }
}

/// An attribute stays on the field unless its path is `viewit`, the
/// attribute that these options are read from.
pub open spec fn keeps_attr(a: Option<String>) -> bool {
    !(a matches Some(i) && i@ == "viewit"@)
}

/// The attributes that stay on a field, in their order.
pub open spec fn kept_attrs(s: Seq<Option<String>>) -> Seq<Option<String>>
    decreases s.len(),
{
    if s.len() == 0 {
        Seq::empty()
    } else if keeps_attr(s.last()) {
        kept_attrs(s.drop_last()).push(s.last())
    } else {
        kept_attrs(s.drop_last())
    }
}

/// Whether an attribute, by its path's identifier, stays on the field.
pub fn keeps_attribute(ident: &Option<String>) -> (r: bool)
    ensures
        r == keeps_attr(*ident),
{
    match ident {
        Some(i) => !crate::text::str_eq(i.as_str(), "viewit"),
        None => true,
    }
}

/// The getter of a field is skipped where the struct or the field says so.
pub open spec fn getter_skipped(vt: ViewIt, o: FieldOptions) -> bool {
    vt.getter.ignore || o.getter.ignore
}

pub open spec fn setter_skipped(vt: ViewIt, o: FieldOptions) -> bool {
    vt.setter.ignore || o.setter.ignore
}

/// The getter of field `f`: the field's own options first, then the
/// struct's getter options, then the struct-wide visibility, then the field.
pub open spec fn getter_resolves(vt: ViewIt, f: Field, o: FieldOptions, g: FieldGetter) -> bool {
    &&& g.field_name@ == f.name@
    &&& g.field_ty@ == f.ty@
    &&& g.style == match o.getter.style {
        Some(s) => s,
        None => vt.getter.style,
    }
    &&& g.vis@ == or_text(o.getter.vis, or_text(vt.getter.vis_all, or_text(vt.vis_all, f.vis@)))
    &&& g.fn_name@ == match o.getter.rename {
        Some(r) => r@,
        None => match vt.getter.prefix {
            Some(p) => p@ + "_"@ + f.name@,
            None => f.name@,
        },
    }
    &&& g.converter == o.getter.result
}

/// The setter of field `f`, resolved as the getter is; its name is the
/// prefix (`set` by default) and the field's name.
pub open spec fn setter_resolves(vt: ViewIt, f: Field, o: FieldOptions, s: FieldSetter) -> bool {
    &&& s.field_name@ == f.name@
    &&& s.field_ty@ == f.ty@
    &&& s.style == match o.setter.style {
        Some(st) => st,
        None => vt.setter.style,
    }
    &&& s.vis@ == or_text(o.setter.vis, or_text(vt.setter.vis_all, or_text(vt.vis_all, f.vis@)))
    &&& s.fn_name@ == match o.setter.rename {
        Some(r) => r@,
        None => or_text(vt.setter.prefix, "set"@) + "_"@ + f.name@,
    }
    &&& s.bound == o.setter.bound.bound
}

/// The visibility of a field in the rewritten struct: the field's own
/// option first, then the struct-wide visibility, then the field's own.
pub open spec fn field_vis(vt: ViewIt, f: Field, o: FieldOptions) -> Seq<char> {
    or_text(o.vis, or_text(vt.vis_all, f.vis@))
}

fn copy_text(o: &Option<String>) -> (r: Option<String>)
    ensures
        r == *o,
{
    match o {
        Some(s) => Some(s.clone()),
        None => None,
    }
}

fn copy_converter(c: &GetterConverter) -> (r: GetterConverter)
    ensures
        r == *c,
{
    GetterConverter {
        ty: copy_text(&c.ty),
        converter: FieldConverter { style: c.converter.style, func: copy_text(&c.converter.func) },
        bound: FnGenerics { bound: copy_text(&c.bound.bound) },
    }
}

fn kept_attributes(attrs: &Vec<Option<String>>) -> (r: Vec<Option<String>>)
    ensures
        r@ == kept_attrs(attrs@),
{
    let mut r: Vec<Option<String>> = Vec::new();
    let mut i: usize = 0;
    while i < attrs.len()
        invariant
            i <= attrs@.len(),
            r@ == kept_attrs(attrs@.subrange(0, i as int)),
        decreases attrs@.len() - i,
    {
        assert(attrs@.subrange(0, i + 1).drop_last() == attrs@.subrange(0, i as int));
        assert(attrs@.subrange(0, i + 1).last() == attrs@[i as int]);
        if keeps_attribute(&attrs[i]) {
            r.push(copy_text(&attrs[i]));
        }
        i = i + 1;
    }
    assert(attrs@.subrange(0, i as int) == attrs@);
    r
}

fn pick<'a>(o: &'a Option<String>, d: &'a String) -> (r: &'a String)
    ensures
        r@ == or_text(*o, d@),
{
    match o {
        Some(s) => s,
        None => d,
    }
}

fn joined(a: &String, b: &String) -> (r: String)
    ensures
        r@ == a@ + "_"@ + b@,
{
    let mut r = a.clone();
    r.append("_");
    r.append(b.as_str());
    r
}

impl ViewIt {
    /// The getter of one field, or `None` where it is skipped.
    pub fn getter_of(&self, f: &Field, o: &FieldOptions) -> (r: Option<FieldGetter>)
        ensures
            r is None <==> getter_skipped(*self, *o),
            r matches Some(g) ==> getter_resolves(*self, *f, *o, g),
    {
        if self.getter.ignore || o.getter.ignore {
            return None;
        }
        let vis = pick(&o.getter.vis, pick(&self.getter.vis_all, pick(&self.vis_all, &f.vis)));
        let fn_name = match &o.getter.rename {
            Some(r) => r.clone(),
            None => match &self.getter.prefix {
                Some(p) => joined(p, &f.name),
                None => f.name.clone(),
            },
        };
        let style = match o.getter.style {
            Some(s) => s,
            None => self.getter.style,
        };
        let converter = match &o.getter.result {
            Some(c) => Some(copy_converter(c)),
            None => None,
        };
        Some(
            FieldGetter {
                field_name: f.name.clone(),
                field_ty: f.ty.clone(),
                style,
                vis: vis.clone(),
                fn_name,
                converter,
            },
        )
    }

    /// The setter of one field, or `None` where it is skipped.
    pub fn setter_of(&self, f: &Field, o: &FieldOptions) -> (r: Option<FieldSetter>)
        ensures
            r is None <==> setter_skipped(*self, *o),
            r matches Some(s) ==> setter_resolves(*self, *f, *o, s),
    {
        if self.setter.ignore || o.setter.ignore {
            return None;
        }
        let vis = pick(&o.setter.vis, pick(&self.setter.vis_all, pick(&self.vis_all, &f.vis)));
        let fn_name = match &o.setter.rename {
            Some(r) => r.clone(),
            None => match &self.setter.prefix {
                Some(p) => joined(p, &f.name),
                None => joined(&crate::text::owned("set"), &f.name),
            },
        };
        let style: SetterStyle = match o.setter.style {
            Some(s) => s,
            None => self.setter.style,
        };
        Some(
            FieldSetter {
                vis: vis.clone(),
                bound: copy_text(&o.setter.bound.bound),
                field_name: f.name.clone(),
                field_ty: f.ty.clone(),
                fn_name,
                style,
            },
        )
    }

    /// Gives the struct-wide visibility `vis` where none was set.
    pub fn default_vis_all(&mut self, vis: &str)
        ensures
            final(self).setter == old(self).setter,
            final(self).getter == old(self).getter,
            final(self).debug == old(self).debug,
            old(self).vis_all is Some ==> final(self).vis_all == old(self).vis_all,
            old(self).vis_all is None ==> (final(self).vis_all matches Some(v) && v@ == vis@),
    {
        if self.vis_all.is_none() {
            self.vis_all = Some(crate::text::owned(vis));
        }
    }

    /// The visibility of a field in the rewritten struct.
    pub fn vis_of(&self, f: &Field, o: &FieldOptions) -> (r: String)
        ensures
            r@ == field_vis(*self, *f, *o),
    {
        pick(&o.vis, pick(&self.vis_all, &f.vis)).clone()
    }
}

/// The positions of the fields of `fs` that get a getter, in order.
pub open spec fn getter_positions(vt: ViewIt, fs: Seq<ViewField>) -> Seq<int>
    decreases fs.len(),
{
    if fs.len() == 0 {
        Seq::empty()
    } else {
        let rest = getter_positions(vt, fs.drop_last());
        if getter_skipped(vt, fs.last().options) {
            rest
        } else {
            rest.push(fs.len() - 1)
        }
    }
}

/// The positions of the fields of `fs` that get a setter, in order.
pub open spec fn setter_positions(vt: ViewIt, fs: Seq<ViewField>) -> Seq<int>
    decreases fs.len(),
{
    if fs.len() == 0 {
        Seq::empty()
    } else {
        let rest = setter_positions(vt, fs.drop_last());
        if setter_skipped(vt, fs.last().options) {
            rest
        } else {
            rest.push(fs.len() - 1)
        }
    }
}

/// `gs` are the getters of the first `n` fields of `fs`, in order.
pub open spec fn getters_of_prefix(vt: ViewIt, fs: Seq<ViewField>, n: int, gs: Seq<FieldGetter>) -> bool {
    &&& gs.len() == getter_positions(vt, fs.subrange(0, n)).len()
    &&& forall|j: int|
        0 <= j < gs.len() ==> 0 <= #[trigger] getter_positions(vt, fs.subrange(0, n))[j] < n
            && getter_resolves(
            vt,
            fs[getter_positions(vt, fs.subrange(0, n))[j]].field,
            fs[getter_positions(vt, fs.subrange(0, n))[j]].options,
            gs[j],
        )
}

/// `ss` are the setters of the first `n` fields of `fs`, in order.
pub open spec fn setters_of_prefix(vt: ViewIt, fs: Seq<ViewField>, n: int, ss: Seq<FieldSetter>) -> bool {
    &&& ss.len() == setter_positions(vt, fs.subrange(0, n)).len()
    &&& forall|j: int|
        0 <= j < ss.len() ==> 0 <= #[trigger] setter_positions(vt, fs.subrange(0, n))[j] < n
            && setter_resolves(
            vt,
            fs[setter_positions(vt, fs.subrange(0, n))[j]].field,
            fs[setter_positions(vt, fs.subrange(0, n))[j]].options,
            ss[j],
        )
}

/// Resolves the accessors of every field, in field order, and the fields
/// as they stand in the rewritten struct: each keeps its name, its type and
/// its attributes but `viewit`, and takes the resolved visibility.
pub fn handle_fields(viewit: &ViewIt, fields: &Vec<ViewField>) -> (r: (Vec<Field>, Vec<FieldGetter>, Vec<FieldSetter>))
    ensures
        r.0@.len() == fields@.len(),
        forall|i: int|
            0 <= i < fields@.len() ==> {
                &&& (#[trigger] r.0@[i]).name@ == fields@[i].field.name@
                &&& r.0@[i].ty@ == fields@[i].field.ty@
                &&& r.0@[i].vis@ == field_vis(*viewit, fields@[i].field, fields@[i].options)
                &&& r.0@[i].attrs@ == kept_attrs(fields@[i].field.attrs@)
            },
        getters_of_prefix(*viewit, fields@, fields@.len() as int, r.1@),
        setters_of_prefix(*viewit, fields@, fields@.len() as int, r.2@),
{
    let mut struct_fields: Vec<Field> = Vec::new();
    let mut getters: Vec<FieldGetter> = Vec::new();
    let mut setters: Vec<FieldSetter> = Vec::new();
    let mut i: usize = 0;
    while i < fields.len()
        invariant
            i <= fields@.len(),
            struct_fields@.len() == i,
            forall|m: int|
                0 <= m < i ==> {
                    &&& (#[trigger] struct_fields@[m]).name@ == fields@[m].field.name@
                    &&& struct_fields@[m].ty@ == fields@[m].field.ty@
                    &&& struct_fields@[m].vis@ == field_vis(*viewit, fields@[m].field, fields@[m].options)
                    &&& struct_fields@[m].attrs@ == kept_attrs(fields@[m].field.attrs@)
                },
            getters_of_prefix(*viewit, fields@, i as int, getters@),
            setters_of_prefix(*viewit, fields@, i as int, setters@),
        decreases fields@.len() - i,
    {
        let vf = &fields[i];
        let ghost pre = fields@.subrange(0, i as int);
        let ghost next = fields@.subrange(0, i + 1);
        assert(next.drop_last() == pre);
        assert(next.last() == fields@[i as int]);
        let ghost gpre = getter_positions(*viewit, pre);
        let ghost spre = setter_positions(*viewit, pre);
        let ghost old_getters = getters@;
        let ghost old_setters = setters@;
        match viewit.getter_of(&vf.field, &vf.options) {
            Some(g) => {
                getters.push(g);
                assert(getter_positions(*viewit, next) == gpre.push(i as int));
                assert forall|j: int| 0 <= j < getters@.len() implies 0 <= #[trigger] getter_positions(*viewit, next)[j]
                    < i + 1 && getter_resolves(
                    *viewit,
                    fields@[getter_positions(*viewit, next)[j]].field,
                    fields@[getter_positions(*viewit, next)[j]].options,
                    getters@[j],
                ) by {
                    if j < old_getters.len() {
                        assert(getters@[j] == old_getters[j]);
                        assert(getter_positions(*viewit, next)[j] == gpre[j]);
                    }
                }
            },
            None => {
                assert(getter_positions(*viewit, next) == gpre);
            },
        }
        match viewit.setter_of(&vf.field, &vf.options) {
            Some(s) => {
                setters.push(s);
                assert(setter_positions(*viewit, next) == spre.push(i as int));
                assert forall|j: int| 0 <= j < setters@.len() implies 0 <= #[trigger] setter_positions(*viewit, next)[j]
                    < i + 1 && setter_resolves(
                    *viewit,
                    fields@[setter_positions(*viewit, next)[j]].field,
                    fields@[setter_positions(*viewit, next)[j]].options,
                    setters@[j],
                ) by {
                    if j < old_setters.len() {
                        assert(setters@[j] == old_setters[j]);
                        assert(setter_positions(*viewit, next)[j] == spre[j]);
                    }
                }
            },
            None => {
                assert(setter_positions(*viewit, next) == spre);
            },
        }
        let vis = viewit.vis_of(&vf.field, &vf.options);
        let attrs = kept_attributes(&vf.field.attrs);
        struct_fields.push(Field { name: vf.field.name.clone(), ty: vf.field.ty.clone(), vis, attrs });
        i = i + 1;
    }
    (struct_fields, getters, setters)
}

/// The texts of the first `n` getters, each followed by a space.
pub open spec fn getters_text(gs: Seq<FieldGetter>, n: int) -> Seq<char>
    decreases n,
{
    if n <= 0 {
        Seq::empty()
    } else {
        getters_text(gs, n - 1) + gs[n - 1].text() + " "@
    }
}

/// The texts of the first `n` setters, each followed by a space.
pub open spec fn setters_text(ss: Seq<FieldSetter>, n: int) -> Seq<char>
    decreases n,
{
    if n <= 0 {
        Seq::empty()
    } else {
        setters_text(ss, n - 1) + ss[n - 1].text() + " "@
    }
}

/// The body of the accessors' `impl` block: every getter, then every setter.
pub fn accessors_text(getters: &Vec<FieldGetter>, setters: &Vec<FieldSetter>) -> (r: String)
    ensures
        r@ == getters_text(getters@, getters@.len() as int) + setters_text(setters@, setters@.len() as int),
{
    let mut g = String::new();
    let mut i: usize = 0;
    while i < getters.len()
        invariant
            i <= getters@.len(),
            g@ == getters_text(getters@, i as int),
        decreases getters@.len() - i,
    {
        g.append(getters[i].to_tokens().as_str());
        g.append(" ");
        i = i + 1;
    }
    let mut s = String::new();
    let mut j: usize = 0;
    while j < setters.len()
        invariant
            j <= setters@.len(),
            s@ == setters_text(setters@, j as int),
        decreases setters@.len() - j,
    {
        s.append(setters[j].to_tokens().as_str());
        s.append(" ");
        j = j + 1;
    }
    g.append(s.as_str());
    g
}

} // verus!
