use viewit::fields::{accessors_text, handle_fields, keeps_attribute, Field, FieldOptions, ViewField, ViewIt};
use viewit::generics::FnGenerics;
use viewit::getter::{FieldConverter, FieldGetter, FieldGetterOptions, GetterConverter, StructGetterOptions};
use viewit::setter::{drop_closing_bracket, FieldSetter, FieldSetterOptions, StructSetterOptions};
use viewit::style::{SetterStyle, Style};

fn s(x: &str) -> String {
    x.to_string()
}

#[test]
fn plain_getter_by_reference() {
    let g = FieldGetter {
        field_name: s("name"),
        field_ty: s("String"),
        style: Style::Ref,
        vis: s("pub"),
        fn_name: s("name"),
        converter: None,
    };
    assert_eq!(g.to_tokens(), "#[inline] pub fn name(&self) -> & String { & self.name }");
}

#[test]
fn plain_getter_by_value() {
    let g = FieldGetter {
        field_name: s("size"),
        field_ty: s("usize"),
        style: Style::Move,
        vis: s(""),
        fn_name: s("get_size"),
        converter: None,
    };
    assert_eq!(g.to_tokens(), "#[inline]  fn get_size(&self) ->  usize {  self.size }");
}

#[test]
fn converting_getter() {
    let c = GetterConverter {
        ty: Some(s("&str")),
        converter: FieldConverter { style: None, func: Some(s("String::as_str")) },
        bound: FnGenerics { bound: None },
    };
    let g = FieldGetter {
        field_name: s("name"),
        field_ty: s("String"),
        style: Style::Ref,
        vis: s("pub"),
        fn_name: s("name"),
        converter: Some(c.clone()),
    };
    let want = "#[inline] pub fn name  (&self) -> &str { String::as_str(&self.name) }";
    assert_eq!(g.to_tokens(), want);
    assert_eq!(c.to_getter_fn("name", "String", Style::Ref, "pub", "name"), want);
}

#[test]
fn converter_style_overrides_access() {
    let c = GetterConverter {
        ty: None,
        converter: FieldConverter { style: Some(Style::Move), func: None },
        bound: FnGenerics { bound: Some(s("< T >")) },
    };
    assert_eq!(
        c.to_getter_fn("n", "u8", Style::Ref, "pub", "n"),
        "#[inline] pub fn n < T > (&self) -> u8 { self.n }"
    );
}

#[test]
fn setters_in_each_style() {
    let text = |style: SetterStyle, bound: Option<String>| {
        FieldSetter {
            vis: s("pub"),
            bound,
            field_name: s("x"),
            field_ty: s("u8"),
            fn_name: s("set_x"),
            style,
        }
        .to_tokens()
    };
    assert_eq!(text(SetterStyle::Ref, None), "#[inline] pub fn set_x  (&mut self, val: u8) { self.x = val; }");
    assert_eq!(
        text(SetterStyle::Move, None),
        "#[inline] pub fn set_x  (mut self, val: u8) -> Self { self.x = val; self }"
    );
    assert_eq!(
        text(SetterStyle::Into, Some(s("< T >"))),
        "#[inline] pub fn set_x < T > (mut self, val: impl ::core::convert::Into<u8>) -> Self { self.x = ::core::convert::Into::into(val); self }"
    );
    assert_eq!(
        text(SetterStyle::TryInto, Some(s("< T : Clone >"))),
        "#[inline] pub fn set_x < T : Clone , Error> (mut self, val: impl ::core::convert::TryInto<u8, Error = Error>) -> ::core::result::Result<Self, Error> { self.x = ::core::convert::TryInto::try_into(val)?; ::core::result::Result::Ok(self) }"
    );
    assert!(text(SetterStyle::TryInto, None).starts_with("#[inline] pub fn set_x <Error> (mut self"));
    assert!(text(SetterStyle::TryInto, Some(s("<T: Into<Vec<u8>>>")))
        .starts_with("#[inline] pub fn set_x <T: Into<Vec<u8>>, Error> (mut self"));
}

#[test]
fn drops_one_closing_bracket() {
    assert_eq!(drop_closing_bracket("< T >>"), "< T >");
    assert_eq!(drop_closing_bracket(">>"), ">");
    assert_eq!(drop_closing_bracket("a"), "a");
    assert_eq!(drop_closing_bracket(""), "");
    assert_eq!(drop_closing_bracket("<T: Into<Vec<u8>>>"), "<T: Into<Vec<u8>>");
}

#[test]
fn default_struct_options() {
    let g = StructGetterOptions::default();
    assert_eq!(g.style, Style::Ref);
    assert!(g.prefix.is_none() && !g.ignore && g.vis_all.is_none());
    let st = StructSetterOptions::default();
    assert_eq!(st.prefix, Some(s("set")));
    assert_eq!(st.style, SetterStyle::Move);
}

fn field(name: &str, ty: &str, vis: &str) -> Field {
    Field { name: s(name), ty: s(ty), vis: s(vis), attrs: vec![] }
}

#[test]
fn resolves_fields_against_struct_options() {
    let vt = ViewIt {
        vis_all: Some(s("pub")),
        setter: StructSetterOptions::default(),
        getter: StructGetterOptions { prefix: Some(s("get")), ..StructGetterOptions::default() },
        debug: None,
    };
    let mut own = FieldOptions::default();
    own.getter.rename = Some(s("id"));
    own.getter.style = Some(Style::Move);
    own.setter.ignore = true;
    own.vis = Some(s("pub(crate)"));
    let mut hidden = FieldOptions::default();
    hidden.getter.ignore = true;
    hidden.getter.vis = Some(s("pub(super)"));
    hidden.setter.vis = Some(s("pub(super)"));
    hidden.setter.style = Some(SetterStyle::Into);
    let fields = vec![
        ViewField { field: field("key", "u64", ""), options: own },
        ViewField { field: field("name", "String", ""), options: hidden },
    ];
    let (out, getters, setters) = handle_fields(&vt, &fields);
    assert_eq!(out, vec![field("key", "u64", "pub(crate)"), field("name", "String", "pub")]);
    assert_eq!(
        getters,
        vec![FieldGetter {
            field_name: s("key"),
            field_ty: s("u64"),
            style: Style::Move,
            vis: s("pub"),
            fn_name: s("id"),
            converter: None,
        }]
    );
    assert_eq!(
        setters,
        vec![FieldSetter {
            vis: s("pub(super)"),
            bound: None,
            field_name: s("name"),
            field_ty: s("String"),
            fn_name: s("set_name"),
            style: SetterStyle::Into,
        }]
    );
}

#[test]
fn field_visibility_without_struct_wide_one() {
    let vt = ViewIt {
        vis_all: None,
        setter: StructSetterOptions { prefix: None, ..StructSetterOptions::default() },
        getter: StructGetterOptions { vis_all: Some(s("pub(crate)")), ..StructGetterOptions::default() },
        debug: None,
    };
    let mut o = FieldOptions::default();
    o.vis = Some(s("pub"));
    o.getter.result = Some(GetterConverter {
        ty: None,
        converter: FieldConverter::default(),
        bound: FnGenerics::default(),
    });
    o.setter.bound = FnGenerics { bound: Some(s("< T >")) };
    let fields = vec![ViewField { field: field("a", "u8", "pub(super)"), options: o }];
    let (out, getters, setters) = handle_fields(&vt, &fields);
    assert_eq!(out[0].vis, "pub");
    assert_eq!(getters[0].vis, "pub(crate)");
    assert_eq!(getters[0].fn_name, "a");
    assert!(getters[0].converter.is_some());
    assert_eq!(setters[0].vis, "pub(super)");
    assert_eq!(setters[0].fn_name, "set_a");
    assert_eq!(setters[0].bound, Some(s("< T >")));
}

#[test]
fn struct_wide_skip() {
    let vt = ViewIt {
        vis_all: None,
        setter: StructSetterOptions { ignore: true, ..StructSetterOptions::default() },
        getter: StructGetterOptions::default(),
        debug: None,
    };
    let fields = vec![
        ViewField { field: field("a", "u8", ""), options: FieldOptions::default() },
        ViewField { field: field("b", "u8", ""), options: FieldOptions { getter: FieldGetterOptions { ignore: true, ..Default::default() }, setter: FieldSetterOptions::default(), vis: None } },
    ];
    let (_, getters, setters) = handle_fields(&vt, &fields);
    assert_eq!(getters.len(), 1);
    assert_eq!(getters[0].field_name, "a");
    assert!(setters.is_empty());
}

#[test]
fn converter_style_decides_access_of_field_getter() {
    let c = GetterConverter {
        ty: Some(s("u16")),
        converter: FieldConverter { style: Some(Style::Move), func: Some(s("u16::from")) },
        bound: FnGenerics { bound: None },
    };
    let g = FieldGetter {
        field_name: s("n"),
        field_ty: s("u8"),
        style: Style::Ref,
        vis: s("pub"),
        fn_name: s("n"),
        converter: Some(c.clone()),
    };
    let want = "#[inline] pub fn n  (&self) -> u16 { u16::from(self.n) }";
    assert_eq!(g.to_tokens(), want);
    assert_eq!(c.to_getter_fn("n", "u8", Style::Ref, "pub", "n"), want);
}

#[test]
fn accessors_getters_then_setters() {
    let g = FieldGetter {
        field_name: s("a"),
        field_ty: s("u8"),
        style: Style::Ref,
        vis: s("pub"),
        fn_name: s("a"),
        converter: None,
    };
    let st = FieldSetter {
        vis: s("pub"),
        bound: None,
        field_name: s("a"),
        field_ty: s("u8"),
        fn_name: s("set_a"),
        style: SetterStyle::Ref,
    };
    let text = accessors_text(&vec![g.clone()], &vec![st.clone()]);
    assert_eq!(text, format!("{} {} ", g.to_tokens(), st.to_tokens()));
    assert_eq!(accessors_text(&vec![], &vec![]), "");
}

#[test]
fn struct_wide_visibility_defaults_once() {
    let mut vt = ViewIt {
        vis_all: None,
        setter: StructSetterOptions::default(),
        getter: StructGetterOptions::default(),
        debug: None,
    };
    vt.default_vis_all("pub");
    assert_eq!(vt.vis_all, Some(s("pub")));
    vt.default_vis_all("pub(crate)");
    assert_eq!(vt.vis_all, Some(s("pub")));
}

#[test]
fn viewit_attributes_are_removed() {
    assert!(!keeps_attribute(&Some(s("viewit"))));
    assert!(keeps_attribute(&Some(s("serde"))));
    assert!(keeps_attribute(&None));
    let vt = ViewIt {
        vis_all: None,
        setter: StructSetterOptions::default(),
        getter: StructGetterOptions::default(),
        debug: None,
    };
    let mut f = field("a", "u8", "");
    f.attrs = vec![Some(s("doc")), Some(s("viewit")), None, Some(s("serde")), Some(s("viewit"))];
    let (out, _, _) = handle_fields(&vt, &vec![ViewField { field: f, options: FieldOptions::default() }]);
    assert_eq!(out[0].attrs, vec![Some(s("doc")), None, Some(s("serde"))]);
}
