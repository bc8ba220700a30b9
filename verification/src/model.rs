//! The variant definition model: what one schema variant resolves to,
//! and the resolution of raw attribute declarations into display text
//! and style directives.
//!
//! Resolution walks a variant's attributes in declaration order. A
//! `display = "..."` declaration overrides the display text, and when
//! several appear the last one wins. A `style(a, b, ...)` declaration
//! appends its resolved styles, in order, to the variant's directives.
//! The first failing attribute rejects the variant.

use vstd::prelude::*;

use crate::schema::ErrorModel;
use crate::schema::RawAttrModel;
use crate::schema::RawDecl;
use crate::schema::RawDeclModel;
use crate::schema::RawValue;
use crate::schema::RawValueModel;
use crate::schema::RawVariant;
use crate::schema::RawVariantModel;
use crate::schema::CompileError;
use crate::style::Style;
use crate::style::spec_style_of_name;
use crate::text::str_eq;

verus! {

/// One compiled variant: its identifier, the display text shown for
/// it, and its resolved style directives in declaration order.
pub struct VariantDef {
    pub identifier: String,
    pub display_text: String,
    pub styles: Vec<Style>,
}

/// Mathematical model of a [`VariantDef`].
pub struct VariantModel {
    pub identifier: Seq<char>,
    pub display: Seq<char>,
    pub styles: Seq<Style>,
}

impl View for VariantDef {
    type V = VariantModel;

    open spec fn view(&self) -> VariantModel {
        VariantModel {
            identifier: self.identifier@,
            display: self.display_text@,
            styles: self.styles@,
        }
    }
}

/// Resolves a list of style names through the style table; the result
/// is the styles in the order of the names, or the first name that the
/// table does not know.
pub open spec fn resolve_names(names: Seq<Seq<char>>) -> Result<Seq<Style>, Seq<char>>
    decreases names.len(),
{
    if names.len() == 0 {
        Ok(Seq::empty())
    } else {
        match resolve_names(names.drop_last()) {
            Err(n) => Err(n),
            Ok(pre) => match spec_style_of_name(names.last()) {
                None => Err(names.last()),
                Some(s) => Ok(pre.push(s)),
            },
        }
    }
}

/// Once a prefix of the name list fails to resolve, the whole list
/// fails with the same name.
pub proof fn lemma_resolve_names_prefix_err(names: Seq<Seq<char>>, k: int)
    requires
        0 <= k <= names.len(),
        resolve_names(names.take(k)) is Err,
    ensures
        resolve_names(names) == resolve_names(names.take(k)),
    decreases names.len() - k,
{
    if k == names.len() {
        assert(names.take(k) =~= names);
    } else {
        assert(names.take(k + 1).drop_last() =~= names.take(k));
        lemma_resolve_names_prefix_err(names, k + 1);
    }
}

/// Applies one raw attribute declaration to a variant's intermediate
/// state `(display, styles)`.
pub open spec fn apply_attr(
    id: Seq<char>,
    st: (Seq<char>, Seq<Style>),
    a: RawAttrModel,
) -> Result<(Seq<char>, Seq<Style>), ErrorModel> {
    if a.inner {
        Err(ErrorModel::MisplacedAttribute { variant: id })
    } else {
        match a.decl {
            RawDeclModel::KeyValue { key, value } => if key == "display"@ {
                match value {
                    RawValueModel::Str(s) => Ok((s, st.1)),
                    RawValueModel::Other => Err(ErrorModel::MalformedAttribute { variant: id }),
                }
            } else {
                Err(ErrorModel::MalformedAttribute { variant: id })
            },
            RawDeclModel::KeyList { key, names } => if key == "style"@ {
                match resolve_names(names) {
                    Ok(ss) => Ok((st.0, st.1 + ss)),
                    Err(n) => Err(ErrorModel::UnknownStyleName { variant: id, name: n }),
                }
            } else {
                Err(ErrorModel::MalformedAttribute { variant: id })
            },
            RawDeclModel::Other => Err(ErrorModel::MalformedAttribute { variant: id }),
        }
    }
}

/// Folds a variant's raw attributes, in declaration order, over the
/// state that starts as `(identifier, empty)`: the display text
/// defaults to the identifier's literal spelling.
pub open spec fn resolve_attrs(
    id: Seq<char>,
    attrs: Seq<RawAttrModel>,
) -> Result<(Seq<char>, Seq<Style>), ErrorModel>
    decreases attrs.len(),
{
    if attrs.len() == 0 {
        Ok((id, Seq::empty()))
    } else {
        match resolve_attrs(id, attrs.drop_last()) {
            Err(e) => Err(e),
            Ok(st) => apply_attr(id, st, attrs.last()),
        }
    }
}

/// Once a prefix of the attribute list fails, the whole list fails
/// with the same error.
pub proof fn lemma_resolve_attrs_prefix_err(id: Seq<char>, attrs: Seq<RawAttrModel>, k: int)
    requires
        0 <= k <= attrs.len(),
        resolve_attrs(id, attrs.take(k)) is Err,
    ensures
        resolve_attrs(id, attrs) == resolve_attrs(id, attrs.take(k)),
    decreases attrs.len() - k,
{
    if k == attrs.len() {
        assert(attrs.take(k) =~= attrs);
    } else {
        assert(attrs.take(k + 1).drop_last() =~= attrs.take(k));
        lemma_resolve_attrs_prefix_err(id, attrs, k + 1);
    }
}

/// What one raw variant compiles to, or the error that rejects it.
pub open spec fn spec_resolve_variant(v: RawVariantModel) -> Result<VariantModel, ErrorModel> {
    match resolve_attrs(v.identifier, v.attrs) {
        Err(e) => Err(e),
        Ok(st) => Ok(VariantModel { identifier: v.identifier, display: st.0, styles: st.1 }),
    }
}

impl VariantDef {
    /// Resolves one raw variant into its variant definition.
    #[verifier::loop_isolation(false)]
    pub fn resolve(v: &RawVariant) -> (r: Result<VariantDef, CompileError>)
        ensures
            match r {
                Ok(d) => spec_resolve_variant(v@) == Ok::<VariantModel, ErrorModel>(d@),
                Err(e) => spec_resolve_variant(v@) == Err::<VariantModel, ErrorModel>(e@),
            },
    {
        let mut display: String = v.identifier.clone();
        let mut styles: Vec<Style> = Vec::new();
        let mut j: usize = 0;
        while j < v.attrs.len()
            invariant
                j <= v.attrs.len(),
                resolve_attrs(v@.identifier, v@.attrs.take(j as int)) == Ok::<
                    (Seq<char>, Seq<Style>),
                    ErrorModel,
                >((display@, styles@)),
            decreases v.attrs.len() - j,
        {
            let attr = &v.attrs[j];
            proof {
                assert(v@.attrs.take(j as int + 1).drop_last() =~= v@.attrs.take(j as int));
                assert(v@.attrs.take(j as int + 1).last() == v@.attrs[j as int]);
                assert(v@.attrs[j as int] == attr@);
            }
            if attr.inner {
                proof {
                    lemma_resolve_attrs_prefix_err(v@.identifier, v@.attrs, j as int + 1);
                }
                return Err(CompileError::MisplacedAttribute { variant: v.identifier.clone() });
            }
            match &attr.decl {
                RawDecl::KeyValue { key, value } => {
                    if str_eq(key.as_str(), "display") {
                        match value {
                            RawValue::Str(s) => {
                                display = s.clone();
                            },
                            RawValue::Other => {
                                proof {
                                    lemma_resolve_attrs_prefix_err(
                                        v@.identifier,
                                        v@.attrs,
                                        j as int + 1,
                                    );
                                }
                                return Err(
                                    CompileError::MalformedAttribute {
                                        variant: v.identifier.clone(),
                                    },
                                );
                            },
                        }
                    } else {
                        proof {
                            lemma_resolve_attrs_prefix_err(v@.identifier, v@.attrs, j as int + 1);
                        }
                        return Err(
                            CompileError::MalformedAttribute { variant: v.identifier.clone() },
                        );
                    }
                },
                RawDecl::KeyList { key, names } => {
                    if str_eq(key.as_str(), "style") {
                        let ghost styles0 = styles@;
                        let ghost name_views = names@.map_values(|n: String| n@);
                        proof {
                            assert(resolve_attrs(v@.identifier, v@.attrs.take(j as int)) == Ok::<
                                (Seq<char>, Seq<Style>),
                                ErrorModel,
                            >((display@, styles0)));
                            assert(name_views.take(0) =~= Seq::<Seq<char>>::empty());
                            assert(styles@.skip(styles0.len() as int) =~= Seq::<Style>::empty());
                            assert(styles@.take(styles0.len() as int) =~= styles0);
                        }
                        let mut k: usize = 0;
                        while k < names.len()
                            invariant
                                k <= names.len(),
                                name_views == names@.map_values(|n: String| n@),
                                resolve_names(name_views.take(k as int)) == Ok::<
                                    Seq<Style>,
                                    Seq<char>,
                                >(styles@.skip(styles0.len() as int)),
                                styles@.take(styles0.len() as int) == styles0,
                                styles@.len() >= styles0.len(),
                            decreases names.len() - k,
                        {
                            proof {
                                assert(name_views.take(k as int + 1).drop_last() =~= name_views.take(
                                    k as int,
                                ));
                                assert(name_views.take(k as int + 1).last() == name_views[k as int]);
                                assert(name_views[k as int] == names@[k as int]@);
                            }
                            match Style::from_name(names[k].as_str()) {
                                Some(s) => {
                                    let ghost before = styles@;
                                    styles.push(s);
                                    proof {
                                        assert(styles@.skip(styles0.len() as int) =~= before.skip(
                                            styles0.len() as int,
                                        ).push(s));
                                        assert(styles@.take(styles0.len() as int) =~= before.take(
                                            styles0.len() as int,
                                        ));
                                    }
                                },
                                None => {
                                    proof {
                                        assert(resolve_names(name_views.take(k as int + 1))
                                            == Err::<Seq<Style>, Seq<char>>(name_views[k as int]));
                                        lemma_resolve_names_prefix_err(name_views, k as int + 1);
                                        assert(resolve_attrs(
                                            v@.identifier,
                                            v@.attrs.take(j as int + 1),
                                        ) is Err);
                                        lemma_resolve_attrs_prefix_err(
                                            v@.identifier,
                                            v@.attrs,
                                            j as int + 1,
                                        );
                                    }
                                    return Err(
                                        CompileError::UnknownStyleName {
                                            variant: v.identifier.clone(),
                                            name: names[k].clone(),
                                        },
                                    );
                                },
                            }
                            k += 1;
                        }
                        proof {
                            assert(name_views.take(names@.len() as int) =~= name_views);
                            assert(styles@ =~= styles0 + styles@.skip(styles0.len() as int));
                            assert(resolve_attrs(v@.identifier, v@.attrs.take(j as int + 1)) == Ok::<
                                (Seq<char>, Seq<Style>),
                                ErrorModel,
                            >((display@, styles@)));
                        }
                    } else {
                        proof {
                            lemma_resolve_attrs_prefix_err(v@.identifier, v@.attrs, j as int + 1);
                        }
                        return Err(
                            CompileError::MalformedAttribute { variant: v.identifier.clone() },
                        );
                    }
                },
                RawDecl::Other => {
                    proof {
                        lemma_resolve_attrs_prefix_err(v@.identifier, v@.attrs, j as int + 1);
                    }
                    return Err(CompileError::MalformedAttribute { variant: v.identifier.clone() });
                },
            }
            j += 1;
        }
        proof {
            assert(v@.attrs.take(v.attrs.len() as int) =~= v@.attrs);
        }
        Ok(
            VariantDef {
                identifier: v.identifier.clone(),
                display_text: display,
                styles,
            },
        )
    }
}

} // verus!
