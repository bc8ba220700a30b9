//! Schema compilation: the single pass that resolves every variant,
//! rejects duplicate identifiers, computes the shared alignment
//! column as the maximum visible width, and the compiled formatter
//! that renders labels on demand.

use vstd::prelude::*;

use crate::model::VariantDef;
use crate::model::VariantModel;
use crate::model::spec_resolve_variant;
use crate::render::render;
use crate::render::spec_render;
use crate::schema::CompileError;
use crate::schema::ErrorModel;
use crate::schema::RawVariant;
use crate::schema::RawVariantModel;
use crate::text::str_eq;
use crate::text::visible_width;

verus! {

/// Mathematical model of a [`StatusFormat`]: the compiled variants in
/// declaration order and the shared alignment column.
#[verifier::ext_equal]
pub struct FormatModel {
    pub variants: Seq<VariantModel>,
    pub column: nat,
}

/// The views of a raw schema's variants, in declaration order.
pub open spec fn views(s: Seq<RawVariant>) -> Seq<RawVariantModel> {
    s.map_values(|v: RawVariant| v@)
}

/// The maximum visible width over a list of compiled variants; zero
/// for an empty list.
pub open spec fn max_width(vs: Seq<VariantModel>) -> nat
    decreases vs.len(),
{
    if vs.len() == 0 {
        0
    } else {
        let m = max_width(vs.drop_last());
        if vs.last().display.len() > m {
            vs.last().display.len()
        } else {
            m
        }
    }
}

/// What a raw schema compiles to, or the first error that rejects it.
/// Variants are processed in declaration order; a variant whose
/// identifier repeats an earlier one is rejected before its
/// attributes are looked at.
pub open spec fn spec_compile(s: Seq<RawVariantModel>) -> Result<FormatModel, ErrorModel>
    decreases s.len(),
{
    if s.len() == 0 {
        Ok(FormatModel { variants: Seq::empty(), column: 0 })
    } else {
        match spec_compile(s.drop_last()) {
            Err(e) => Err(e),
            Ok(m) => {
                if exists|j: int| 0 <= j < s.len() - 1 && s[j].identifier == s.last().identifier {
                    Err(ErrorModel::DuplicateIdentifier { identifier: s.last().identifier })
                } else {
                    match spec_resolve_variant(s.last()) {
                        Err(e) => Err(e),
                        Ok(vm) => Ok(
                            FormatModel {
                                variants: m.variants.push(vm),
                                column: if vm.display.len() > m.column {
                                    vm.display.len()
                                } else {
                                    m.column
                                },
                            },
                        ),
                    }
                }
            },
        }
    }
}

/// A compiled formatter is well formed when no variant's visible
/// width exceeds the shared alignment column.
pub open spec fn wf_model(m: FormatModel) -> bool {
    forall|i: int|
        0 <= i < m.variants.len() ==> #[trigger] m.variants[i].display.len() <= m.column
}

/// A compiled schema's column bounds every variant's visible width.
pub proof fn lemma_compile_ok_wf(s: Seq<RawVariantModel>)
    requires
        spec_compile(s) is Ok,
    ensures
        spec_compile(s) matches Ok(m) ==> wf_model(m),
    decreases s.len(),
{
    if s.len() > 0 {
        lemma_compile_ok_wf(s.drop_last());
    }
}

/// A compiled schema's column is exactly the maximum visible width of
/// its variants.
pub proof fn lemma_compile_ok_column(s: Seq<RawVariantModel>)
    requires
        spec_compile(s) is Ok,
    ensures
        spec_compile(s) matches Ok(m) ==> m.column == max_width(m.variants),
    decreases s.len(),
{
    if s.len() > 0 {
        lemma_compile_ok_column(s.drop_last());
        let m = spec_compile(s)->Ok_0;
        assert(m.variants.drop_last() =~= spec_compile(s.drop_last())->Ok_0.variants);
    }
}

/// The maximum width is a pure maximum: it bounds every variant's
/// visible width, and some variant attains it whenever there is one.
/// Alignment therefore does not depend on declaration order.
pub proof fn lemma_max_width_is_max(vs: Seq<VariantModel>)
    ensures
        forall|i: int| 0 <= i < vs.len() ==> #[trigger] vs[i].display.len() <= max_width(vs),
        vs.len() > 0 ==> exists|i: int|
            0 <= i < vs.len() && vs[i].display.len() == max_width(vs),
    decreases vs.len(),
{
    if vs.len() > 0 {
        lemma_max_width_is_max(vs.drop_last());
        if vs.last().display.len() >= max_width(vs.drop_last()) {
            assert(vs[vs.len() - 1].display.len() == max_width(vs));
        } else {
            let i0 = choose|i: int|
                0 <= i < vs.drop_last().len() && vs.drop_last()[i].display.len() == max_width(
                    vs.drop_last(),
                );
            assert(vs[i0].display.len() == max_width(vs));
        }
        assert forall|i: int| 0 <= i < vs.len() implies #[trigger] vs[i].display.len()
            <= max_width(vs) by {
            if i < vs.len() - 1 {
                assert(vs.drop_last()[i] == vs[i]);
            }
        }
    }
}

/// A compiled schema has one variant per raw variant, in declaration
/// order, each keeping its raw identifier.
pub proof fn lemma_compile_ok_identifiers(s: Seq<RawVariantModel>)
    requires
        spec_compile(s) is Ok,
    ensures
        spec_compile(s)->Ok_0.variants.len() == s.len(),
        forall|i: int|
            0 <= i < s.len() ==> #[trigger] spec_compile(s)->Ok_0.variants[i].identifier
                == s[i].identifier,
    decreases s.len(),
{
    if s.len() > 0 {
        lemma_compile_ok_identifiers(s.drop_last());
    }
}

/// A compiled schema's variant identifiers are pairwise distinct.
pub proof fn lemma_compile_ok_unique(s: Seq<RawVariantModel>, i: int, j: int)
    requires
        spec_compile(s) is Ok,
        0 <= i < j < spec_compile(s)->Ok_0.variants.len(),
    ensures
        spec_compile(s)->Ok_0.variants[i].identifier != spec_compile(
            s,
        )->Ok_0.variants[j].identifier,
    decreases s.len(),
{
    lemma_compile_ok_identifiers(s);
    if j < s.len() - 1 {
        lemma_compile_ok_identifiers(s.drop_last());
        lemma_compile_ok_unique(s.drop_last(), i, j);
    }
}

/// Once a prefix of the schema fails to compile, the whole schema
/// fails with the same error.
pub proof fn lemma_compile_prefix_err(s: Seq<RawVariantModel>, k: int)
    requires
        0 <= k <= s.len(),
        spec_compile(s.take(k)) is Err,
    ensures
        spec_compile(s) == spec_compile(s.take(k)),
    decreases s.len() - k,
{
    if k == s.len() {
        assert(s.take(k) =~= s);
    } else {
        assert(s.take(k + 1).drop_last() =~= s.take(k));
        lemma_compile_prefix_err(s, k + 1);
    }
}

/// The variant with the given identifier, scanning in declaration
/// order.
pub open spec fn find_variant(vs: Seq<VariantModel>, id: Seq<char>) -> Option<VariantModel>
    decreases vs.len(),
{
    if vs.len() == 0 {
        None
    } else if vs[0].identifier == id {
        Some(vs[0])
    } else {
        find_variant(vs.drop_first(), id)
    }
}

/// A compiled schema: the variant definitions in declaration order
/// and the shared alignment column they all right-align to.
pub struct StatusFormat {
    variants: Vec<VariantDef>,
    column: usize,
}

impl View for StatusFormat {
    type V = FormatModel;

    closed spec fn view(&self) -> FormatModel {
        FormatModel {
            variants: self.variants@.map_values(|d: VariantDef| d@),
            column: self.column as nat,
        }
    }
}

impl StatusFormat {
    /// A formatter is well formed when its model is.
    pub open spec fn wf(self) -> bool {
        wf_model(self@)
    }

    /// Compiles a raw schema: resolves every variant in declaration
    /// order and computes the shared alignment column.
    #[verifier::loop_isolation(false)]
    pub fn compile(schema: &Vec<RawVariant>) -> (r: Result<StatusFormat, CompileError>)
        ensures
            match r {
                Ok(f) => spec_compile(views(schema@)) == Ok::<FormatModel, ErrorModel>(f@)
                    && f.wf(),
                Err(e) => spec_compile(views(schema@)) == Err::<FormatModel, ErrorModel>(e@),
            },
    {
        let ghost raw = views(schema@);
        let mut defs: Vec<VariantDef> = Vec::new();
        let mut maxw: usize = 0;
        let mut i: usize = 0;
        proof {
            assert(raw.take(0) =~= Seq::<RawVariantModel>::empty());
            assert(defs@.map_values(|d: VariantDef| d@) =~= Seq::<VariantModel>::empty());
        }
        while i < schema.len()
            invariant
                i <= schema.len(),
                defs@.len() == i,
                spec_compile(raw.take(i as int)) == Ok::<FormatModel, ErrorModel>(
                    FormatModel {
                        variants: defs@.map_values(|d: VariantDef| d@),
                        column: maxw as nat,
                    },
                ),
            decreases schema.len() - i,
        {
            proof {
                assert(raw.take(i as int + 1).drop_last() =~= raw.take(i as int));
                assert(raw.take(i as int + 1).last() == raw[i as int]);
                assert(raw[i as int] == schema@[i as int]@);
            }
            let mut j: usize = 0;
            while j < i
                invariant
                    j <= i,
                    forall|m: int| 0 <= m < j ==> raw[m].identifier != raw[i as int].identifier,
                decreases i - j,
            {
                if str_eq(schema[j].identifier.as_str(), schema[i].identifier.as_str()) {
                    proof {
                        assert(raw.take(i as int + 1)[j as int] == raw[j as int]);
                        assert(spec_compile(raw.take(i as int + 1)) is Err);
                        lemma_compile_prefix_err(raw, i as int + 1);
                    }
                    return Err(
                        CompileError::DuplicateIdentifier {
                            identifier: schema[i].identifier.clone(),
                        },
                    );
                }
                j += 1;
            }
            match VariantDef::resolve(&schema[i]) {
                Ok(d) => {
                    let ghost m0 = FormatModel {
                        variants: defs@.map_values(|x: VariantDef| x@),
                        column: maxw as nat,
                    };
                    let wd = visible_width(d.display_text.as_str());
                    if wd > maxw {
                        maxw = wd;
                    }
                    defs.push(d);
                    proof {
                        assert(forall|m: int|
                            0 <= m < i ==> #[trigger] raw.take(i as int + 1)[m].identifier != raw.take(
                                i as int + 1,
                            ).last().identifier);
                        let m1 = spec_compile(raw.take(i as int + 1));
                        assert(m1 == Ok::<FormatModel, ErrorModel>(
                            FormatModel {
                                variants: m0.variants.push(d@),
                                column: if d@.display.len() > m0.column {
                                    d@.display.len()
                                } else {
                                    m0.column
                                },
                            },
                        ));
                        assert(defs@.map_values(|x: VariantDef| x@) =~= m0.variants.push(d@));
                        assert(maxw as nat == if d@.display.len() > m0.column {
                            d@.display.len()
                        } else {
                            m0.column
                        });
                    }
                },
                Err(e) => {
                    proof {
                        assert(spec_compile(raw.take(i as int + 1)) is Err);
                        lemma_compile_prefix_err(raw, i as int + 1);
                    }
                    return Err(e);
                },
            }
            i += 1;
        }
        proof {
            assert(raw.take(schema.len() as int) =~= raw);
            lemma_compile_ok_wf(raw);
        }
        Ok(StatusFormat { variants: defs, column: maxw })
    }

    /// The shared alignment column.
    pub fn column(&self) -> (c: usize)
        ensures
            c as nat == self@.column,
    {
        self.column
    }

    /// The number of compiled variants.
    pub fn len(&self) -> (n: usize)
        ensures
            n as nat == self@.variants.len(),
    {
        self.variants.len()
    }

    /// The compiled variant at a position, in declaration order.
    pub fn variant(&self, i: usize) -> (d: &VariantDef)
        requires
            i < self@.variants.len(),
        ensures
            d@ == self@.variants[i as int],
    {
        &self.variants[i]
    }

    /// Renders the label of the variant with the given identifier, or
    /// `None` if no variant has it.
    #[verifier::loop_isolation(false)]
    pub fn format_label(&self, identifier: &str) -> (r: Option<String>)
        requires
            self.wf(),
        ensures
            match (r, find_variant(self@.variants, identifier@)) {
                (Some(s), Some(vm)) => s@ == spec_render(vm, self@.column),
                (None, None) => true,
                _ => false,
            },
    {
        let ghost vs = self@.variants;
        let mut i: usize = 0;
        proof {
            assert(vs.skip(0) =~= vs);
        }
        while i < self.variants.len()
            invariant
                i <= self.variants.len(),
                find_variant(vs, identifier@) == find_variant(vs.skip(i as int), identifier@),
            decreases self.variants.len() - i,
        {
            proof {
                assert(vs.skip(i as int)[0] == vs[i as int]);
                assert(vs.skip(i as int).drop_first() =~= vs.skip(i as int + 1));
            }
            if str_eq(self.variants[i].identifier.as_str(), identifier) {
                let s = render(&self.variants[i], self.column);
                return Some(s);
            }
            i += 1;
        }
        proof {
            assert(vs.skip(self.variants.len() as int) =~= Seq::<VariantModel>::empty());
        }
        None
    }
}

} // verus!
