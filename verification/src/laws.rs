//! The laws of the compiled formatter, proved once and for all: how
//! long a rendered label is, that styling never changes what is
//! visible, that compilation is deterministic, and that a schema with
//! an unknown style name never compiles.

use vstd::prelude::*;

use crate::format::FormatModel;
use crate::format::lemma_compile_ok_wf;
use crate::format::spec_compile;
use crate::model::VariantModel;
use crate::model::resolve_attrs;
use crate::model::resolve_names;
use crate::model::spec_resolve_variant;
use crate::render::escapes_of;
use crate::render::spaces;
use crate::render::spec_render;
use crate::schema::ErrorModel;
use crate::schema::RawAttrModel;
use crate::schema::RawDeclModel;
use crate::schema::RawVariantModel;
use crate::style::Style;
use crate::style::spec_escape;
use crate::style::spec_reset;
use crate::style::spec_style_of_name;
use crate::visible::escape_free;
use crate::visible::lemma_strip_render;
use crate::visible::strip_escapes;

verus! {

/// The length of all escape sequences of a style list, summed.
pub open spec fn escapes_len(ss: Seq<Style>) -> nat
    decreases ss.len(),
{
    if ss.len() == 0 {
        0
    } else {
        escapes_len(ss.drop_last()) + spec_escape(ss.last()).len()
    }
}

/// The invisible characters a variant's styling adds to its label:
/// every escape sequence plus the one shared reset; nothing when the
/// variant has no styles.
pub open spec fn styled_overhead(v: VariantModel) -> nat {
    if v.styles.len() == 0 {
        0
    } else {
        escapes_len(v.styles) + spec_reset().len()
    }
}

/// The concatenated escape sequences are exactly as long as the sum
/// of their lengths.
proof fn lemma_escapes_of_len(ss: Seq<Style>)
    ensures
        escapes_of(ss).len() == escapes_len(ss),
    decreases ss.len(),
{
    if ss.len() > 0 {
        lemma_escapes_of_len(ss.drop_last());
    }
}

/// Law: a rendered label's length is the alignment column plus the
/// variant's styled overhead.
pub proof fn lemma_render_length(v: VariantModel, column: nat)
    requires
        v.display.len() <= column,
    ensures
        spec_render(v, column).len() == column + styled_overhead(v),
{
    lemma_escapes_of_len(v.styles);
}

/// Law: under a compiled schema, every variant's rendered label is
/// the column plus its styled overhead long, and — as long as its
/// display text holds no literal escape character — stripping all
/// escape sequences leaves the padding plus the display text, of
/// length exactly the column, the same for every variant.
pub proof fn lemma_compiled_alignment(s: Seq<RawVariantModel>, m: FormatModel, i: int)
    requires
        spec_compile(s) == Ok::<FormatModel, ErrorModel>(m),
        0 <= i < m.variants.len(),
    ensures
        spec_render(m.variants[i], m.column).len() == m.column + styled_overhead(m.variants[i]),
        escape_free(m.variants[i].display) ==> strip_escapes(spec_render(m.variants[i], m.column))
            == spaces((m.column - m.variants[i].display.len()) as nat) + m.variants[i].display,
        escape_free(m.variants[i].display) ==> strip_escapes(
            spec_render(m.variants[i], m.column),
        ).len() == m.column,
{
    lemma_compile_ok_wf(s);
    lemma_render_length(m.variants[i], m.column);
    if escape_free(m.variants[i].display) {
        lemma_strip_render(m.variants[i], m.column);
    }
}

/// Law: compilation is deterministic, hence idempotent: two
/// compilations of the same schema yield the same model, and with it
/// the same rendered label for every variant.
pub proof fn lemma_compile_idempotent(s: Seq<RawVariantModel>, m1: FormatModel, m2: FormatModel)
    requires
        spec_compile(s) == Ok::<FormatModel, ErrorModel>(m1),
        spec_compile(s) == Ok::<FormatModel, ErrorModel>(m2),
    ensures
        m1 == m2,
        forall|i: int|
            0 <= i < m1.variants.len() ==> spec_render(m1.variants[i], m1.column) == spec_render(
                m2.variants[i],
                m2.column,
            ),
{
}

/// Law: style directives wrap the label outside-in in declaration
/// order: with two directives the render is the padding, the first
/// directive's escape, the second directive's escape, the display
/// text, and exactly one reset at the end.
pub proof fn lemma_directive_order(v: VariantModel, column: nat)
    requires
        v.styles.len() == 2,
        v.display.len() <= column,
    ensures
        spec_render(v, column) == spaces((column - v.display.len()) as nat) + spec_escape(
            v.styles[0],
        ) + spec_escape(v.styles[1]) + v.display + spec_reset(),
{
    assert(v.styles.drop_last() =~= seq![v.styles[0]]);
    assert(seq![v.styles[0]].drop_last() =~= Seq::<Style>::empty());
    assert(escapes_of(Seq::<Style>::empty()) =~= Seq::<char>::empty());
    assert(escapes_of(seq![v.styles[0]]) =~= spec_escape(v.styles[0]));
    assert(v.styles.last() == v.styles[1]);
    assert(escapes_of(v.styles) =~= spec_escape(v.styles[0]) + spec_escape(v.styles[1]));
    assert(spec_render(v, column) =~= spaces((column - v.display.len()) as nat) + spec_escape(
        v.styles[0],
    ) + spec_escape(v.styles[1]) + v.display + spec_reset());
}

/// Law: changing a variant's style directives moves only escape
/// sequences: two variants with the same display text strip to the
/// same visible string at any column.
pub proof fn lemma_styles_preserve_visible(v1: VariantModel, v2: VariantModel, column: nat)
    requires
        v1.display == v2.display,
        v1.display.len() <= column,
        escape_free(v1.display),
    ensures
        strip_escapes(spec_render(v1, column)) == strip_escapes(spec_render(v2, column)),
{
    lemma_strip_render(v1, column);
    lemma_strip_render(v2, column);
}

/// A schema that compiles has every one of its variants resolved.
pub proof fn lemma_compile_ok_variant(s: Seq<RawVariantModel>, i: int)
    requires
        spec_compile(s) is Ok,
        0 <= i < s.len(),
    ensures
        spec_resolve_variant(s[i]) is Ok,
    decreases s.len(),
{
    if i < s.len() - 1 {
        lemma_compile_ok_variant(s.drop_last(), i);
        assert(s.drop_last()[i] == s[i]);
    }
}

/// Every prefix of a resolved attribute list resolves.
pub proof fn lemma_attrs_ok_prefix(id: Seq<char>, attrs: Seq<RawAttrModel>, n: int)
    requires
        resolve_attrs(id, attrs) is Ok,
        0 <= n <= attrs.len(),
    ensures
        resolve_attrs(id, attrs.take(n)) is Ok,
    decreases attrs.len(),
{
    if n == attrs.len() {
        assert(attrs.take(n) =~= attrs);
    } else {
        lemma_attrs_ok_prefix(id, attrs.drop_last(), n);
        assert(attrs.drop_last().take(n) =~= attrs.take(n));
    }
}

/// A resolved name list has every one of its names in the style
/// table.
pub proof fn lemma_names_ok(names: Seq<Seq<char>>, k: int)
    requires
        resolve_names(names) is Ok,
        0 <= k < names.len(),
    ensures
        spec_style_of_name(names[k]) is Some,
    decreases names.len(),
{
    if k < names.len() - 1 {
        lemma_names_ok(names.drop_last(), k);
        assert(names.drop_last()[k] == names[k]);
    }
}

/// Law: an unknown style name always fails compilation: no schema
/// with a style declaration that names something outside the style
/// table compiles.
pub proof fn lemma_unknown_style_fails(s: Seq<RawVariantModel>, i: int, j: int, k: int)
    requires
        0 <= i < s.len(),
        0 <= j < s[i].attrs.len(),
        !s[i].attrs[j].inner,
        s[i].attrs[j].decl is KeyList,
        s[i].attrs[j].decl->KeyList_key == "style"@,
        0 <= k < s[i].attrs[j].decl->KeyList_names.len(),
        spec_style_of_name(s[i].attrs[j].decl->KeyList_names[k]) is None,
    ensures
        spec_compile(s) is Err,
{
    let names = s[i].attrs[j].decl->KeyList_names;
    if spec_compile(s) is Ok {
        lemma_compile_ok_variant(s, i);
        lemma_attrs_ok_prefix(s[i].identifier, s[i].attrs, j + 1);
        assert(s[i].attrs.take(j + 1).drop_last() =~= s[i].attrs.take(j));
        assert(s[i].attrs.take(j + 1).last() == s[i].attrs[j]);
        assert(resolve_names(names) is Ok);
        lemma_names_ok(names, k);
        assert(false);
    }
}

/// Law: the empty schema compiles, to the empty formatter with
/// column zero.
pub proof fn lemma_empty_schema()
    ensures
        spec_compile(Seq::<RawVariantModel>::empty()) == Ok::<FormatModel, ErrorModel>(
            FormatModel { variants: Seq::empty(), column: 0 },
        ),
{
}

} // verus!
