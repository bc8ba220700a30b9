//! The renderer: given a variant definition and the shared alignment
//! column, produces the final label, right-aligned with leading
//! spaces and wrapped in its style escape sequences.
//!
//! Styles wrap the display text outside-in in declaration order: the
//! first directive's escape sequence is written first, and exactly one
//! shared reset sequence terminates all active styling.

use vstd::prelude::*;

use crate::model::VariantDef;
use crate::model::VariantModel;
use crate::style::Style;
use crate::style::reset_code;
use crate::style::spec_escape;
use crate::style::spec_reset;
use crate::text::visible_width;

verus! {

/// A run of `n` spaces.
pub open spec fn spaces(n: nat) -> Seq<char> {
    Seq::new(n, |i: int| ' ')
}

/// The concatenation of the escape sequences of a list of styles, in
/// order.
pub open spec fn escapes_of(ss: Seq<Style>) -> Seq<char>
    decreases ss.len(),
{
    if ss.len() == 0 {
        Seq::empty()
    } else {
        escapes_of(ss.drop_last()) + spec_escape(ss.last())
    }
}

/// A variant's display text wrapped in its styling: the escape
/// sequences in declaration order, then the text, then one reset; the
/// bare text when the variant has no styles.
pub open spec fn styled_of(v: VariantModel) -> Seq<char> {
    if v.styles.len() == 0 {
        v.display
    } else {
        escapes_of(v.styles) + v.display + spec_reset()
    }
}

/// The rendered label of a variant at an alignment column: leading
/// spaces up to the column, then the styled display text.
pub open spec fn spec_render(v: VariantModel, column: nat) -> Seq<char>
    recommends
        v.display.len() <= column,
{
    spaces((column - v.display.len()) as nat) + styled_of(v)
}

/// Renders one variant at the given alignment column.
#[verifier::loop_isolation(false)]
pub fn render(v: &VariantDef, column: usize) -> (r: String)
    requires
        v@.display.len() <= column,
    ensures
        r@ == spec_render(v@, column as nat),
{
    let mut out = String::new();
    let w = visible_width(v.display_text.as_str());
    let pad: usize = column - w;
    let mut i: usize = 0;
    proof {
        assert(out@ =~= spaces(0));
    }
    while i < pad
        invariant
            i <= pad,
            out@ == spaces(i as nat),
        decreases pad - i,
    {
        out.append(" ");
        proof {
            reveal_strlit(" ");
            assert(out@ =~= spaces((i + 1) as nat));
        }
        i += 1;
    }
    let ghost padding = out@;
    let mut k: usize = 0;
    proof {
        assert(v@.styles.take(0) =~= Seq::<Style>::empty());
        assert(out@ =~= padding + escapes_of(v@.styles.take(0)));
    }
    while k < v.styles.len()
        invariant
            k <= v.styles.len(),
            out@ == padding + escapes_of(v@.styles.take(k as int)),
        decreases v.styles.len() - k,
    {
        proof {
            assert(v@.styles.take(k as int + 1).drop_last() =~= v@.styles.take(k as int));
            assert(v@.styles.take(k as int + 1).last() == v@.styles[k as int]);
        }
        let s = v.styles[k];
        out.append(s.escape_code());
        k += 1;
    }
    proof {
        assert(v@.styles.take(v.styles.len() as int) =~= v@.styles);
    }
    out.append(v.display_text.as_str());
    if v.styles.len() > 0 {
        out.append(reset_code());
        proof {
            assert(out@ =~= spec_render(v@, column as nat));
        }
    } else {
        proof {
            assert(escapes_of(v@.styles) =~= Seq::<char>::empty());
            assert(out@ =~= spec_render(v@, column as nat));
        }
    }
    out
}

} // verus!
