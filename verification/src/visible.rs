//! Stripping escape sequences from rendered output, to speak about
//! what is actually visible in the terminal: a rendered label with
//! its escape sequences removed is the padding plus the display text,
//! of length exactly the alignment column.

use vstd::prelude::*;

use crate::model::VariantModel;
use crate::render::escapes_of;
use crate::render::spaces;
use crate::render::spec_render;
use crate::render::styled_of;
use crate::style::Style;
use crate::style::is_escape_seq;
use crate::style::lemma_escape_shape;
use crate::style::lemma_reset_shape;
use crate::style::spec_escape;
use crate::style::spec_reset;

verus! {

/// A text with no escape character in it; such a text is measured by
/// the width calculator exactly as it is shown.
pub open spec fn escape_free(t: Seq<char>) -> bool {
    forall|i: int| 0 <= i < t.len() ==> t[i] != '\x1b'
}

/// Removes every escape sequence: each run from an escape character
/// through the next `m` drops out, every other character stays.
pub open spec fn strip_escapes(s: Seq<char>) -> Seq<char>
    decreases s.len(),
{
    if s.len() == 0 {
        Seq::empty()
    } else if s[0] == '\x1b' {
        skip_escape(s.drop_first())
    } else {
        seq![s[0]] + strip_escapes(s.drop_first())
    }
}

/// Drops characters up to and including the `m` that ends the escape
/// sequence being skipped, then strips the rest.
pub open spec fn skip_escape(s: Seq<char>) -> Seq<char>
    decreases s.len(),
{
    if s.len() == 0 {
        Seq::empty()
    } else if s[0] == 'm' {
        strip_escapes(s.drop_first())
    } else {
        skip_escape(s.drop_first())
    }
}

/// Stripping passes an escape-free prefix through unchanged.
pub proof fn lemma_strip_plain(t: Seq<char>, rest: Seq<char>)
    requires
        escape_free(t),
    ensures
        strip_escapes(t + rest) == t + strip_escapes(rest),
    decreases t.len(),
{
    if t.len() == 0 {
        assert(t + rest =~= rest);
        assert(t + strip_escapes(rest) =~= strip_escapes(rest));
    } else {
        assert((t + rest)[0] == t[0]);
        assert((t + rest).drop_first() =~= t.drop_first() + rest);
        lemma_strip_plain(t.drop_first(), rest);
        assert(seq![t[0]] + (t.drop_first() + strip_escapes(rest)) =~= t + strip_escapes(rest));
    }
}

/// Stripping an escape-free text alone leaves it unchanged.
pub proof fn lemma_strip_escape_free(t: Seq<char>)
    requires
        escape_free(t),
    ensures
        strip_escapes(t) == t,
{
    lemma_strip_plain(t, Seq::empty());
    assert(t + Seq::<char>::empty() =~= t);
}

/// Skipping runs through everything before the closing `m`, consumes
/// the `m`, and strips the rest.
pub proof fn lemma_skip_to_m(u: Seq<char>, rest: Seq<char>)
    requires
        forall|i: int| 0 <= i < u.len() ==> u[i] != 'm',
    ensures
        skip_escape(u + seq!['m'] + rest) == strip_escapes(rest),
    decreases u.len(),
{
    if u.len() == 0 {
        assert(u + seq!['m'] + rest =~= seq!['m'] + rest);
        assert((seq!['m'] + rest)[0] == 'm');
        assert((seq!['m'] + rest).drop_first() =~= rest);
    } else {
        assert((u + seq!['m'] + rest)[0] == u[0]);
        assert((u + seq!['m'] + rest).drop_first() =~= u.drop_first() + seq!['m'] + rest);
        lemma_skip_to_m(u.drop_first(), rest);
    }
}

/// Stripping drops a leading escape sequence whole.
pub proof fn lemma_strip_escape(e: Seq<char>, rest: Seq<char>)
    requires
        is_escape_seq(e),
    ensures
        strip_escapes(e + rest) == strip_escapes(rest),
{
    let u = e.subrange(1, e.len() - 1);
    assert((e + rest)[0] == '\x1b');
    assert((e + rest).drop_first() =~= u + seq!['m'] + rest);
    lemma_skip_to_m(u, rest);
}

/// Stripping drops the concatenated escape sequences of any style
/// list whole.
pub proof fn lemma_strip_escapes_of(ss: Seq<Style>, rest: Seq<char>)
    ensures
        strip_escapes(escapes_of(ss) + rest) == strip_escapes(rest),
    decreases ss.len(),
{
    if ss.len() == 0 {
        assert(escapes_of(ss) + rest =~= rest);
    } else {
        lemma_escape_shape(ss.last());
        assert(escapes_of(ss) + rest =~= escapes_of(ss.drop_last()) + (spec_escape(ss.last())
            + rest));
        lemma_strip_escape(spec_escape(ss.last()), rest);
        lemma_strip_escapes_of(ss.drop_last(), spec_escape(ss.last()) + rest);
    }
}

/// Stripping all escape sequences from a rendered label leaves the
/// padding plus the display text: a visible string of length exactly
/// the alignment column.
pub proof fn lemma_strip_render(v: VariantModel, column: nat)
    requires
        v.display.len() <= column,
        escape_free(v.display),
    ensures
        strip_escapes(spec_render(v, column)) == spaces((column - v.display.len()) as nat)
            + v.display,
        strip_escapes(spec_render(v, column)).len() == column,
{
    let pad = spaces((column - v.display.len()) as nat);
    assert(escape_free(pad));
    if v.styles.len() == 0 {
        lemma_strip_plain(pad, v.display);
        lemma_strip_escape_free(v.display);
        assert(spec_render(v, column) == pad + v.display);
    } else {
        let body = v.display + spec_reset();
        assert(styled_of(v) =~= escapes_of(v.styles) + body);
        assert(spec_render(v, column) =~= pad + (escapes_of(v.styles) + body));
        lemma_strip_plain(pad, escapes_of(v.styles) + body);
        lemma_strip_escapes_of(v.styles, body);
        lemma_strip_plain(v.display, spec_reset());
        lemma_reset_shape();
        lemma_strip_escape(spec_reset(), Seq::empty());
        assert(spec_reset() + Seq::<char>::empty() =~= spec_reset());
        assert(strip_escapes(spec_reset()) =~= Seq::<char>::empty());
        assert(v.display + strip_escapes(spec_reset()) =~= v.display);
        assert(strip_escapes(spec_render(v, column)) =~= pad + v.display);
    }
}

} // verus!
