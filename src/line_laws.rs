//! Laws of line rendering: which attribute tokens a line gives, in what
//! order, and when the attribute block appears at all.
use vstd::prelude::*;

use crate::decimal::decimal;
use crate::line::{
    LineView, attribute_tokens, command_tokens, line_text, misc_tokens, param_tokens, spaced,
    style_tokens, token_if,
};

verus! {

/// No attribute of the line is set: every string attribute is empty, every
/// number is not positive, every flag is off and there are no parameters.
pub open spec fn has_no_attribute(l: LineView) -> bool {
    &&& l.color.len() == 0
    &&& l.font.len() == 0
    &&& l.size <= 0
    &&& l.length <= 0
    &&& !l.trim
    &&& !l.emojize
    &&& !l.ansi
    &&& l.href.len() == 0
    &&& !l.drop_down
    &&& !l.alternate
    &&& l.bash.len() == 0
    &&& l.params.len() == 0
    &&& !l.terminal
    &&& !l.refresh
}

/// A line without attributes renders as its text alone, with no separator.
pub proof fn lemma_plain_line_text(l: LineView)
    requires
        has_no_attribute(l),
    ensures
        attribute_tokens(l).len() == 0,
        line_text(l) == l.text,
{
    assert(attribute_tokens(l) =~= Seq::empty());
}

/// Rendering spaced tokens distributes over concatenation.
pub proof fn lemma_spaced_concat(a: Seq<Seq<char>>, b: Seq<Seq<char>>)
    ensures
        spaced(a + b) == spaced(a) + spaced(b),
    decreases b.len(),
{
    if b.len() == 0 {
        assert(a + b =~= a);
        assert(spaced(a) + spaced(b) =~= spaced(a));
    } else {
        lemma_spaced_concat(a, b.drop_last());
        assert((a + b).drop_last() =~= a + b.drop_last());
        assert(spaced(a + b) =~= spaced(a) + spaced(b));
    }
}

/// A token that starts with a lowercase letter, as every `key=value` does.
pub open spec fn is_keyed(t: Seq<char>) -> bool {
    t.len() > 0 && 'a' <= t[0] && t[0] <= 'z'
}

/// Every token starts with a lowercase letter.
pub open spec fn keyed_tokens(ts: Seq<Seq<char>>) -> bool {
    forall|i: int| 0 <= i < ts.len() ==> is_keyed(#[trigger] ts[i])
}

proof fn lemma_keyed_concat(a: Seq<Seq<char>>, b: Seq<Seq<char>>)
    requires
        keyed_tokens(a),
        keyed_tokens(b),
    ensures
        keyed_tokens(a + b),
{
    assert forall|i: int| 0 <= i < (a + b).len() implies is_keyed(#[trigger] (a + b)[i]) by {
        if i < a.len() {
            assert((a + b)[i] == a[i]);
        } else {
            assert((a + b)[i] == b[i - a.len()]);
        }
    }
}

proof fn lemma_keyed_token_if(c: bool, key: Seq<char>, rest: Seq<char>)
    requires
        is_keyed(key),
    ensures
        is_keyed(key + rest),
        keyed_tokens(token_if(c, key + rest)),
{
    assert((key + rest)[0] == key[0]);
}

proof fn lemma_style_tokens_keyed(l: LineView)
    ensures
        keyed_tokens(style_tokens(l)),
{
    reveal_strlit("color=\"");
    reveal_strlit("font=\"");
    reveal_strlit("size=");
    reveal_strlit("length=");
    reveal_strlit("trim=true");
    reveal_strlit("emojize=true");
    reveal_strlit("ansi=true");
    let e = Seq::<char>::empty();
    lemma_keyed_token_if(l.color.len() > 0, "color=\""@ + l.color, "\""@);
    lemma_keyed_token_if(l.font.len() > 0, "font=\""@ + l.font, "\""@);
    lemma_keyed_token_if(l.size > 0, "size="@, decimal(l.size as nat));
    lemma_keyed_token_if(l.length > 0, "length="@, decimal(l.length as nat));
    lemma_keyed_token_if(l.trim, "trim=true"@, e);
    lemma_keyed_token_if(l.emojize, "emojize=true"@, e);
    lemma_keyed_token_if(l.ansi, "ansi=true"@, e);
    assert("trim=true"@ + e =~= "trim=true"@);
    assert("emojize=true"@ + e =~= "emojize=true"@);
    assert("ansi=true"@ + e =~= "ansi=true"@);
    let t1 = token_if(l.color.len() > 0, "color=\""@ + l.color + "\""@);
    let t2 = token_if(l.font.len() > 0, "font=\""@ + l.font + "\""@);
    let t3 = token_if(l.size > 0, "size="@ + decimal(l.size as nat));
    let t4 = token_if(l.length > 0, "length="@ + decimal(l.length as nat));
    let t5 = token_if(l.trim, "trim=true"@);
    let t6 = token_if(l.emojize, "emojize=true"@);
    let t7 = token_if(l.ansi, "ansi=true"@);
    lemma_keyed_concat(t1, t2);
    lemma_keyed_concat(t1 + t2, t3);
    lemma_keyed_concat(t1 + t2 + t3, t4);
    lemma_keyed_concat(t1 + t2 + t3 + t4, t5);
    lemma_keyed_concat(t1 + t2 + t3 + t4 + t5, t6);
    lemma_keyed_concat(t1 + t2 + t3 + t4 + t5 + t6, t7);
}

proof fn lemma_misc_tokens_keyed(l: LineView)
    ensures
        keyed_tokens(misc_tokens(l)),
{
    reveal_strlit("href='");
    reveal_strlit("dropdown=true");
    reveal_strlit("alternate=true");
    let e = Seq::<char>::empty();
    lemma_keyed_token_if(l.href.len() > 0, "href='"@ + l.href, "'"@);
    lemma_keyed_token_if(l.drop_down, "dropdown=true"@, e);
    lemma_keyed_token_if(l.alternate, "alternate=true"@, e);
    assert("dropdown=true"@ + e =~= "dropdown=true"@);
    assert("alternate=true"@ + e =~= "alternate=true"@);
    let t1 = token_if(l.href.len() > 0, "href='"@ + l.href + "'"@);
    let t2 = token_if(l.drop_down, "dropdown=true"@);
    let t3 = token_if(l.alternate, "alternate=true"@);
    lemma_keyed_concat(t1, t2);
    lemma_keyed_concat(t1 + t2, t3);
}

proof fn lemma_command_tokens_keyed(l: LineView)
    ensures
        keyed_tokens(command_tokens(l)),
{
    reveal_strlit("bash=\"");
    reveal_strlit("param");
    reveal_strlit("terminal=true");
    reveal_strlit("refresh=true");
    let e = Seq::<char>::empty();
    lemma_keyed_token_if(l.bash.len() > 0, "bash=\""@ + l.bash, "\""@);
    lemma_keyed_token_if(l.terminal, "terminal=true"@, e);
    lemma_keyed_token_if(l.refresh, "refresh=true"@, e);
    assert("terminal=true"@ + e =~= "terminal=true"@);
    assert("refresh=true"@ + e =~= "refresh=true"@);
    let ps = param_tokens(l.params);
    assert forall|i: int| 0 <= i < ps.len() implies is_keyed(#[trigger] ps[i]) by {
        lemma_keyed_token_if(true, "param"@, decimal(i as nat) + "="@ + l.params[i]);
        assert(ps[i] =~= "param"@ + (decimal(i as nat) + "="@ + l.params[i]));
    }
    let t1 = token_if(l.bash.len() > 0, "bash=\""@ + l.bash + "\""@);
    let t3 = token_if(l.terminal, "terminal=true"@);
    let t4 = token_if(l.refresh, "refresh=true"@);
    lemma_keyed_concat(t1, ps);
    lemma_keyed_concat(t1 + ps, t3);
    lemma_keyed_concat(t1 + ps + t3, t4);
}

proof fn lemma_attribute_tokens_keyed(l: LineView)
    ensures
        keyed_tokens(attribute_tokens(l)),
{
    lemma_style_tokens_keyed(l);
    lemma_misc_tokens_keyed(l);
    lemma_command_tokens_keyed(l);
    lemma_keyed_concat(style_tokens(l), misc_tokens(l));
    lemma_keyed_concat(style_tokens(l) + misc_tokens(l), command_tokens(l));
}

/// A line with at least one attribute renders as its text, one ` |`, then
/// the style tokens, the misc tokens and the command tokens, in that order;
/// no attribute token is itself a `|`.
pub proof fn lemma_attribute_block(l: LineView)
    requires
        !has_no_attribute(l),
    ensures
        attribute_tokens(l).len() > 0,
        line_text(l) == l.text + " |"@ + spaced(style_tokens(l)) + spaced(misc_tokens(l)) + spaced(
            command_tokens(l),
        ),
        forall|i: int| 0 <= i < attribute_tokens(l).len() ==> attribute_tokens(l)[i] != "|"@,
{
    if l.params.len() > 0 {
        assert(param_tokens(l.params).len() > 0);
    }
    assert(attribute_tokens(l).len() > 0);
    lemma_spaced_concat(style_tokens(l), misc_tokens(l));
    lemma_spaced_concat(style_tokens(l) + misc_tokens(l), command_tokens(l));
    lemma_attribute_tokens_keyed(l);
    reveal_strlit("|");
    assert forall|i: int| 0 <= i < attribute_tokens(l).len() implies attribute_tokens(l)[i]
        != "|"@ by {
        assert(is_keyed(attribute_tokens(l)[i]));
    }
}

/// The parameter tokens stand together among the attribute tokens: the
/// `i`-th of them is `param{i}=` followed by the `i`-th parameter.
pub proof fn lemma_params_contiguous(l: LineView)
    ensures
        ({
            let k = style_tokens(l).len() + misc_tokens(l).len() + (if l.bash.len() > 0 {
                1int
            } else {
                0int
            });
            forall|i: int|
                0 <= i < l.params.len() ==> #[trigger] attribute_tokens(l)[k + i] == "param"@
                    + decimal(i as nat) + "="@ + l.params[i]
        }),
{
    let sm = style_tokens(l) + misc_tokens(l);
    let b = token_if(l.bash.len() > 0, "bash=\""@ + l.bash + "\""@);
    let ps = param_tokens(l.params);
    let bp = b + ps;
    let c = command_tokens(l);
    assert(c == bp + token_if(l.terminal, "terminal=true"@) + token_if(l.refresh, "refresh=true"@));
    assert(attribute_tokens(l) == sm + c);
    assert forall|i: int| 0 <= i < l.params.len() implies #[trigger] attribute_tokens(l)[sm.len()
        + b.len() + i] == "param"@ + decimal(i as nat) + "="@ + l.params[i] by {
        assert(bp[b.len() + i] == ps[i]);
        assert(c[b.len() + i] == bp[b.len() + i]);
        assert((sm + c)[sm.len() + b.len() + i] == c[b.len() + i]);
    }
}

/// An attribute token is one of those that the line's fields give.
proof fn lemma_token_cases(l: LineView, x: Seq<char>)
    requires
        attribute_tokens(l).contains(x),
    ensures
        (l.color.len() > 0 && x == "color=\""@ + l.color + "\""@) || (l.font.len() > 0 && x
            == "font=\""@ + l.font + "\""@) || (l.size > 0 && x == "size="@ + decimal(l.size as nat))
            || (l.length > 0 && x == "length="@ + decimal(l.length as nat)) || (l.trim && x
            == "trim=true"@) || (l.emojize && x == "emojize=true"@) || (l.ansi && x == "ansi=true"@)
            || (l.href.len() > 0 && x == "href='"@ + l.href + "'"@) || (l.drop_down && x
            == "dropdown=true"@) || (l.alternate && x == "alternate=true"@) || (l.bash.len() > 0 && x
            == "bash=\""@ + l.bash + "\""@) || param_tokens(l.params).contains(x) || (l.terminal && x
            == "terminal=true"@) || (l.refresh && x == "refresh=true"@),
{
    broadcast use vstd::seq_lib::lemma_seq_concat_contains_all_elements;

}

/// The first character of each kind of attribute token.
proof fn lemma_token_heads(l: LineView)
    ensures
        ("color=\""@ + l.color + "\""@)[0] == 'c',
        ("font=\""@ + l.font + "\""@)[0] == 'f',
        ("size="@ + decimal(l.size as nat))[0] == 's',
        ("length="@ + decimal(l.length as nat))[0] == 'l',
        ("href='"@ + l.href + "'"@)[0] == 'h',
        ("bash=\""@ + l.bash + "\""@)[0] == 'b',
        forall|x: Seq<char>| #[trigger] param_tokens(l.params).contains(x) ==> x.len() > 0 && x[0] == 'p',
{
    reveal_strlit("color=\"");
    reveal_strlit("font=\"");
    reveal_strlit("size=");
    reveal_strlit("length=");
    reveal_strlit("href='");
    reveal_strlit("bash=\"");
    reveal_strlit("param");
    assert(("color=\""@ + l.color + "\""@)[0] == "color=\""@[0]);
    assert(("font=\""@ + l.font + "\""@)[0] == "font=\""@[0]);
    assert(("href='"@ + l.href + "'"@)[0] == "href='"@[0]);
    assert(("bash=\""@ + l.bash + "\""@)[0] == "bash=\""@[0]);
    assert forall|x: Seq<char>| #[trigger] param_tokens(l.params).contains(x) implies x.len() > 0
        && x[0] == 'p' by {
        let i = choose|i: int| 0 <= i < param_tokens(l.params).len() && param_tokens(l.params)[i] == x;
        assert(x =~= "param"@ + (decimal(i as nat) + "="@ + l.params[i]));
    }
}

proof fn lemma_style_flags_present(l: LineView)
    ensures
        l.trim ==> style_tokens(l).contains("trim=true"@),
        l.emojize ==> style_tokens(l).contains("emojize=true"@),
        l.ansi ==> style_tokens(l).contains("ansi=true"@),
{
    broadcast use vstd::seq_lib::lemma_seq_concat_contains_all_elements;

    let t1 = token_if(l.color.len() > 0, "color=\""@ + l.color + "\""@);
    let t2 = token_if(l.font.len() > 0, "font=\""@ + l.font + "\""@);
    let t3 = token_if(l.size > 0, "size="@ + decimal(l.size as nat));
    let t4 = token_if(l.length > 0, "length="@ + decimal(l.length as nat));
    let t5 = token_if(l.trim, "trim=true"@);
    let t6 = token_if(l.emojize, "emojize=true"@);
    let t7 = token_if(l.ansi, "ansi=true"@);
    let a = t1 + t2 + t3 + t4;
    assert(style_tokens(l) == a + t5 + t6 + t7);
    if l.trim {
        assert(t5[0] == "trim=true"@);
        assert((a + t5).contains("trim=true"@));
        assert((a + t5 + t6).contains("trim=true"@));
    }
    if l.emojize {
        assert(t6[0] == "emojize=true"@);
        assert((a + t5 + t6).contains("emojize=true"@));
    }
    if l.ansi {
        assert(t7[0] == "ansi=true"@);
    }
}

proof fn lemma_flags_present(l: LineView)
    ensures
        l.trim ==> attribute_tokens(l).contains("trim=true"@),
        l.emojize ==> attribute_tokens(l).contains("emojize=true"@),
        l.ansi ==> attribute_tokens(l).contains("ansi=true"@),
        l.drop_down ==> attribute_tokens(l).contains("dropdown=true"@),
        l.alternate ==> attribute_tokens(l).contains("alternate=true"@),
        l.terminal ==> attribute_tokens(l).contains("terminal=true"@),
        l.refresh ==> attribute_tokens(l).contains("refresh=true"@),
{
    broadcast use vstd::seq_lib::lemma_seq_concat_contains_all_elements;

    lemma_style_flags_present(l);
    let m1 = token_if(l.href.len() > 0, "href='"@ + l.href + "'"@);
    let m2 = token_if(l.drop_down, "dropdown=true"@);
    let m3 = token_if(l.alternate, "alternate=true"@);
    assert(misc_tokens(l) == m1 + m2 + m3);
    if l.drop_down {
        assert(m2[0] == "dropdown=true"@);
        assert((m1 + m2).contains("dropdown=true"@));
    }
    if l.alternate {
        assert(m3[0] == "alternate=true"@);
    }
    let c1 = token_if(l.bash.len() > 0, "bash=\""@ + l.bash + "\""@) + param_tokens(l.params);
    let c3 = token_if(l.terminal, "terminal=true"@);
    let c4 = token_if(l.refresh, "refresh=true"@);
    assert(command_tokens(l) == c1 + c3 + c4);
    if l.terminal {
        assert(c3[0] == "terminal=true"@);
        assert((c1 + c3).contains("terminal=true"@));
    }
    if l.refresh {
        assert(c4[0] == "refresh=true"@);
    }
    let sm = style_tokens(l) + misc_tokens(l);
    assert(attribute_tokens(l) == sm + command_tokens(l));
    assert(style_tokens(l).contains("trim=true"@) ==> sm.contains("trim=true"@));
    assert(style_tokens(l).contains("emojize=true"@) ==> sm.contains("emojize=true"@));
    assert(style_tokens(l).contains("ansi=true"@) ==> sm.contains("ansi=true"@));
    assert(misc_tokens(l).contains("dropdown=true"@) ==> sm.contains("dropdown=true"@));
    assert(misc_tokens(l).contains("alternate=true"@) ==> sm.contains("alternate=true"@));
}

/// A token that is not keyed by a string or number attribute is one of the
/// flag tokens of the line.
proof fn lemma_flag_token_cases(l: LineView, x: Seq<char>)
    requires
        attribute_tokens(l).contains(x),
        x.len() > 0,
        x[0] != 'c' && x[0] != 'f' && x[0] != 's' && x[0] != 'l' && x[0] != 'h' && x[0] != 'b'
            && x[0] != 'p',
    ensures
        (l.trim && x == "trim=true"@) || (l.emojize && x == "emojize=true"@) || (l.ansi && x == "ansi=true"@) || (l.drop_down && x == "dropdown=true"@) || (l.alternate && x == "alternate=true"@) || (l.terminal && x == "terminal=true"@) || (l.refresh && x == "refresh=true"@),
{
    lemma_token_heads(l);
    lemma_token_cases(l, x);
}

/// A flag's `name=true` token is rendered exactly when the flag is set.
pub proof fn lemma_flags_rendered_iff_set(l: LineView)
    ensures
        attribute_tokens(l).contains("trim=true"@) <==> l.trim,
        attribute_tokens(l).contains("emojize=true"@) <==> l.emojize,
        attribute_tokens(l).contains("ansi=true"@) <==> l.ansi,
        attribute_tokens(l).contains("dropdown=true"@) <==> l.drop_down,
        attribute_tokens(l).contains("alternate=true"@) <==> l.alternate,
        attribute_tokens(l).contains("terminal=true"@) <==> l.terminal,
        attribute_tokens(l).contains("refresh=true"@) <==> l.refresh,
{
    broadcast use vstd::seq_lib::lemma_seq_concat_contains_all_elements;

    lemma_flags_present(l);
    reveal_strlit("trim=true");
    reveal_strlit("emojize=true");
    reveal_strlit("ansi=true");
    reveal_strlit("dropdown=true");
    reveal_strlit("alternate=true");
    reveal_strlit("terminal=true");
    reveal_strlit("refresh=true");
    assert("trim=true"@[0] == 't' && "trim=true"@[1] == 'r');
    assert("emojize=true"@[0] == 'e' && "emojize=true"@[1] == 'm');
    assert("ansi=true"@[0] == 'a' && "ansi=true"@[1] == 'n');
    assert("dropdown=true"@[0] == 'd' && "dropdown=true"@[1] == 'r');
    assert("alternate=true"@[0] == 'a' && "alternate=true"@[1] == 'l');
    assert("terminal=true"@[0] == 't' && "terminal=true"@[1] == 'e');
    assert("refresh=true"@[0] == 'r' && "refresh=true"@[1] == 'e');
    if attribute_tokens(l).contains("trim=true"@) {
        lemma_flag_token_cases(l, "trim=true"@);
    }
    if attribute_tokens(l).contains("emojize=true"@) {
        lemma_flag_token_cases(l, "emojize=true"@);
    }
    if attribute_tokens(l).contains("ansi=true"@) {
        lemma_flag_token_cases(l, "ansi=true"@);
    }
    if attribute_tokens(l).contains("dropdown=true"@) {
        lemma_flag_token_cases(l, "dropdown=true"@);
    }
    if attribute_tokens(l).contains("alternate=true"@) {
        lemma_flag_token_cases(l, "alternate=true"@);
    }
    if attribute_tokens(l).contains("terminal=true"@) {
        lemma_flag_token_cases(l, "terminal=true"@);
    }
    if attribute_tokens(l).contains("refresh=true"@) {
        lemma_flag_token_cases(l, "refresh=true"@);
    }
}

proof fn lemma_not_flag_token(l: LineView, x: Seq<char>)
    requires
        x.len() > 0,
        x[0] != 'c' && x[0] != 'f' && x[0] != 's' && x[0] != 'l' && x[0] != 'h' && x[0] != 'b'
            && x[0] != 'p',
        x != "trim=true"@,
        x != "emojize=true"@,
        x != "ansi=true"@,
        x != "dropdown=true"@,
        x != "alternate=true"@,
        x != "terminal=true"@,
        x != "refresh=true"@,
    ensures
        !attribute_tokens(l).contains(x),
{
    if attribute_tokens(l).contains(x) {
        lemma_flag_token_cases(l, x);
    }
}

/// No flag is ever rendered as `name=false`.
pub proof fn lemma_flags_never_false(l: LineView)
    ensures
        !attribute_tokens(l).contains("trim=false"@),
        !attribute_tokens(l).contains("emojize=false"@),
        !attribute_tokens(l).contains("ansi=false"@),
        !attribute_tokens(l).contains("dropdown=false"@),
        !attribute_tokens(l).contains("alternate=false"@),
        !attribute_tokens(l).contains("terminal=false"@),
        !attribute_tokens(l).contains("refresh=false"@),
{
    reveal_strlit("trim=false");
    reveal_strlit("trim=true");
    reveal_strlit("emojize=false");
    reveal_strlit("emojize=true");
    reveal_strlit("ansi=false");
    reveal_strlit("ansi=true");
    reveal_strlit("dropdown=false");
    reveal_strlit("dropdown=true");
    reveal_strlit("alternate=false");
    reveal_strlit("alternate=true");
    reveal_strlit("terminal=false");
    reveal_strlit("terminal=true");
    reveal_strlit("refresh=false");
    reveal_strlit("refresh=true");
    assert("trim=false"@[0] == "trim=true"@[0]);
    assert("emojize=false"@[0] == "emojize=true"@[0]);
    assert("ansi=false"@[0] == "ansi=true"@[0]);
    assert("dropdown=false"@[0] == "dropdown=true"@[0]);
    assert("alternate=false"@[0] == "alternate=true"@[0]);
    assert("terminal=false"@[0] == "terminal=true"@[0]);
    assert("refresh=false"@[0] == "refresh=true"@[0]);
    assert("trim=false"@.len() == 10 && "trim=true"@.len() == 9);
    assert("emojize=false"@.len() == 13 && "emojize=true"@.len() == 12);
    assert("ansi=false"@.len() == 10 && "ansi=true"@.len() == 9);
    assert("dropdown=false"@.len() == 14 && "dropdown=true"@.len() == 13);
    assert("alternate=false"@.len() == 15 && "alternate=true"@.len() == 14);
    assert("terminal=false"@.len() == 14 && "terminal=true"@.len() == 13);
    assert("refresh=false"@.len() == 13 && "refresh=true"@.len() == 12);
    lemma_not_flag_token(l, "trim=false"@);
    lemma_not_flag_token(l, "emojize=false"@);
    lemma_not_flag_token(l, "ansi=false"@);
    lemma_not_flag_token(l, "dropdown=false"@);
    lemma_not_flag_token(l, "alternate=false"@);
    lemma_not_flag_token(l, "terminal=false"@);
    lemma_not_flag_token(l, "refresh=false"@);
}

/// `t` begins with `p`.
pub open spec fn starts_with(t: Seq<char>, p: Seq<char>) -> bool {
    p.len() <= t.len() && t.take(p.len() as int) == p
}

/// Some token begins with `key=`.
pub open spec fn has_key(ts: Seq<Seq<char>>, key: Seq<char>) -> bool {
    exists|i: int| 0 <= i < ts.len() && starts_with(#[trigger] ts[i], key + "="@)
}

proof fn lemma_head_of_prefix(t: Seq<char>, p: Seq<char>)
    requires
        starts_with(t, p),
        p.len() > 0,
    ensures
        t[0] == p[0],
{
    assert(t.take(p.len() as int)[0] == t[0]);
}

/// A token beginning with a character that only one attribute uses is that
/// attribute's token.
proof fn lemma_number_token_cases(l: LineView, x: Seq<char>)
    requires
        attribute_tokens(l).contains(x),
        x.len() > 0,
        x[0] == 's' || x[0] == 'l',
    ensures
        x[0] == 's' ==> l.size > 0 && x == "size="@ + decimal(l.size as nat),
        x[0] == 'l' ==> l.length > 0 && x == "length="@ + decimal(l.length as nat),
{
    lemma_token_heads(l);
    lemma_token_cases(l, x);
    reveal_strlit("trim=true");
    assert("trim=true"@[0] == 't');
    reveal_strlit("emojize=true");
    assert("emojize=true"@[0] == 'e');
    reveal_strlit("ansi=true");
    assert("ansi=true"@[0] == 'a');
    reveal_strlit("dropdown=true");
    assert("dropdown=true"@[0] == 'd');
    reveal_strlit("alternate=true");
    assert("alternate=true"@[0] == 'a');
    reveal_strlit("terminal=true");
    assert("terminal=true"@[0] == 't');
    reveal_strlit("refresh=true");
    assert("refresh=true"@[0] == 'r');
}

proof fn lemma_key_found(l: LineView, key: Seq<char>)
    requires
        has_key(attribute_tokens(l), key),
        key.len() > 0,
        key[0] == 's' || key[0] == 'l',
    ensures
        key[0] == 's' ==> l.size > 0,
        key[0] == 'l' ==> l.length > 0,
{
    let ts = attribute_tokens(l);
    let i = choose|i: int| 0 <= i < ts.len() && starts_with(#[trigger] ts[i], key + "="@);
    assert((key + "="@)[0] == key[0]);
    lemma_head_of_prefix(ts[i], key + "="@);
    assert(ts.contains(ts[i]));
    lemma_number_token_cases(l, ts[i]);
}

proof fn lemma_numbers_contained(l: LineView)
    ensures
        l.size > 0 ==> attribute_tokens(l).contains("size="@ + decimal(l.size as nat)),
        l.length > 0 ==> attribute_tokens(l).contains("length="@ + decimal(l.length as nat)),
{
    broadcast use vstd::seq_lib::lemma_seq_concat_contains_all_elements;

    let t1 = token_if(l.color.len() > 0, "color=\""@ + l.color + "\""@);
    let t2 = token_if(l.font.len() > 0, "font=\""@ + l.font + "\""@);
    let t3 = token_if(l.size > 0, "size="@ + decimal(l.size as nat));
    let t4 = token_if(l.length > 0, "length="@ + decimal(l.length as nat));
    let t5 = token_if(l.trim, "trim=true"@);
    let t6 = token_if(l.emojize, "emojize=true"@);
    let t7 = token_if(l.ansi, "ansi=true"@);
    let st = style_tokens(l);
    assert(st == t1 + t2 + t3 + t4 + t5 + t6 + t7);
    if l.size > 0 {
        let t = "size="@ + decimal(l.size as nat);
        assert(t3[0] == t);
        assert((t1 + t2 + t3).contains(t));
        assert((t1 + t2 + t3 + t4).contains(t));
        assert((t1 + t2 + t3 + t4 + t5).contains(t));
        assert((t1 + t2 + t3 + t4 + t5 + t6).contains(t));
        assert(st.contains(t));
        assert((st + misc_tokens(l)).contains(t));
    }
    if l.length > 0 {
        let t = "length="@ + decimal(l.length as nat);
        assert(t4[0] == t);
        assert((t1 + t2 + t3 + t4).contains(t));
        assert((t1 + t2 + t3 + t4 + t5).contains(t));
        assert((t1 + t2 + t3 + t4 + t5 + t6).contains(t));
        assert(st.contains(t));
        assert((st + misc_tokens(l)).contains(t));
    }
}

proof fn lemma_numbers_present(l: LineView)
    ensures
        l.size > 0 ==> has_key(attribute_tokens(l), "size"@),
        l.length > 0 ==> has_key(attribute_tokens(l), "length"@),
{
    reveal_strlit("size");
    reveal_strlit("length");
    reveal_strlit("=");
    reveal_strlit("size=");
    reveal_strlit("length=");
    assert("size"@ + "="@ =~= "size="@);
    assert("length"@ + "="@ =~= "length="@);
    lemma_numbers_contained(l);
    let ts = attribute_tokens(l);
    if l.size > 0 {
        let t = "size="@ + decimal(l.size as nat);
        let k = choose|k: int| 0 <= k < ts.len() && ts[k] == t;
        assert(t.take(5) =~= "size="@);
        assert(starts_with(ts[k], "size"@ + "="@));
    }
    if l.length > 0 {
        let t = "length="@ + decimal(l.length as nat);
        let k = choose|k: int| 0 <= k < ts.len() && ts[k] == t;
        assert(t.take(7) =~= "length="@);
        assert(starts_with(ts[k], "length"@ + "="@));
    }
}

/// The size and length attributes are rendered exactly when they are positive.
pub proof fn lemma_numbers_rendered_iff_positive(l: LineView)
    ensures
        has_key(attribute_tokens(l), "size"@) <==> l.size > 0,
        has_key(attribute_tokens(l), "length"@) <==> l.length > 0,
{
    reveal_strlit("size");
    reveal_strlit("length");
    lemma_numbers_present(l);
    if has_key(attribute_tokens(l), "size"@) {
        lemma_key_found(l, "size"@);
    }
    if has_key(attribute_tokens(l), "length"@) {
        lemma_key_found(l, "length"@);
    }
}

} // verus!
