//! Laws of the matcher, stated over the semantics and proved.
use vstd::prelude::*;
use crate::expr::{eval, eval_chain, eval_repeat, eval_times, span_end, Expr};
use crate::hit::{
    branch, collapsed, join, lemma_collapsed_length, lemma_total_length_front,
    lemma_total_length_push, merged, absorb, total_length, Hit,
};
use crate::text::{
    cut_ok, drop_bytes, first_width, lemma_cut_add, lemma_first_char, lemma_prefix_cut, text_prefix,
    utf8,
};
use vstd::utf8::{
    decode_utf8, decode_utf8_encode_utf8, decode_utf8_split, is_char_boundary,
    is_char_boundary_iff_not_is_continuation_byte, is_char_boundary_start_end_of_seq, valid_utf8,
    valid_utf8_split,
};

verus! {

proof fn lemma_total_pair(a: Hit, b: Hit)
    ensures
        total_length(seq![a, b]) == a.length + b.length,
{
    assert(seq![a, b] =~= Seq::<Hit>::empty().push(a).push(b));
    lemma_total_length_push(Seq::<Hit>::empty(), a);
    lemma_total_length_push(Seq::<Hit>::empty().push(a), b);
}

proof fn lemma_total_cons(h: Hit, rest: Seq<Hit>)
    ensures
        total_length(seq![h] + rest) == h.length + total_length(rest),
{
    lemma_total_length_front(seq![h] + rest);
    assert((seq![h] + rest).subrange(1, 1 + rest.len() as int) =~= rest);
}

/// A match never reaches past the end of the text.
pub proof fn lemma_eval_within(e: Expr, t: Seq<u8>)
    ensures
        eval(e, t) matches Some(h) ==> h.length <= t.len(),
    decreases e, 0nat,
{
    match e {
        Expr::Chain(items) => {
            lemma_chain_within(items, t);
            if eval_chain(items, t) is Some {
                let hs = eval_chain(items, t)->0;
                lemma_collapsed_length(total_length(hs), t, hs);
            }
        },
        Expr::Span(a, b) => {
            lemma_eval_within(*a, t);
            if eval(*a, t) is Some {
                lemma_span_within(*b, t, eval(*a, t)->0.length);
            }
        },
        Expr::Then(a, b) => {
            lemma_eval_within(*a, t);
            if eval(*a, t) is Some {
                let ha = eval(*a, t)->0;
                lemma_eval_within(*b, drop_bytes(t, ha.length));
                if eval(*b, drop_bytes(t, ha.length)) is Some {
                    let hb = eval(*b, drop_bytes(t, ha.length))->0;
                    lemma_total_pair(ha, hb);
                    lemma_collapsed_length(ha.length + hb.length, t, seq![ha, hb]);
                }
            }
        },
        Expr::Times(a, n) => {
            lemma_times_within(*a, t, n);
        },
        Expr::OneOrMore(a) => {
            lemma_repeat_within(*a, t);
            let hs = eval_repeat(*a, t);
            lemma_collapsed_length(total_length(hs), t, hs);
        },
        Expr::ZeroOrMore(a) => {
            lemma_repeat_within(*a, t);
            let hs = eval_repeat(*a, t);
            lemma_collapsed_length(total_length(hs), t, hs);
        },
        Expr::Optional(a) => {
            lemma_eval_within(*a, t);
        },
        Expr::Either(a, b) => {
            lemma_eval_within(*a, t);
            lemma_eval_within(*b, t);
        },
        Expr::Named(_, a) => {
            lemma_eval_within(*a, t);
        },
        _ => {},
    }
}

proof fn lemma_chain_within(items: Seq<Expr>, t: Seq<u8>)
    ensures
        eval_chain(items, t) matches Some(hs) ==> total_length(hs) <= t.len(),
    decreases items, 0nat,
{
    if items.len() > 0 {
        lemma_eval_within(items[0], t);
        if eval(items[0], t) is Some {
            let h = eval(items[0], t)->0;
            lemma_chain_within(items.drop_first(), drop_bytes(t, h.length));
            if eval_chain(items.drop_first(), drop_bytes(t, h.length)) is Some {
                lemma_total_cons(h, eval_chain(items.drop_first(), drop_bytes(t, h.length))->0);
            }
        }
    } else {
        assert(total_length(Seq::<Hit>::empty()) == 0);
    }
}

proof fn lemma_times_within(e: Expr, t: Seq<u8>, n: nat)
    ensures
        eval_times(e, t, n) matches Some(hs) ==> total_length(hs) <= t.len(),
    decreases e, n + 1,
{
    if n > 0 {
        lemma_eval_within(e, t);
        if eval(e, t) is Some {
            let h = eval(e, t)->0;
            lemma_times_within(e, drop_bytes(t, h.length), (n - 1) as nat);
            if eval_times(e, drop_bytes(t, h.length), (n - 1) as nat) is Some {
                lemma_total_cons(h, eval_times(e, drop_bytes(t, h.length), (n - 1) as nat)->0);
            }
        }
    } else {
        assert(total_length(Seq::<Hit>::empty()) == 0);
    }
}

proof fn lemma_repeat_within(e: Expr, t: Seq<u8>)
    ensures
        total_length(eval_repeat(e, t)) <= t.len(),
    decreases e, t.len() + 1,
{
    lemma_eval_within(e, t);
    match eval(e, t) {
        Some(h) => {
            if h.length == 0 || h.length > t.len() {
                lemma_total_cons(h, Seq::empty());
                assert(seq![h] + Seq::<Hit>::empty() =~= seq![h]);
                assert(total_length(Seq::<Hit>::empty()) == 0);
            } else {
                lemma_repeat_within(e, drop_bytes(t, h.length));
                lemma_total_cons(h, eval_repeat(e, drop_bytes(t, h.length)));
            }
        },
        None => {
            assert(total_length(Seq::<Hit>::empty()) == 0);
        },
    }
}

proof fn lemma_span_within(e: Expr, t: Seq<u8>, i: nat)
    ensures
        span_end(e, t, i) matches Some(end) ==> end <= t.len(),
    decreases e, t.len() - i,
{
    if i < t.len() {
        lemma_eval_within(e, drop_bytes(t, i));
        lemma_span_within(e, t, i + 1);
    }
}

/// A sequence `a` then `b` matches exactly when `a` matches with some length and `b` matches
/// on what follows it; the length of the whole is the sum of the two lengths.
pub proof fn law_sequence(a: Expr, b: Expr, t: Seq<u8>)
    ensures
        eval(Expr::Then(Box::new(a), Box::new(b)), t) is Some <==> (eval(a, t) is Some && eval(
            b,
            drop_bytes(t, eval(a, t)->0.length),
        ) is Some),
        eval(Expr::Then(Box::new(a), Box::new(b)), t) is Some ==> eval(
            Expr::Then(Box::new(a), Box::new(b)),
            t,
        )->0.length == eval(a, t)->0.length + eval(b, drop_bytes(t, eval(a, t)->0.length))->0.length,
{
    if eval(a, t) is Some {
        let ha = eval(a, t)->0;
        if eval(b, drop_bytes(t, ha.length)) is Some {
            let hb = eval(b, drop_bytes(t, ha.length))->0;
            lemma_total_pair(ha, hb);
            lemma_collapsed_length(ha.length + hb.length, t, seq![ha, hb]);
        }
    }
}

/// Alternation keeps the first branch that matches: when `a` matches, `a | b` gives what `a`
/// gives, whatever `b` would; only when `a` fails does `b` get its turn.
pub proof fn law_first_alternative_wins(a: Expr, b: Expr, t: Seq<u8>)
    ensures
        eval(a, t) is Some ==> eval(Expr::Either(Box::new(a), Box::new(b)), t) == eval(a, t),
        eval(a, t) is None ==> eval(Expr::Either(Box::new(a), Box::new(b)), t) == eval(b, t),
{
}

/// Negation on a text: nothing on an empty text; otherwise an unlabelled match of the first
/// character, of one byte when it is ASCII, exactly when the negated expression fails there.
pub proof fn law_negation(a: Expr, s: Seq<char>)
    ensures
        s.len() == 0 ==> eval(Expr::Not(Box::new(a)), utf8(s)) is None,
        s.len() > 0 ==> (eval(Expr::Not(Box::new(a)), utf8(s)) is Some <==> eval(a, utf8(s)) is None),
        eval(Expr::Not(Box::new(a)), utf8(s)) matches Some(h) ==> h.label.len() == 0 && h.length
            == first_width(utf8(s)) && (utf8(s)[0] < 0x80 ==> h.length == 1),
{
    if s.len() > 0 {
        lemma_first_char(s);
    } else {
        assert(utf8(s).len() == 0);
    }
}

/// Zero or more repetitions never fail; on an empty text they match nothing.
pub proof fn law_zero_or_more(a: Expr, t: Seq<u8>)
    ensures
        eval(Expr::ZeroOrMore(Box::new(a)), t) is Some,
        t.len() == 0 ==> eval(Expr::ZeroOrMore(Box::new(a)), t)->0.length == 0,
{
    lemma_eval_within(Expr::ZeroOrMore(Box::new(a)), t);
}

/// One or more repetitions fail exactly when the expression fails at the start.
pub proof fn law_one_or_more(a: Expr, t: Seq<u8>)
    ensures
        eval(Expr::OneOrMore(Box::new(a)), t) is None <==> eval(a, t) is None,
{
    if eval(a, t) is Some {
        let h = eval(a, t)->0;
        if h.length == 0 || h.length > t.len() {
            assert(eval_repeat(a, t) == seq![h]);
        } else {
            assert(eval_repeat(a, t) == seq![h] + eval_repeat(a, drop_bytes(t, h.length)));
        }
        assert(eval_repeat(a, t).len() > 0);
        let hs = eval_repeat(a, t);
        assert(eval(Expr::OneOrMore(Box::new(a)), t) == Some(collapsed(total_length(hs), t, hs)));
    } else {
        assert(eval_repeat(a, t) == Seq::<Hit>::empty());
        assert(eval(Expr::OneOrMore(Box::new(a)), t) is None);
    }
}

/// A single child in an unlabelled parent is the child itself; in a labelled parent it stays
/// the one child, under the parent's label.
pub proof fn law_collapse(child: Hit, label: Seq<char>, n: nat, t: Seq<u8>)
    ensures
        collapsed(n, t, seq![child]) == child,
        branch(label, n, t, seq![child]).label == label,
        branch(label, n, t, seq![child]).children == seq![child],
{
    let e = Seq::<Hit>::empty();
    assert(seq![child].drop_last() =~= e);
    assert(merged(e) == e);
    assert(absorb(e, child) =~= seq![child]);
    assert(merged(seq![child]) == absorb(merged(seq![child].drop_last()), child));
    assert(merged(seq![child]) =~= seq![child]);
}

/// The contents of nodes, one after the other.
pub open spec fn concat_contents(s: Seq<Hit>) -> Seq<char>
    decreases s.len(),
{
    if s.len() == 0 {
        Seq::empty()
    } else {
        concat_contents(s.drop_last()) + s.last().contents
    }
}

/// The children of `h`, if it has any, make up its contents and its length.
pub open spec fn adds_up(h: Hit) -> bool {
    h.children.len() > 0 ==> concat_contents(h.children) == h.contents && total_length(h.children)
        == h.length
}

proof fn lemma_absorb_keeps_text(acc: Seq<Hit>, x: Hit)
    ensures
        concat_contents(absorb(acc, x)) == concat_contents(acc) + x.contents,
        total_length(absorb(acc, x)) == total_length(acc) + x.length,
{
    if acc.len() > 0 && acc.last().label.len() == 0 && x.label.len() == 0 {
        let u = acc.update(acc.len() - 1, join(acc.last(), x));
        assert(u.drop_last() =~= acc.drop_last());
        assert(concat_contents(acc.drop_last()) + (acc.last().contents + x.contents)
            =~= concat_contents(acc.drop_last()) + acc.last().contents + x.contents);
    } else {
        assert(acc.push(x).drop_last() =~= acc);
        lemma_total_length_push(acc, x);
    }
}

/// The merge pass keeps the text of the children and their total length.
pub proof fn law_merge_keeps_text(s: Seq<Hit>)
    ensures
        concat_contents(merged(s)) == concat_contents(s),
        total_length(merged(s)) == total_length(s),
    decreases s.len(),
{
    if s.len() > 0 {
        law_merge_keeps_text(s.drop_last());
        lemma_absorb_keeps_text(merged(s.drop_last()), s.last());
    }
}

/// A labelled node built from children that make up its contents and its length keeps that
/// property through the merge pass.
pub proof fn law_children_add_up(label: Seq<char>, n: nat, t: Seq<u8>, children: Seq<Hit>)
    requires
        concat_contents(children) == crate::text::text_prefix(t, n),
        total_length(children) == n,
    ensures
        adds_up(branch(label, n, t, children)),
{
    law_merge_keeps_text(children);
}

/// Every node of the tree `h` adds up.
pub open spec fn all_add_up(h: Hit) -> bool
    decreases h, 1nat,
{
    adds_up(h) && each_adds_up(h.children)
}

/// Every node of each tree of `s` adds up.
pub open spec fn each_adds_up(s: Seq<Hit>) -> bool
    decreases s, 0nat,
{
    s.len() == 0 || (each_adds_up(s.drop_last()) && all_add_up(s.last()))
}

proof fn lemma_each_adds_up(s: Seq<Hit>)
    ensures
        each_adds_up(s) <==> forall|i: int| 0 <= i < s.len() ==> #[trigger] all_add_up(s[i]),
    decreases s.len(),
{
    if s.len() > 0 {
        lemma_each_adds_up(s.drop_last());
        assert(each_adds_up(s) == (each_adds_up(s.drop_last()) && all_add_up(s.last())));
        if forall|i: int| 0 <= i < s.len() ==> #[trigger] all_add_up(s[i]) {
            assert(all_add_up(s[s.len() - 1]));
            assert forall|i: int| 0 <= i < s.drop_last().len() implies #[trigger] all_add_up(
                s.drop_last()[i],
            ) by {
                assert(s.drop_last()[i] == s[i]);
            }
        }
        if each_adds_up(s) {
            assert forall|i: int| 0 <= i < s.len() implies #[trigger] all_add_up(s[i]) by {
                if i < s.len() - 1 {
                    assert(s.drop_last()[i] == s[i]);
                }
            }
        }
    }
}

/// The unlabelled nodes of `s` either all have children or none of them has.
pub open spec fn alike(s: Seq<Hit>) -> bool {
    forall|i: int, j: int|
        0 <= i < s.len() && 0 <= j < s.len() && s[i].label.len() == 0 && s[j].label.len() == 0
            ==> (s[i].children.len() > 0 <==> s[j].children.len() > 0)
}

proof fn lemma_concat_contents_add(a: Seq<Hit>, b: Seq<Hit>)
    ensures
        concat_contents(a + b) == concat_contents(a) + concat_contents(b),
        total_length(a + b) == total_length(a) + total_length(b),
    decreases b.len(),
{
    if b.len() == 0 {
        assert(a + b =~= a);
        assert(concat_contents(a) + concat_contents(b) =~= concat_contents(a));
    } else {
        lemma_concat_contents_add(a, b.drop_last());
        assert((a + b).drop_last() =~= a + b.drop_last());
        assert(concat_contents(a) + concat_contents(b.drop_last()) + b.last().contents
            =~= concat_contents(a) + (concat_contents(b.drop_last()) + b.last().contents));
    }
}

proof fn lemma_join_adds_up(a: Hit, b: Hit)
    requires
        all_add_up(a),
        all_add_up(b),
        a.children.len() > 0 <==> b.children.len() > 0,
    ensures
        all_add_up(join(a, b)),
{
    let j = join(a, b);
    lemma_concat_contents_add(a.children, b.children);
    lemma_each_adds_up(a.children);
    lemma_each_adds_up(b.children);
    lemma_each_adds_up(j.children);
    assert forall|i: int| 0 <= i < j.children.len() implies #[trigger] all_add_up(j.children[i]) by {
        if i < a.children.len() {
            assert(j.children[i] == a.children[i]);
            assert(all_add_up(a.children[i]));
        } else {
            assert(j.children[i] == b.children[i - a.children.len()]);
            assert(all_add_up(b.children[i - a.children.len()]));
        }
    }
}

proof fn lemma_merged_add_up(s: Seq<Hit>)
    requires
        alike(s),
        forall|i: int| 0 <= i < s.len() ==> #[trigger] all_add_up(s[i]),
    ensures
        forall|i: int| 0 <= i < merged(s).len() ==> #[trigger] all_add_up(merged(s)[i]),
        forall|i: int|
            0 <= i < merged(s).len() && merged(s)[i].label.len() == 0 ==> exists|j: int|
                0 <= j < s.len() && s[j].label.len() == 0 && (#[trigger] merged(s)[i].children.len()
                    > 0 <==> s[j].children.len() > 0),
    decreases s.len(),
{
    if s.len() > 0 {
        let p = s.drop_last();
        let x = s.last();
        assert forall|i: int, j: int|
            0 <= i < p.len() && 0 <= j < p.len() && p[i].label.len() == 0 && p[j].label.len() == 0
                implies (p[i].children.len() > 0 <==> p[j].children.len() > 0) by {
            assert(p[i] == s[i] && p[j] == s[j]);
        }
        assert forall|i: int| 0 <= i < p.len() implies #[trigger] all_add_up(p[i]) by {
            assert(p[i] == s[i]);
        }
        lemma_merged_add_up(p);
        let m = merged(p);
        assert(all_add_up(x)) by {
            assert(x == s[s.len() - 1]);
        }
        if m.len() > 0 && m.last().label.len() == 0 && x.label.len() == 0 {
            let k = choose|j: int|
                0 <= j < p.len() && p[j].label.len() == 0 && (m[m.len() - 1].children.len() > 0
                    <==> p[j].children.len() > 0);
            assert(p[k] == s[k]);
            assert(s[s.len() - 1] == x);
            lemma_join_adds_up(m.last(), x);
            let r = merged(s);
            assert(r == m.update(m.len() - 1, join(m.last(), x)));
            assert forall|i: int| 0 <= i < r.len() && r[i].label.len() == 0 implies exists|j: int|
                0 <= j < s.len() && s[j].label.len() == 0 && (#[trigger] r[i].children.len() > 0
                    <==> s[j].children.len() > 0) by {
                if i < m.len() - 1 {
                    let j = choose|j: int|
                        0 <= j < p.len() && p[j].label.len() == 0 && (m[i].children.len() > 0
                            <==> p[j].children.len() > 0);
                    assert(p[j] == s[j]);
                } else {
                    assert(p[k] == s[k]);
                }
            }
        } else {
            let r = merged(s);
            assert(r == m.push(x));
            assert forall|i: int| 0 <= i < r.len() && r[i].label.len() == 0 implies exists|j: int|
                0 <= j < s.len() && s[j].label.len() == 0 && (#[trigger] r[i].children.len() > 0
                    <==> s[j].children.len() > 0) by {
                if i < m.len() {
                    let j = choose|j: int|
                        0 <= j < p.len() && p[j].label.len() == 0 && (m[i].children.len() > 0
                            <==> p[j].children.len() > 0);
                    assert(p[j] == s[j]);
                } else {
                    assert(r[i] == s[s.len() - 1]);
                }
            }
        }
    }
}

/// A node built by the constructors from children whose trees add up, whose unlabelled
/// children either all have children or none has, and which together make up the node's
/// text, adds up in every node, labelled or not, collapsed or not.
pub proof fn law_tree_adds_up(label: Seq<char>, n: nat, t: Seq<u8>, children: Seq<Hit>)
    requires
        concat_contents(children) == crate::text::text_prefix(t, n),
        total_length(children) == n,
        alike(children),
        forall|i: int| 0 <= i < children.len() ==> #[trigger] all_add_up(children[i]),
    ensures
        all_add_up(branch(label, n, t, children)),
        all_add_up(collapsed(n, t, children)),
{
    law_merge_keeps_text(children);
    lemma_merged_add_up(children);
    lemma_each_adds_up(merged(children));
    let m = merged(children);
    assert forall|i: int| 0 <= i < m.len() implies #[trigger] all_add_up(m[i]) by {
        assert(all_add_up(merged(children)[i]));
    }
    let b = branch(label, n, t, children);
    assert(adds_up(b));
    assert(all_add_up(b));
    let u = branch(Seq::empty(), n, t, children);
    assert(adds_up(u));
    assert(all_add_up(u));
    if m.len() == 1 {
        assert(all_add_up(m[0]));
    }
}

/// `h` matches the first `h.length` bytes of `t`: it ends where `t` may be cut, and its
/// contents are exactly the text of those bytes.
pub open spec fn covers(h: Hit, t: Seq<u8>) -> bool {
    cut_ok(t, h.length) && h.contents == text_prefix(t, h.length)
}

/// The matches `hs`, one after the other from the start of `t`, cover its first bytes.
pub open spec fn covers_all(hs: Seq<Hit>, t: Seq<u8>) -> bool {
    cut_ok(t, total_length(hs)) && concat_contents(hs) == text_prefix(t, total_length(hs))
}

proof fn lemma_prefix_split(t: Seq<u8>, a: nat, b: nat)
    requires
        valid_utf8(t),
        cut_ok(t, a),
        cut_ok(drop_bytes(t, a), b),
    ensures
        text_prefix(t, a + b) == text_prefix(t, a) + text_prefix(drop_bytes(t, a), b),
{
    lemma_cut_add(t, a, b);
    let u = t.subrange(0, (a + b) as int);
    valid_utf8_split(t, (a + b) as int);
    if a < u.len() {
        is_char_boundary_iff_not_is_continuation_byte(t, a as int);
        is_char_boundary_iff_not_is_continuation_byte(u, a as int);
        assert(u[a as int] == t[a as int]);
    } else {
        is_char_boundary_start_end_of_seq(u);
    }
    decode_utf8_split(u, a as int);
    assert(u.subrange(0, a as int) =~= t.subrange(0, a as int));
    assert(u.subrange(a as int, u.len() as int) =~= drop_bytes(t, a).subrange(0, b as int));
}

proof fn lemma_concat_one(h: Hit)
    ensures
        concat_contents(seq![h]) == h.contents,
{
    assert(seq![h].drop_last() =~= Seq::<Hit>::empty());
    assert(concat_contents(Seq::<Hit>::empty()) == Seq::<char>::empty());
    assert(Seq::<char>::empty() + h.contents =~= h.contents);
}

proof fn lemma_covers_none(t: Seq<u8>)
    requires
        valid_utf8(t),
    ensures
        covers_all(Seq::empty(), t),
        covers(crate::hit::leaf(Seq::empty(), 0, t), t),
{
    is_char_boundary_start_end_of_seq(t);
    assert(t.subrange(0, 0) =~= Seq::<u8>::empty());
    assert(decode_utf8(Seq::<u8>::empty()) =~= Seq::<char>::empty());
    assert(total_length(Seq::<Hit>::empty()) == 0);
    assert(concat_contents(Seq::<Hit>::empty()) == Seq::<char>::empty());
}

proof fn lemma_covers_cons(h: Hit, rest: Seq<Hit>, t: Seq<u8>)
    requires
        valid_utf8(t),
        covers(h, t),
        covers_all(rest, drop_bytes(t, h.length)),
    ensures
        covers_all(seq![h] + rest, t),
{
    lemma_cut_add(t, h.length, total_length(rest));
    lemma_total_cons(h, rest);
    lemma_concat_contents_add(seq![h], rest);
    lemma_concat_one(h);
    lemma_prefix_split(t, h.length, total_length(rest));
}

proof fn lemma_collapsed_covers(n: nat, t: Seq<u8>, hs: Seq<Hit>)
    requires
        concat_contents(hs) == text_prefix(t, n),
    ensures
        collapsed(n, t, hs).contents == text_prefix(t, n),
{
    law_merge_keeps_text(hs);
    let m = merged(hs);
    if m.len() == 1 {
        assert(m =~= seq![m[0]]);
        lemma_concat_one(m[0]);
    }
}

proof fn lemma_first_covers(t: Seq<u8>)
    requires
        valid_utf8(t),
        t.len() > 0,
    ensures
        covers(crate::expr::one_char(t), t),
{
    let s = decode_utf8(t);
    decode_utf8_encode_utf8(t);
    assert(utf8(s) == t);
    if s.len() == 0 {
        assert(utf8(s) =~= Seq::<u8>::empty());
    }
    lemma_first_char(s);
}

/// Every match is lossless: it ends on a character boundary of the text, and its contents
/// are exactly the text of the bytes it covers.
pub proof fn law_match_covers(e: Expr, t: Seq<u8>)
    requires
        valid_utf8(t),
    ensures
        eval(e, t) matches Some(h) ==> covers(h, t),
    decreases e, 0nat,
{
    match e {
        Expr::Char(_) => {
            if t.len() > 0 {
                lemma_first_covers(t);
            }
        },
        Expr::Class(_) => {
            if t.len() > 0 {
                lemma_first_covers(t);
            }
        },
        Expr::Not(a) => {
            if t.len() > 0 {
                lemma_first_covers(t);
            }
        },
        Expr::Literal(s) => {
            if eval(e, t) is Some {
                crate::text::lemma_utf8_valid(s);
                lemma_prefix_cut(t, utf8(s));
            }
        },
        Expr::Chain(items) => {
            lemma_chain_covers(items, t);
            if eval_chain(items, t) is Some {
                let hs = eval_chain(items, t)->0;
                lemma_collapsed_length(total_length(hs), t, hs);
                lemma_collapsed_covers(total_length(hs), t, hs);
            }
        },
        Expr::Span(a, b) => {
            law_match_covers(*a, t);
            if eval(*a, t) is Some {
                lemma_span_covers(*b, t, eval(*a, t)->0.length);
            }
        },
        Expr::Then(a, b) => {
            law_match_covers(*a, t);
            if eval(*a, t) is Some {
                let ha = eval(*a, t)->0;
                valid_utf8_split(t, ha.length as int);
                law_match_covers(*b, drop_bytes(t, ha.length));
                if eval(*b, drop_bytes(t, ha.length)) is Some {
                    let hb = eval(*b, drop_bytes(t, ha.length))->0;
                    let d = drop_bytes(t, ha.length);
                    valid_utf8_split(d, hb.length as int);
                    lemma_covers_none(drop_bytes(d, hb.length));
                    lemma_covers_cons(hb, Seq::empty(), d);
                    assert(seq![hb] + Seq::<Hit>::empty() =~= seq![hb]);
                    lemma_covers_cons(ha, seq![hb], t);
                    assert(seq![ha] + seq![hb] =~= seq![ha, hb]);
                    lemma_total_pair(ha, hb);
                    lemma_collapsed_length(ha.length + hb.length, t, seq![ha, hb]);
                    lemma_collapsed_covers(ha.length + hb.length, t, seq![ha, hb]);
                }
            }
        },
        Expr::Times(a, n) => {
            lemma_times_covers(*a, t, n);
        },
        Expr::OneOrMore(a) => {
            lemma_repeat_covers(*a, t);
            let hs = eval_repeat(*a, t);
            lemma_collapsed_length(total_length(hs), t, hs);
            lemma_collapsed_covers(total_length(hs), t, hs);
        },
        Expr::ZeroOrMore(a) => {
            lemma_repeat_covers(*a, t);
            let hs = eval_repeat(*a, t);
            lemma_collapsed_length(total_length(hs), t, hs);
            lemma_collapsed_covers(total_length(hs), t, hs);
        },
        Expr::Optional(a) => {
            law_match_covers(*a, t);
            lemma_covers_none(t);
        },
        Expr::Either(a, b) => {
            law_match_covers(*a, t);
            law_match_covers(*b, t);
        },
        Expr::Named(_, a) => {
            law_match_covers(*a, t);
        },
    }
}

proof fn lemma_chain_covers(items: Seq<Expr>, t: Seq<u8>)
    requires
        valid_utf8(t),
    ensures
        eval_chain(items, t) matches Some(hs) ==> covers_all(hs, t),
    decreases items, 0nat,
{
    if items.len() > 0 {
        law_match_covers(items[0], t);
        if eval(items[0], t) is Some {
            let h = eval(items[0], t)->0;
            valid_utf8_split(t, h.length as int);
            lemma_chain_covers(items.drop_first(), drop_bytes(t, h.length));
            if eval_chain(items.drop_first(), drop_bytes(t, h.length)) is Some {
                lemma_covers_cons(h, eval_chain(items.drop_first(), drop_bytes(t, h.length))->0, t);
            }
        }
    } else {
        lemma_covers_none(t);
    }
}

proof fn lemma_times_covers(e: Expr, t: Seq<u8>, n: nat)
    requires
        valid_utf8(t),
    ensures
        eval_times(e, t, n) matches Some(hs) ==> covers_all(hs, t),
    decreases e, n + 1,
{
    if n > 0 {
        law_match_covers(e, t);
        if eval(e, t) is Some {
            let h = eval(e, t)->0;
            valid_utf8_split(t, h.length as int);
            lemma_times_covers(e, drop_bytes(t, h.length), (n - 1) as nat);
            if eval_times(e, drop_bytes(t, h.length), (n - 1) as nat) is Some {
                lemma_covers_cons(h, eval_times(e, drop_bytes(t, h.length), (n - 1) as nat)->0, t);
            }
        }
    } else {
        lemma_covers_none(t);
    }
}

proof fn lemma_repeat_covers(e: Expr, t: Seq<u8>)
    requires
        valid_utf8(t),
    ensures
        covers_all(eval_repeat(e, t), t),
    decreases e, t.len() + 1,
{
    law_match_covers(e, t);
    match eval(e, t) {
        Some(h) => {
            valid_utf8_split(t, h.length as int);
            if h.length == 0 || h.length > t.len() {
                lemma_covers_none(drop_bytes(t, h.length));
                lemma_covers_cons(h, Seq::empty(), t);
                assert(seq![h] + Seq::<Hit>::empty() =~= seq![h]);
            } else {
                lemma_repeat_covers(e, drop_bytes(t, h.length));
                lemma_covers_cons(h, eval_repeat(e, drop_bytes(t, h.length)), t);
            }
        },
        None => {
            lemma_covers_none(t);
        },
    }
}

proof fn lemma_span_covers(e: Expr, t: Seq<u8>, i: nat)
    requires
        valid_utf8(t),
    ensures
        span_end(e, t, i) matches Some(end) ==> cut_ok(t, end),
    decreases e, t.len() - i,
{
    if i < t.len() {
        if is_char_boundary(t, i as int) {
            valid_utf8_split(t, i as int);
            law_match_covers(e, drop_bytes(t, i));
            if eval(e, drop_bytes(t, i)) is Some {
                lemma_cut_add(t, i, eval(e, drop_bytes(t, i))->0.length);
            }
        }
        lemma_span_covers(e, t, i + 1);
    }
}

} // verus!
