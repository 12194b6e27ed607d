//! The capture tree: what a match returns.
use vstd::prelude::*;
use vstd::string::StringExecFns;
use crate::text::{cut_ok, split_text, text_prefix, utf8};

verus! {

/// A capture node as a mathematical value.
pub struct Hit {
    pub label: Seq<char>,
    pub length: nat,
    pub contents: Seq<char>,
    pub children: Seq<Hit>,
}

/// A node labelled `label`, without children, over the first `n` bytes of `t`.
pub open spec fn leaf(label: Seq<char>, n: nat, t: Seq<u8>) -> Hit {
    Hit { label, length: n, contents: text_prefix(t, n), children: Seq::empty() }
}

/// Two adjacent nodes joined into one.
pub open spec fn join(a: Hit, b: Hit) -> Hit {
    Hit {
        label: a.label,
        length: a.length + b.length,
        contents: a.contents + b.contents,
        children: a.children + b.children,
    }
}

/// One step of the merge pass: `x` joins the last node of `acc` when both are unlabelled.
pub open spec fn absorb(acc: Seq<Hit>, x: Hit) -> Seq<Hit> {
    if acc.len() > 0 && acc.last().label.len() == 0 && x.label.len() == 0 {
        acc.update(acc.len() - 1, join(acc.last(), x))
    } else {
        acc.push(x)
    }
}

/// The merge pass: every run of adjacent unlabelled nodes becomes one node.
pub open spec fn merged(s: Seq<Hit>) -> Seq<Hit>
    decreases s.len(),
{
    if s.len() == 0 {
        s
    } else {
        absorb(merged(s.drop_last()), s.last())
    }
}

/// A node over the first `n` bytes of `t` whose children went through the merge pass.
pub open spec fn branch(label: Seq<char>, n: nat, t: Seq<u8>, children: Seq<Hit>) -> Hit {
    Hit { label, length: n, contents: text_prefix(t, n), children: merged(children) }
}

/// An unlabelled branch, replaced by its child when just one is left after merging.
pub open spec fn collapsed(n: nat, t: Seq<u8>, children: Seq<Hit>) -> Hit {
    let h = branch(Seq::empty(), n, t, children);
    if h.children.len() == 1 {
        h.children[0]
    } else {
        h
    }
}

/// The sum of the lengths of `s`.
pub open spec fn total_length(s: Seq<Hit>) -> nat
    decreases s.len(),
{
    if s.len() == 0 {
        0
    } else {
        total_length(s.drop_last()) + s.last().length
    }
}

/// A matched span of text, with an optional label and the spans it was built from.
#[derive(PartialEq, Debug)]
pub struct MatchHit {
    pub label: String,
    pub length: usize,
    pub contents: String,
    pub sub_matches: Vec<MatchHit>,
}

impl MatchHit {
    pub open spec fn view(&self) -> Hit
        decreases self,
    {
        Hit {
            label: self.label@,
            length: self.length as nat,
            contents: self.contents@,
            children: hit_views(self.sub_matches@),
        }
    }

    /// An unlabelled node over the first `match_length` bytes of `source_text`.
    pub fn new(match_length: usize, source_text: &str) -> (r: MatchHit)
        requires
            cut_ok(utf8(source_text@), match_length as nat),
        ensures
            r@ == leaf(Seq::empty(), match_length as nat, utf8(source_text@)),
    {
        let (head, _) = split_text(source_text, match_length);
        let r = MatchHit {
            label: String::new(),
            length: match_length,
            contents: head.to_owned(),
            sub_matches: Vec::new(),
        };
        proof {
            lemma_hit_views(r.sub_matches@);
            assert(r@.children =~= Seq::<Hit>::empty());
        }
        r
    }

    /// An unlabelled node with the given children after the merge pass; when one child is
    /// left, that child itself.
    pub fn new_with_sub_matches(
        match_length: usize,
        source_text: &str,
        sub_matches: Vec<MatchHit>,
    ) -> (r: MatchHit)
        requires
            cut_ok(utf8(source_text@), match_length as nat),
            total_length(hit_views(sub_matches@)) <= usize::MAX,
        ensures
            r@ == collapsed(match_length as nat, utf8(source_text@), hit_views(sub_matches@)),
            total_length(hit_views(sub_matches@)) == match_length ==> r.length == match_length,
    {
        proof {
            lemma_merged_total(hit_views(sub_matches@));
            let m = merged(hit_views(sub_matches@));
            if m.len() == 1 {
                assert(m =~= Seq::<Hit>::empty().push(m[0]));
                lemma_total_length_push(Seq::<Hit>::empty(), m[0]);
            }
        }
        let mut result = MatchHit::new(match_length, source_text);
        result.sub_matches = merge_runs(sub_matches);
        proof {
            lemma_hit_views(result.sub_matches@);
        }
        if result.sub_matches.len() == 1 {
            result = result.sub_matches.remove(0);
        }
        result
    }

    /// A labelled node over the first `match_length` bytes of `source_text`.
    pub fn named(name: &str, match_length: usize, source_text: &str) -> (r: MatchHit)
        requires
            cut_ok(utf8(source_text@), match_length as nat),
        ensures
            r@ == leaf(name@, match_length as nat, utf8(source_text@)),
    {
        let mut result = MatchHit::new(match_length, source_text);
        result.label = name.to_owned();
        result
    }

    /// A labelled node with the given children after the merge pass; it is kept whatever
    /// number of children is left.
    pub fn named_with_sub_matches(
        name: &str,
        match_length: usize,
        source_text: &str,
        sub_matches: Vec<MatchHit>,
    ) -> (r: MatchHit)
        requires
            cut_ok(utf8(source_text@), match_length as nat),
            total_length(hit_views(sub_matches@)) <= usize::MAX,
        ensures
            r@ == branch(name@, match_length as nat, utf8(source_text@), hit_views(sub_matches@)),
    {
        let mut result = MatchHit::named(name, match_length, source_text);
        result.sub_matches = merge_runs(sub_matches);
        result
    }

    /// Runs the merge pass over the children of this node.
    pub fn combine_sub_matches(&mut self)
        requires
            total_length(hit_views(old(self).sub_matches@)) <= usize::MAX,
        ensures
            final(self)@ == (Hit { children: merged(old(self)@.children), ..old(self)@ }),
    {
        let mut children: Vec<MatchHit> = Vec::new();
        std::mem::swap(&mut children, &mut self.sub_matches);
        self.sub_matches = merge_runs(children);
    }
}

/// The values of a sequence of nodes.
pub open spec fn hit_views(s: Seq<MatchHit>) -> Seq<Hit>
    decreases s,
{
    if s.len() == 0 {
        Seq::empty()
    } else {
        hit_views(s.drop_last()).push(s.last().view())
    }
}

pub proof fn lemma_hit_views(s: Seq<MatchHit>)
    ensures
        hit_views(s).len() == s.len(),
        forall|i: int| 0 <= i < s.len() ==> #[trigger] hit_views(s)[i] == s[i]@,
    decreases s.len(),
{
    if s.len() > 0 {
        lemma_hit_views(s.drop_last());
    }
}

pub proof fn lemma_hit_views_push(s: Seq<MatchHit>, x: MatchHit)
    ensures
        hit_views(s.push(x)) == hit_views(s).push(x@),
{
    assert(s.push(x).drop_last() =~= s);
}

pub proof fn lemma_hit_views_skip(s: Seq<MatchHit>)
    requires
        s.len() > 0,
    ensures
        hit_views(s.subrange(1, s.len() as int)) == hit_views(s).subrange(1, s.len() as int),
{
    lemma_hit_views(s);
    lemma_hit_views(s.subrange(1, s.len() as int));
    assert(hit_views(s.subrange(1, s.len() as int)) =~= hit_views(s).subrange(1, s.len() as int));
}

pub proof fn lemma_hit_views_concat(a: Seq<MatchHit>, b: Seq<MatchHit>)
    ensures
        hit_views(a + b) == hit_views(a) + hit_views(b),
{
    lemma_hit_views(a);
    lemma_hit_views(b);
    lemma_hit_views(a + b);
    assert forall|i: int| 0 <= i < a.len() + b.len() implies #[trigger] hit_views(a + b)[i] == (
    hit_views(a) + hit_views(b))[i] by {
        if i < a.len() {
            assert(hit_views(a)[i] == a[i]@);
        } else {
            assert(hit_views(b)[i - a.len()] == b[i - a.len()]@);
        }
    }
    assert(hit_views(a + b) =~= hit_views(a) + hit_views(b));
}

pub proof fn lemma_total_length_push(s: Seq<Hit>, x: Hit)
    ensures
        total_length(s.push(x)) == total_length(s) + x.length,
{
    assert(s.push(x).drop_last() =~= s);
}

pub proof fn lemma_total_length_front(s: Seq<Hit>)
    requires
        s.len() > 0,
    ensures
        total_length(s) == s[0].length + total_length(s.subrange(1, s.len() as int)),
    decreases s.len(),
{
    if s.len() > 1 {
        lemma_total_length_front(s.drop_last());
        assert(s.drop_last().subrange(1, s.len() - 1) =~= s.subrange(1, s.len() as int).drop_last());
    } else {
        assert(s.drop_last() =~= Seq::<Hit>::empty());
        assert(s.subrange(1, s.len() as int) =~= Seq::<Hit>::empty());
    }
}

pub proof fn lemma_absorb_total(acc: Seq<Hit>, x: Hit)
    ensures
        total_length(absorb(acc, x)) == total_length(acc) + x.length,
{
    if acc.len() > 0 && acc.last().label.len() == 0 && x.label.len() == 0 {
        let u = acc.update(acc.len() - 1, join(acc.last(), x));
        assert(u.drop_last() =~= acc.drop_last());
    } else {
        lemma_total_length_push(acc, x);
    }
}

/// Joins the adjacent unlabelled nodes of `items`, in order.
fn merge_runs(items: Vec<MatchHit>) -> (r: Vec<MatchHit>)
    requires
        total_length(hit_views(items@)) <= usize::MAX,
    ensures
        hit_views(r@) == merged(hit_views(items@)),
{
    let ghost all = hit_views(items@);
    let mut rest = items;
    let mut out: Vec<MatchHit> = Vec::new();
    let ghost mut k: int = 0;
    proof {
        assert(all.subrange(0, 0) =~= Seq::<Hit>::empty());
        assert(all.subrange(0, all.len() as int) =~= all);
    }
    while rest.len() > 0
        invariant
            0 <= k <= all.len(),
            hit_views(rest@) == all.subrange(k, all.len() as int),
            hit_views(out@) == merged(all.subrange(0, k)),
            total_length(all.subrange(0, k)) + total_length(all.subrange(k, all.len() as int))
                == total_length(all),
            total_length(all) <= usize::MAX,
        decreases rest.len(),
    {
        let ghost before = rest@;
        let x = rest.remove(0);
        proof {
            assert(before.subrange(1, before.len() as int) =~= rest@);
            lemma_hit_views_skip(before);
            assert(all.subrange(k + 1, all.len() as int) =~= all.subrange(k, all.len() as int).subrange(1, all.len() - k));
            lemma_total_length_front(all.subrange(k, all.len() as int));
            assert(all.subrange(0, k + 1).drop_last() =~= all.subrange(0, k));
            assert(x == before[0]);
            lemma_hit_views(before);
            assert(x@ == hit_views(before)[0]);
            assert(all.subrange(0, k + 1).last() == x@);
            lemma_total_length_push(all.subrange(0, k), x@);
            lemma_absorb_total(merged(all.subrange(0, k)), x@);
        }
        let n = out.len();
        let ghost step = absorb(merged(all.subrange(0, k)), x@);
        proof {
            lemma_hit_views(out@);
            assert(merged(all.subrange(0, k + 1)) == step);
        }
        if n > 0 && out[n - 1].label.as_str().is_empty() && x.label.as_str().is_empty() {
            proof {
                lemma_merged_total(all.subrange(0, k));
                assert(out@ =~= out@.drop_last().push(out@[n - 1]));
                lemma_hit_views_push(out@.drop_last(), out@[n - 1]);
                lemma_total_length_push(hit_views(out@.drop_last()), out@[n - 1]@);
            }
            let ghost out0 = out@;
            proof {
                lemma_hit_views(out0);
            }
            let mut last = out.pop().unwrap();
            let mut x = x;
            let ghost last0 = last@;
            let ghost x0 = x@;
            let ghost ls = last.sub_matches@;
            let ghost xs = x.sub_matches@;
            last.length = last.length + x.length;
            last.contents.append(x.contents.as_str());
            last.sub_matches.append(&mut x.sub_matches);
            proof {
                lemma_hit_views_concat(ls, xs);
                assert(last.sub_matches@ == ls + xs);
                assert(last@ == join(last0, x0));
            }
            out.push(last);
            proof {
                lemma_hit_views_push(out@.drop_last(), last);
                assert(out@.drop_last().push(last) =~= out@);
                assert(out@ == out0.drop_last().push(last));
                lemma_hit_views_push(out0.drop_last(), last);
                lemma_hit_views_push(out0.drop_last(), out0[n - 1]);
                assert(out0.drop_last().push(out0[n - 1]) =~= out0);
                assert(hit_views(out@) =~= absorb(merged(all.subrange(0, k)), x0));
            }
        } else {
            let ghost out0 = out@;
            out.push(x);
            proof {
                lemma_hit_views_push(out0, x);
                assert(hit_views(out@) == step);
            }
        }
        proof {
            k = k + 1;
        }
    }
    proof {
        assert(all.subrange(0, k) =~= all);
    }
    out
}

/// A branch whose children cover `n` bytes is `n` bytes long, collapsed or not.
pub proof fn lemma_collapsed_length(n: nat, t: Seq<u8>, hs: Seq<Hit>)
    requires
        total_length(hs) == n,
    ensures
        collapsed(n, t, hs).length == n,
{
    lemma_merged_total(hs);
    let m = merged(hs);
    if m.len() == 1 {
        assert(m =~= Seq::<Hit>::empty().push(m[0]));
        lemma_total_length_push(Seq::<Hit>::empty(), m[0]);
    }
}

pub proof fn lemma_merged_total(s: Seq<Hit>)
    ensures
        total_length(merged(s)) == total_length(s),
    decreases s.len(),
{
    if s.len() > 0 {
        lemma_merged_total(s.drop_last());
        lemma_absorb_total(merged(s.drop_last()), s.last());
    }
}

/// The nodes of `h` in pre-order: the node, then the nodes of each child in turn.
pub open spec fn preorder(h: MatchHit) -> Seq<MatchHit>
    decreases h,
{
    seq![h] + preorder_all(h.sub_matches@)
}

/// The nodes of each of `s` in pre-order, one after the other.
pub open spec fn preorder_all(s: Seq<MatchHit>) -> Seq<MatchHit>
    decreases s,
{
    if s.len() == 0 {
        Seq::empty()
    } else {
        preorder_all(s.drop_last()) + preorder(s.last())
    }
}

/// `r` is the first of `nodes` on which `filter` answered `true`, having answered `false` on
/// each node before it; or `filter` answered `false` on every node and `r` is `None`.
pub open spec fn first_accepted<F: Fn(&MatchHit) -> bool>(
    filter: F,
    nodes: Seq<MatchHit>,
    r: Option<&MatchHit>,
) -> bool {
    match r {
        Some(x) => exists|k: int|
            0 <= k < nodes.len() && nodes[k] == *x && call_ensures(filter, (x,), true) && (
            forall|j: int| 0 <= j < k ==> call_ensures(filter, (&nodes[j],), false)),
        None => forall|j: int| 0 <= j < nodes.len() ==> call_ensures(filter, (&nodes[j],), false),
    }
}

/// Where the search by a path of labels ends: the path anchored at `h` (its first label is
/// that of `h`, the rest anchored at a child of `h`), or else the whole path searched anew
/// in each child in turn.
pub open spec fn path_find(h: MatchHit, path: Seq<Seq<char>>) -> Option<MatchHit>
    decreases h, 0nat,
{
    if path.len() == 0 {
        None
    } else {
        let anchored = if h.label@ == path[0] {
            if path.len() <= 1 {
                Some(h)
            } else {
                path_find_in(h.sub_matches@, path.drop_first())
            }
        } else {
            None
        };
        if anchored is Some {
            anchored
        } else {
            path_find_in(h.sub_matches@, path)
        }
    }
}

/// The first result of `path_find` on each of `s` in turn.
pub open spec fn path_find_in(s: Seq<MatchHit>, path: Seq<Seq<char>>) -> Option<MatchHit>
    decreases s, 1nat,
{
    if s.len() == 0 {
        None
    } else {
        match path_find(s[0], path) {
            Some(x) => Some(x),
            None => path_find_in(s.drop_first(), path),
        }
    }
}

/// The node a search returned, if any.
pub open spec fn found(r: Option<&MatchHit>) -> Option<MatchHit> {
    match r {
        Some(x) => Some(*x),
        None => None,
    }
}

/// The labels of a path.
pub open spec fn labels_of(path: Seq<&str>) -> Seq<Seq<char>> {
    path.map_values(|p: &str| p@)
}

proof fn lemma_preorder_all_step(s: Seq<MatchHit>, i: int)
    requires
        0 <= i < s.len(),
    ensures
        preorder_all(s.subrange(0, i + 1)) == preorder_all(s.subrange(0, i)) + preorder(s[i]),
{
    assert(s.subrange(0, i + 1).drop_last() =~= s.subrange(0, i));
}

proof fn lemma_preorder_all_prefix(s: Seq<MatchHit>, i: int)
    requires
        0 <= i <= s.len(),
    ensures
        preorder_all(s.subrange(0, i)).len() <= preorder_all(s).len(),
        forall|k: int|
            0 <= k < preorder_all(s.subrange(0, i)).len() ==> preorder_all(s)[k]
                == preorder_all(s.subrange(0, i))[k],
    decreases s.len() - i,
{
    if i == s.len() {
        assert(s.subrange(0, i) =~= s);
    } else {
        lemma_preorder_all_prefix(s, i + 1);
        lemma_preorder_all_step(s, i);
    }
}

impl MatchHit {
    /// The first node, in pre-order and this node included, on which `filter` is `true`.
    pub fn find_child<F: Fn(&MatchHit) -> bool>(&self, filter: F) -> (r: Option<&MatchHit>)
        requires
            forall|h: &MatchHit| call_requires(filter, (h,)),
        ensures
            first_accepted(filter, preorder(*self), r),
    {
        self.find_with(&filter)
    }

    fn find_with<F: Fn(&MatchHit) -> bool>(&self, filter: &F) -> (r: Option<&MatchHit>)
        requires
            forall|h: &MatchHit| call_requires(*filter, (h,)),
        ensures
            first_accepted(*filter, preorder(*self), r),
        decreases self,
    {
        let ghost nodes = preorder(*self);
        let ghost subs = self.sub_matches@;
        if filter(self) {
            proof {
                assert(nodes[0] == *self);
            }
            return Some(self);
        }
        let mut i: usize = 0;
        proof {
            assert(subs.subrange(0, 0) =~= Seq::<MatchHit>::empty());
        }
        while i < self.sub_matches.len()
            invariant
                forall|h: &MatchHit| call_requires(*filter, (h,)),
                nodes == preorder(*self),
                subs == self.sub_matches@,
                nodes == seq![*self] + preorder_all(subs),
                i <= subs.len(),
                forall|j: int|
                    0 <= j < 1 + preorder_all(subs.subrange(0, i as int)).len() ==> call_ensures(
                        *filter,
                        (&nodes[j],),
                        false,
                    ),
            decreases subs.len() - i,
        {
            let found = self.sub_matches[i].find_with(filter);
            proof {
                lemma_preorder_all_step(subs, i as int);
                lemma_preorder_all_prefix(subs, i + 1);
                let before = preorder_all(subs.subrange(0, i as int));
                let mine = preorder(subs[i as int]);
                assert forall|k: int| 0 <= k < mine.len() implies nodes[1 + before.len() + k]
                    == mine[k] by {
                    assert(preorder_all(subs)[before.len() + k] == (before + mine)[before.len() + k]);
                }
                if found is Some {
                    let k = choose|k: int|
                        0 <= k < mine.len() && mine[k] == *found->0 && call_ensures(
                            *filter,
                            (found->0,),
                            true,
                        ) && (forall|j: int| 0 <= j < k ==> call_ensures(*filter, (&mine[j],), false));
                    assert(nodes[1 + before.len() + k] == *found->0);
                    assert forall|j: int| 0 <= j < 1 + before.len() + k implies call_ensures(
                        *filter,
                        (&nodes[j],),
                        false,
                    ) by {
                        if j >= 1 + before.len() {
                            assert(nodes[j] == mine[j - 1 - before.len()]);
                        }
                    }
                } else {
                    assert forall|j: int| 0 <= j < 1 + (before + mine).len() implies call_ensures(
                        *filter,
                        (&nodes[j],),
                        false,
                    ) by {
                        if j >= 1 + before.len() {
                            assert(nodes[j] == mine[j - 1 - before.len()]);
                        }
                    }
                }
            }
            match found {
                Some(x) => {
                    return Some(x);
                },
                None => {},
            }
            i = i + 1;
        }
        proof {
            assert(subs.subrange(0, i as int) =~= subs);
        }
        None
    }

    /// The first node found by a path of labels: anchored at this node when its label is the
    /// first of the path, the rest of the path anchored at one of its children; else the whole
    /// path searched anew in each child, depth first.
    pub fn find_child_by_type_path(&self, type_path: &[&str]) -> (r: Option<&MatchHit>)
        ensures
            found(r) == path_find(*self, labels_of(type_path@)),
    {
        proof {
            assert(labels_of(type_path@).subrange(0, type_path@.len() as int) =~= labels_of(type_path@));
        }
        self.find_path(type_path, 0)
    }

    fn find_path(&self, path: &[&str], from: usize) -> (r: Option<&MatchHit>)
        requires
            from <= path@.len(),
        ensures
            found(r) == path_find(*self, labels_of(path@).subrange(from as int, path@.len() as int)),
        decreases self, 1nat,
    {
        let ghost p = labels_of(path@).subrange(from as int, path@.len() as int);
        if from >= path.len() {
            return None;
        }
        proof {
            assert(p[0] == path@[from as int]@);
            assert(p.drop_first() =~= labels_of(path@).subrange(from + 1, path@.len() as int));
        }
        let mut anchored: Option<&MatchHit> = None;
        if same_label(self.label.as_str(), path[from]) {
            if path.len() - from <= 1 {
                return Some(self);
            }
            anchored = self.find_path_in(path, from + 1);
        }
        match anchored {
            Some(x) => Some(x),
            None => self.find_path_in(path, from),
        }
    }

    fn find_path_in(&self, path: &[&str], from: usize) -> (r: Option<&MatchHit>)
        requires
            from <= path@.len(),
        ensures
            found(r) == path_find_in(
                self.sub_matches@,
                labels_of(path@).subrange(from as int, path@.len() as int),
            ),
        decreases self, 0nat,
    {
        broadcast use vstd::std_specs::vec::axiom_vec_index_decreases;

        let ghost p = labels_of(path@).subrange(from as int, path@.len() as int);
        let ghost subs = self.sub_matches@;
        let mut i: usize = 0;
        proof {
            assert(subs.subrange(0, subs.len() as int) =~= subs);
        }
        while i < self.sub_matches.len()
            invariant
                from <= path@.len(),
                p == labels_of(path@).subrange(from as int, path@.len() as int),
                subs == self.sub_matches@,
                i <= subs.len(),
                path_find_in(subs, p) == path_find_in(subs.subrange(i as int, subs.len() as int), p),
            decreases subs.len() - i,
        {
            proof {
                let rest = subs.subrange(i as int, subs.len() as int);
                assert(rest[0] == subs[i as int]);
                assert(rest.drop_first() =~= subs.subrange(i + 1, subs.len() as int));
            }
            match self.sub_matches[i].find_path(path, from) {
                Some(x) => {
                    return Some(x);
                },
                None => {},
            }
            i = i + 1;
        }
        None
    }
}

/// Whether two labels are the same.
fn same_label(a: &str, b: &str) -> (r: bool)
    ensures
        r == (a@ == b@),
{
    let x = a.to_owned();
    let y = b.to_owned();
    x == y
}

/// The nodes that a search returned.
pub open spec fn found_all(r: Seq<&MatchHit>) -> Seq<MatchHit> {
    r.map_values(|x: &MatchHit| *x)
}

/// The nodes of `nodes` at the places where `keep` is `true`, in order.
pub open spec fn select(nodes: Seq<MatchHit>, keep: Seq<bool>) -> Seq<MatchHit>
    decreases nodes.len(),
{
    if nodes.len() == 0 {
        Seq::empty()
    } else {
        select(nodes.drop_last(), keep.drop_last()) + if keep.last() {
            seq![nodes.last()]
        } else {
            Seq::empty()
        }
    }
}

/// `keep` holds an answer of `filter` on each of `nodes`.
pub open spec fn answers<F: Fn(&MatchHit) -> bool>(
    filter: F,
    nodes: Seq<MatchHit>,
    keep: Seq<bool>,
) -> bool {
    keep.len() == nodes.len() && forall|j: int|
        0 <= j < nodes.len() ==> call_ensures(filter, (&nodes[j],), #[trigger] keep[j])
}

/// The lines of the label outline of `h`: each labelled node, in pre-order, on a line of its
/// own after one `"| "` for each labelled node above it.
pub open spec fn outline(h: Hit, indent: Seq<char>) -> Seq<Seq<char>>
    decreases h,
{
    if h.label.len() > 0 {
        seq![indent + h.label] + outline_all(h.children, indent + seq!['|', ' '])
    } else {
        outline_all(h.children, indent)
    }
}

/// The outlines of each of `s` in turn.
pub open spec fn outline_all(s: Seq<Hit>, indent: Seq<char>) -> Seq<Seq<char>>
    decreases s,
{
    if s.len() == 0 {
        Seq::empty()
    } else {
        outline_all(s.drop_last(), indent) + outline(s.last(), indent)
    }
}

/// Lines joined by line feeds.
pub open spec fn joined(lines: Seq<Seq<char>>) -> Seq<char>
    decreases lines.len(),
{
    if lines.len() == 0 {
        Seq::empty()
    } else if lines.len() == 1 {
        lines[0]
    } else {
        joined(lines.drop_last()) + seq!['\n'] + lines.last()
    }
}

/// The values of a sequence of strings.
pub open spec fn string_views(s: Seq<String>) -> Seq<Seq<char>> {
    s.map_values(|x: String| x@)
}

proof fn lemma_select_step(nodes: Seq<MatchHit>, keep: Seq<bool>, x: MatchHit, b: bool)
    requires
        keep.len() == nodes.len(),
    ensures
        select(nodes.push(x), keep.push(b)) == select(nodes, keep) + if b {
            seq![x]
        } else {
            Seq::<MatchHit>::empty()
        },
{
    assert(nodes.push(x).drop_last() =~= nodes);
    assert(keep.push(b).drop_last() =~= keep);
}

proof fn lemma_select_concat(a: Seq<MatchHit>, ka: Seq<bool>, b: Seq<MatchHit>, kb: Seq<bool>)
    requires
        ka.len() == a.len(),
        kb.len() == b.len(),
    ensures
        select(a + b, ka + kb) == select(a, ka) + select(b, kb),
    decreases b.len(),
{
    if b.len() == 0 {
        assert(a + b =~= a);
        assert(ka + kb =~= ka);
        assert(select(a, ka) + select(b, kb) =~= select(a, ka));
    } else {
        lemma_select_concat(a, ka, b.drop_last(), kb.drop_last());
        assert((a + b).drop_last() =~= a + b.drop_last());
        assert((ka + kb).drop_last() =~= ka + kb.drop_last());
        assert(select(a, ka) + select(b.drop_last(), kb.drop_last()) + (if kb.last() {
            seq![b.last()]
        } else {
            Seq::<MatchHit>::empty()
        }) =~= select(a, ka) + select(b, kb));
    }
}

impl MatchHit {
    /// Every node, in pre-order and this node included, on which `filter` is `true`.
    pub fn find_children<F: Fn(&MatchHit) -> bool>(&self, filter: F) -> (r: Vec<&MatchHit>)
        requires
            forall|h: &MatchHit| call_requires(filter, (h,)),
        ensures
            exists|keep: Seq<bool>|
                answers(filter, preorder(*self), keep) && found_all(r@) == select(
                    preorder(*self),
                    keep,
                ),
    {
        let mut out: Vec<&MatchHit> = Vec::new();
        let keep = self.collect_into(&filter, &mut out);
        proof {
            assert(found_all(out@) =~= found_all(Seq::<&MatchHit>::empty()) + select(
                preorder(*self),
                keep@,
            ));
        }
        out
    }

    fn collect_into<'a, F: Fn(&MatchHit) -> bool>(
        &'a self,
        filter: &F,
        out: &mut Vec<&'a MatchHit>,
    ) -> (keep: Ghost<Seq<bool>>)
        requires
            forall|h: &MatchHit| call_requires(*filter, (h,)),
        ensures
            answers(*filter, preorder(*self), keep@),
            found_all(final(out)@) == found_all(old(out)@) + select(preorder(*self), keep@),
        decreases self,
    {
        broadcast use vstd::std_specs::vec::axiom_vec_index_decreases;

        let ghost start = found_all(out@);
        let ghost subs = self.sub_matches@;
        let own = filter(self);
        if own {
            out.push(self);
        }
        let ghost mut keep: Seq<bool> = seq![own];
        proof {
            assert(select(seq![*self], seq![own]) =~= if own {
                seq![*self]
            } else {
                Seq::<MatchHit>::empty()
            }) by {
                lemma_select_step(Seq::<MatchHit>::empty(), Seq::<bool>::empty(), *self, own);
                assert(Seq::<MatchHit>::empty().push(*self) =~= seq![*self]);
                assert(Seq::<bool>::empty().push(own) =~= seq![own]);
                assert(select(Seq::<MatchHit>::empty(), Seq::<bool>::empty()) =~= Seq::<MatchHit>::empty());
            }
            assert(found_all(out@) =~= start + select(seq![*self], keep));
            assert(subs.subrange(0, 0) =~= Seq::<MatchHit>::empty());
            assert(seq![*self] + preorder_all(subs.subrange(0, 0)) =~= seq![*self]);
        }
        let mut i: usize = 0;
        while i < self.sub_matches.len()
            invariant
                forall|h: &MatchHit| call_requires(*filter, (h,)),
                subs == self.sub_matches@,
                i <= subs.len(),
                answers(*filter, seq![*self] + preorder_all(subs.subrange(0, i as int)), keep),
                found_all(out@) == start + select(
                    seq![*self] + preorder_all(subs.subrange(0, i as int)),
                    keep,
                ),
            decreases subs.len() - i,
        {
            let ghost done = seq![*self] + preorder_all(subs.subrange(0, i as int));
            let ghost before = out@;
            let more = self.sub_matches[i].collect_into(filter, out);
            proof {
                lemma_preorder_all_step(subs, i as int);
                let mine = preorder(subs[i as int]);
                assert(seq![*self] + preorder_all(subs.subrange(0, i + 1)) =~= done + mine);
                lemma_select_concat(done, keep, mine, more@);
                assert forall|j: int| 0 <= j < (done + mine).len() implies call_ensures(
                    *filter,
                    (&(done + mine)[j],),
                    #[trigger] (keep + more@)[j],
                ) by {
                    if j >= done.len() {
                        assert((done + mine)[j] == mine[j - done.len()]);
                        assert((keep + more@)[j] == more@[j - done.len()]);
                    } else {
                        assert((done + mine)[j] == done[j]);
                        assert((keep + more@)[j] == keep[j]);
                    }
                }
                keep = keep + more@;
            }
            i = i + 1;
        }
        proof {
            assert(subs.subrange(0, i as int) =~= subs);
        }
        Ghost(keep)
    }

    /// The labels of the tree, one line for each labelled node in pre-order, each indented by
    /// one `"| "` for each labelled node above it.
    pub fn type_name_tree(&self) -> (r: String)
        ensures
            r@ == joined(outline(self@, Seq::empty())),
    {
        let mut lines: Vec<String> = Vec::new();
        let indent = String::new();
        self.outline_into(&indent, &mut lines);
        proof {
            assert(string_views(lines@) =~= outline(self@, Seq::empty()));
        }
        let mut r = String::new();
        let mut i: usize = 0;
        proof {
            assert(r@ =~= joined(string_views(lines@).subrange(0, 0)));
        }
        while i < lines.len()
            invariant
                i <= lines@.len(),
                r@ == joined(string_views(lines@).subrange(0, i as int)),
            decreases lines@.len() - i,
        {
            let ghost ls = string_views(lines@);
            proof {
                assert(ls.subrange(0, i + 1).drop_last() =~= ls.subrange(0, i as int));
                assert(ls.subrange(0, i + 1).last() == lines@[i as int]@);
            }
            if i > 0 {
                r.append("\n");
                proof {
                    reveal_strlit("\n");
                    assert("\n"@ =~= seq!['\n']);
                }
            }
            r.append(lines[i].as_str());
            proof {
                if i == 0 {
                    assert(r@ =~= ls.subrange(0, 1)[0]);
                }
            }
            i = i + 1;
        }
        proof {
            assert(string_views(lines@).subrange(0, i as int) =~= string_views(lines@));
        }
        r
    }

    fn outline_into(&self, indent: &String, out: &mut Vec<String>)
        ensures
            string_views(final(out)@) == string_views(old(out)@) + outline(self@, indent@),
        decreases self,
    {
        broadcast use vstd::std_specs::vec::axiom_vec_index_decreases;

        let ghost start = string_views(out@);
        let ghost kids = hit_views(self.sub_matches@);
        let mut inner = indent.clone();
        if !self.label.as_str().is_empty() {
            let mut line = indent.clone();
            line.append(self.label.as_str());
            out.push(line);
            inner.append("| ");
            proof {
                reveal_strlit("| ");
                assert("| "@ =~= seq!['|', ' ']);
                assert(string_views(out@) =~= start + seq![indent@ + self.label@]);
            }
        }
        let ghost head = string_views(out@);
        proof {
            lemma_hit_views(self.sub_matches@);
            assert(kids.subrange(0, 0) =~= Seq::<Hit>::empty());
            assert(head + outline_all(kids.subrange(0, 0), inner@) =~= head);
        }
        let mut i: usize = 0;
        while i < self.sub_matches.len()
            invariant
                kids == hit_views(self.sub_matches@),
                kids.len() == self.sub_matches@.len(),
                i <= kids.len(),
                string_views(out@) == head + outline_all(kids.subrange(0, i as int), inner@),
            decreases kids.len() - i,
        {
            self.sub_matches[i].outline_into(&inner, out);
            proof {
                lemma_hit_views(self.sub_matches@);
                assert(kids.subrange(0, i + 1).drop_last() =~= kids.subrange(0, i as int));
                assert(kids.subrange(0, i + 1).last() == self.sub_matches@[i as int]@);
                assert(head + outline_all(kids.subrange(0, i + 1), inner@) =~= head
                    + outline_all(kids.subrange(0, i as int), inner@) + outline(
                    self.sub_matches@[i as int]@,
                    inner@,
                ));
            }
            i = i + 1;
        }
        proof {
            assert(kids.subrange(0, i as int) =~= kids);
            assert(kids == self@.children);
        }
    }

    /// Calls `action` on this node and every node below it, in pre-order.
    pub fn execute_recursive<F: Fn(&MatchHit)>(&self, action: F)
        requires
            forall|h: &MatchHit| call_requires(action, (h,)),
    {
        self.visit(&action);
    }

    fn visit<F: Fn(&MatchHit)>(&self, action: &F)
        requires
            forall|h: &MatchHit| call_requires(*action, (h,)),
        decreases self,
    {
        broadcast use vstd::std_specs::vec::axiom_vec_index_decreases;

        action(self);
        let mut i: usize = 0;
        while i < self.sub_matches.len()
            invariant
                forall|h: &MatchHit| call_requires(*action, (h,)),
            decreases self.sub_matches@.len() - i,
        {
            self.sub_matches[i].visit(action);
            i = i + 1;
        }
    }
}

impl Clone for MatchHit {
    fn clone(&self) -> (r: Self)
        ensures
            r@ == self@,
        decreases self,
    {
        broadcast use vstd::std_specs::vec::axiom_vec_index_decreases;

        let mut subs: Vec<MatchHit> = Vec::new();
        let mut i: usize = 0;
        while i < self.sub_matches.len()
            invariant
                i <= self.sub_matches@.len(),
                subs@.len() == i,
                forall|j: int| 0 <= j < i ==> #[trigger] subs@[j]@ == self.sub_matches@[j]@,
            decreases self.sub_matches@.len() - i,
        {
            subs.push(self.sub_matches[i].clone());
            i = i + 1;
        }
        proof {
            lemma_hit_views(subs@);
            lemma_hit_views(self.sub_matches@);
            assert(hit_views(subs@) =~= hit_views(self.sub_matches@));
        }
        MatchHit {
            label: self.label.clone(),
            length: self.length,
            contents: self.contents.clone(),
            sub_matches: subs,
        }
    }
}

/// `new` is `old` with the contents of every node labelled `label` replaced by what `f`
/// returned on them; all else is kept.
pub open spec fn rewritten<F: Fn(&str) -> String>(
    f: F,
    label: Seq<char>,
    old: Hit,
    new: Hit,
) -> bool
    decreases old, 1nat,
{
    &&& new.label == old.label
    &&& new.length == old.length
    &&& if old.label == label {
        exists|x: &str, r: String| x@ == old.contents && call_ensures(f, (x,), r) && new.contents == r@
    } else {
        new.contents == old.contents
    }
    &&& rewritten_all(f, label, old.children, new.children)
}

/// Each of `new` is the node of `old` at the same place, rewritten.
pub open spec fn rewritten_all<F: Fn(&str) -> String>(
    f: F,
    label: Seq<char>,
    old: Seq<Hit>,
    new: Seq<Hit>,
) -> bool
    decreases old, 0nat,
{
    old.len() == new.len() && (old.len() == 0 || (rewritten_all(
        f,
        label,
        old.drop_last(),
        new.drop_last(),
    ) && rewritten(f, label, old.last(), new.last())))
}

impl MatchHit {
    /// Replaces the contents of every node labelled `label`, this one included, by what `f`
    /// returns on them.
    pub fn rewrite_contents<F: Fn(&str) -> String>(&mut self, label: &str, f: F)
        requires
            forall|x: &str| call_requires(f, (x,)),
        ensures
            rewritten(f, label@, old(self)@, final(self)@),
    {
        *self = rewrite_copy(self, label, &f);
    }
}

fn rewrite_copy<F: Fn(&str) -> String>(h: &MatchHit, label: &str, f: &F) -> (r: MatchHit)
    requires
        forall|x: &str| call_requires(*f, (x,)),
    ensures
        rewritten(*f, label@, h@, r@),
    decreases h,
{
    broadcast use vstd::std_specs::vec::axiom_vec_index_decreases;

    let ghost subs = h.sub_matches@;
    let contents = if same_label(h.label.as_str(), label) {
        let x = h.contents.as_str();
        let c = f(x);
        proof {
            assert(x@ == h@.contents && call_ensures(*f, (x,), c));
        }
        c
    } else {
        h.contents.clone()
    };
    let mut done: Vec<MatchHit> = Vec::new();
    let mut k: usize = 0;
    proof {
        assert(hit_views(subs.subrange(0, 0)) =~= Seq::<Hit>::empty());
        lemma_hit_views(done@);
        assert(hit_views(done@) =~= Seq::<Hit>::empty());
    }
    while k < h.sub_matches.len()
        invariant
            forall|x: &str| call_requires(*f, (x,)),
            subs == h.sub_matches@,
            k <= subs.len(),
            rewritten_all(*f, label@, hit_views(subs.subrange(0, k as int)), hit_views(done@)),
        decreases subs.len() - k,
    {
        let c2 = rewrite_copy(&h.sub_matches[k], label, f);
        let ghost done0 = done@;
        done.push(c2);
        proof {
            lemma_hit_views_push(done0, c2);
            assert(subs.subrange(0, k + 1) =~= subs.subrange(0, k as int).push(subs[k as int]));
            lemma_hit_views_push(subs.subrange(0, k as int), subs[k as int]);
            let o = hit_views(subs.subrange(0, k + 1));
            let n = hit_views(done@);
            lemma_hit_views(subs.subrange(0, k + 1));
            lemma_hit_views(done@);
            assert(o.drop_last() =~= hit_views(subs.subrange(0, k as int)));
            assert(n.drop_last() =~= hit_views(done0));
        }
        k = k + 1;
    }
    proof {
        assert(subs.subrange(0, k as int) =~= subs);
    }
    MatchHit { label: h.label.clone(), length: h.length, contents, sub_matches: done }
}

} // verus!
