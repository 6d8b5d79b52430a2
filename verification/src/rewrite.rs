//! The URL rewriter. Given the rule set and a text, it decides whether the
//! text is a URL with a host, strips every query parameter that some
//! matching rule names, and reconstructs the URL only when a parameter was
//! actually removed — otherwise the original text is kept byte for byte.
//! Rewriting its own output changes nothing, which is what keeps the
//! coordinator from re-triggering itself forever.

use vstd::prelude::*;

use crate::rules::{strips_key, Config, RulePat};
use crate::urlparts::{
    parse_url_parts, rebuild_with_pairs, rebuild_without_query, url_parse, url_with_pairs,
    url_without_query, UrlModel,
};

verus! {

/// The outcome of a rewrite attempt: the text is either kept as it is, or
/// replaced by the rewritten URL.
pub enum RewriteOutcome {
    Unchanged,
    Changed(String),
}

/// The outcome at the specification level.
pub enum OutcomeModel {
    Unchanged,
    Changed(Seq<char>),
}

impl View for RewriteOutcome {
    type V = OutcomeModel;

    open spec fn view(&self) -> OutcomeModel {
        match self {
            RewriteOutcome::Unchanged => OutcomeModel::Unchanged,
            RewriteOutcome::Changed(s) => OutcomeModel::Changed(s@),
        }
    }
}

/// The predicate that keeps a query pair: no rule that matches `host`
/// names the pair's key.
pub open spec fn keeps(rules: Seq<RulePat>, host: Seq<char>) -> spec_fn(
    (Seq<char>, Seq<char>),
) -> bool {
    |p: (Seq<char>, Seq<char>)| !strips_key(rules, host, p.0)
}

/// The query pairs that survive the rules on `host`, in their original
/// relative order.
pub open spec fn retained_pairs(
    rules: Seq<RulePat>,
    host: Seq<char>,
    pairs: Seq<(Seq<char>, Seq<char>)>,
) -> Seq<(Seq<char>, Seq<char>)> {
    pairs.filter(keeps(rules, host))
}

/// What rewriting yields: non-URL text and hostless URLs pass through
/// unchanged; otherwise the URL is rebuilt from the retained pairs, with no
/// query component at all when none survives, and the text counts as
/// unchanged exactly when every pair survives.
pub open spec fn rewrite_spec(rules: Seq<RulePat>, text: Seq<char>) -> OutcomeModel {
    match url_parse(text) {
        Option::None => OutcomeModel::Unchanged,
        Option::Some(m) => match m.host {
            Option::None => OutcomeModel::Unchanged,
            Option::Some(h) => {
                let kept = retained_pairs(rules, h, m.pairs);
                if kept == m.pairs {
                    OutcomeModel::Unchanged
                } else if kept.len() == 0 {
                    OutcomeModel::Changed(url_without_query(text))
                } else {
                    OutcomeModel::Changed(url_with_pairs(text, kept))
                }
            },
        },
    }
}

proof fn lemma_filter_push<A>(s: Seq<A>, x: A, pred: spec_fn(A) -> bool)
    ensures
        pred(x) ==> (s.push(x)).filter(pred) == s.filter(pred).push(x),
        !pred(x) ==> (s.push(x)).filter(pred) == s.filter(pred),
{
    reveal(Seq::filter);
    assert((s.push(x)).drop_last() =~= s);
    assert((s.push(x)).last() == x);
}

proof fn lemma_filter_idempotent<A>(s: Seq<A>, pred: spec_fn(A) -> bool)
    ensures
        s.filter(pred).filter(pred) == s.filter(pred),
    decreases s.len(),
{
    reveal(Seq::filter);
    if s.len() == 0 {
    } else {
        let d = s.drop_last();
        let l = s.last();
        lemma_filter_idempotent(d, pred);
        if pred(l) {
            lemma_filter_push(d.filter(pred), l, pred);
        }
    }
}

proof fn lemma_filter_all_kept<A>(s: Seq<A>, pred: spec_fn(A) -> bool)
    requires
        s.filter(pred).len() == s.len(),
    ensures
        s.filter(pred) == s,
    decreases s.len(),
{
    reveal(Seq::filter);
    if s.len() == 0 {
        assert(s.filter(pred) =~= s);
    } else {
        let d = s.drop_last();
        let l = s.last();
        d.lemma_filter_len(pred);
        if pred(l) {
            lemma_filter_all_kept(d, pred);
            assert(s.filter(pred) =~= s);
        } else {
            assert(false);
        }
    }
}

proof fn lemma_filter_elem<A>(s: Seq<A>, pred: spec_fn(A) -> bool, i: int)
    requires
        0 <= i < s.filter(pred).len(),
    ensures
        exists|a: int| 0 <= a < s.len() && s[a] == s.filter(pred)[i],
    decreases s.len(),
{
    reveal(Seq::filter);
    s.lemma_filter_len(pred);
    let d = s.drop_last();
    let l = s.last();
    let f = s.filter(pred);
    let fd = d.filter(pred);
    if pred(l) && i == fd.len() {
        assert(0 <= s.len() - 1 < s.len() && s[s.len() - 1] == f[i]);
    } else {
        lemma_filter_elem(d, pred, i);
        let a = choose|a: int| 0 <= a < d.len() && d[a] == fd[i];
        assert(0 <= a < s.len() && s[a] == f[i]);
    }
}

proof fn lemma_filter_subsequence<A>(s: Seq<A>, pred: spec_fn(A) -> bool, i: int, j: int)
    requires
        0 <= i < j < s.filter(pred).len(),
    ensures
        exists|a: int, b: int|
            0 <= a < b < s.len() && s[a] == s.filter(pred)[i] && s[b] == s.filter(pred)[j],
    decreases s.len(),
{
    reveal(Seq::filter);
    s.lemma_filter_len(pred);
    let d = s.drop_last();
    let l = s.last();
    let f = s.filter(pred);
    let fd = d.filter(pred);
    if pred(l) && j == fd.len() {
        lemma_filter_elem(d, pred, i);
        let a = choose|a: int| 0 <= a < d.len() && d[a] == fd[i];
        assert(0 <= a < s.len() - 1 < s.len() && s[a] == f[i] && s[s.len() - 1] == f[j]);
    } else {
        lemma_filter_subsequence(d, pred, i, j);
        let (a, b) = choose|a: int, b: int|
            0 <= a < b < d.len() && d[a] == fd[i] && d[b] == fd[j];
        assert(0 <= a < b < s.len() && s[a] == f[i] && s[b] == f[j]);
    }
}

/// Retained query parameters keep their original relative order: any two
/// retained pairs stand at positions of the original query in the same
/// order as they stand among the survivors.
pub proof fn lemma_retained_order_preserved(
    rules: Seq<RulePat>,
    host: Seq<char>,
    pairs: Seq<(Seq<char>, Seq<char>)>,
    i: int,
    j: int,
)
    requires
        0 <= i < j < retained_pairs(rules, host, pairs).len(),
    ensures
        exists|a: int, b: int|
            0 <= a < b < pairs.len() && pairs[a] == retained_pairs(rules, host, pairs)[i]
                && pairs[b] == retained_pairs(rules, host, pairs)[j],
{
    lemma_filter_subsequence(pairs, keeps(rules, host), i, j);
}

/// The query pairs of `pairs` whose keys no applicable rule strips on
/// `host`, in their original order.
fn retain_pairs(config: &Config, host: &str, pairs: &Vec<(String, String)>) -> (kept: Vec<
    (String, String),
>)
    ensures
        kept.deep_view() == retained_pairs(config@, host@, pairs.deep_view()),
{
    let ghost pairs_v = pairs.deep_view();
    let mut kept: Vec<(String, String)> = Vec::new();
    let mut idx: usize = 0;
    proof {
        reveal(Seq::filter);
        assert(pairs_v.subrange(0, 0) =~= Seq::<(Seq<char>, Seq<char>)>::empty());
        assert(kept.deep_view() =~= pairs_v.subrange(0, 0).filter(keeps(config@, host@)));
    }
    while idx < pairs.len()
        invariant
            pairs_v == pairs.deep_view(),
            pairs_v.len() == pairs@.len(),
            idx <= pairs.len(),
            kept.deep_view() == pairs_v.subrange(0, idx as int).filter(keeps(config@, host@)),
        decreases pairs.len() - idx,
    {
        let p = &pairs[idx];
        let ghost prefix = pairs_v.subrange(0, idx as int);
        let ghost kept_before = kept.deep_view();
        proof {
            assert(pairs_v[idx as int] == (pairs@[idx as int].0@, pairs@[idx as int].1@));
            lemma_filter_push(prefix, pairs_v[idx as int], keeps(config@, host@));
            assert(pairs_v.subrange(0, idx as int + 1) =~= prefix.push(pairs_v[idx as int]));
        }
        let stripped = config.strips(host, p.0.as_str());
        if !stripped {
            kept.push((p.0.clone(), p.1.clone()));
            proof {
                assert(kept.deep_view() =~= kept_before.push(pairs_v[idx as int]));
            }
        }
        idx = idx + 1;
    }
    proof {
        assert(pairs_v.subrange(0, pairs_v.len() as int) =~= pairs_v);
    }
    kept
}

/// Rewrites `text` as `rewrite_spec` says. The second clause is the
/// recursion breaker: a changed result, rewritten again under the same
/// rules, is always reported unchanged. The third clause ties the emitted
/// string to its structure: a changed result still parses, with the same
/// host and with exactly the retained pairs as its query.
pub fn rewrite(config: &Config, text: &str) -> (r: RewriteOutcome)
    ensures
        r@ == rewrite_spec(config@, text@),
        r matches RewriteOutcome::Changed(s) ==> rewrite_spec(config@, s@)
            == OutcomeModel::Unchanged,
        r matches RewriteOutcome::Changed(s) ==> (url_parse(text@) matches Some(m) && (m.host
            matches Some(h) && url_parse(s@) == Some(
            UrlModel { host: m.host, pairs: retained_pairs(config@, h, m.pairs) },
        ))),
{
    let parts = match parse_url_parts(text) {
        Option::None => {
            return RewriteOutcome::Unchanged;
        },
        Option::Some(p) => p,
    };
    let host = match &parts.host {
        Option::None => {
            return RewriteOutcome::Unchanged;
        },
        Option::Some(h) => h,
    };
    let ghost m = parts@;
    let kept = retain_pairs(config, host.as_str(), &parts.pairs);
    if kept.len() == parts.pairs.len() {
        proof {
            lemma_filter_all_kept(m.pairs, keeps(config@, host@));
        }
        RewriteOutcome::Unchanged
    } else if kept.len() == 0 {
        let out = rebuild_without_query(text);
        proof {
            reveal(Seq::filter);
            assert(retained_pairs(config@, host@, Seq::<(Seq<char>, Seq<char>)>::empty())
                =~= Seq::<(Seq<char>, Seq<char>)>::empty());
            assert(retained_pairs(config@, host@, m.pairs) =~= Seq::<(Seq<char>, Seq<char>)>::empty());
        }
        RewriteOutcome::Changed(out)
    } else {
        let out = rebuild_with_pairs(text, &kept);
        proof {
            lemma_filter_idempotent(m.pairs, keeps(config@, host@));
        }
        RewriteOutcome::Changed(out)
    }
}

} // verus!
