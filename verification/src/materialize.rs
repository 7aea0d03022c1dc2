//! The URL/request materializer.
//!
//! Turns a stored [`Request`] definition into a [`RawHttpRequest`] ready
//! for transport: the absolute URL is host + path, followed — only when the
//! query mapping is non-empty — by `?` and the `key=value` pairs joined by
//! `&` in the mapping's iteration order.  Keys and values are emitted
//! without percent-encoding, a deliberate simplification of this service.
//! The protocol version is fixed to `HTTP/1.1`; headers and body are copied
//! verbatim.

use vstd::prelude::*;

use crate::entity::{clone_body, clone_string_pairs, RawHttpRequest, Request};
use crate::json::JsonView;

verus! {

/// The text one query pair contributes: `key=value`.
pub open spec fn pair_text(p: (Seq<char>, JsonView)) -> Seq<char> {
    p.0 + "="@ + p.1.scalar_text()
}

/// The query pairs joined by `&`, in order, one `key=value` per pair.
pub open spec fn query_text(ps: Seq<(Seq<char>, JsonView)>) -> Seq<char>
    decreases ps.len(),
{
    if ps.len() == 0 {
        Seq::<char>::empty()
    } else if ps.len() == 1 {
        pair_text(ps[0])
    } else {
        query_text(ps.drop_last()) + "&"@ + pair_text(ps.last())
    }
}

/// The materialized URL of a definition: `host + path`, with
/// `? + query_text` appended exactly when the query mapping is non-empty.
pub open spec fn url_text(def: Request) -> Seq<char> {
    if def.query.deep_view().len() == 0 {
        def.host@ + def.path@
    } else {
        def.host@ + def.path@ + "?"@ + query_text(def.query.deep_view())
    }
}

/// What materialization promises: the snapshot carries the given row
/// identifier, the definition's method, the materialized URL, the fixed
/// `HTTP/1.1` version label, and the definition's headers and body
/// verbatim.
pub open spec fn materializes(def: Request, raw: RawHttpRequest, id: u64) -> bool {
    &&& raw.id == id
    &&& raw.method@ == def.method@
    &&& raw.url@ == url_text(def)
    &&& raw.version@ == "HTTP/1.1"@
    &&& raw.headers.deep_view() == def.headers.deep_view()
    &&& raw.body.deep_view() == def.body.deep_view()
}

/// Builds the absolute URL of a definition.
pub fn prepare_url(def: &Request) -> (u: String)
    requires
        def.wf(),
    ensures
        u@ == url_text(*def),
{
    let mut u = def.host.clone();
    u.append(def.path.as_str());
    if def.query.len() > 0 {
        u.append("?");
        let ghost qs = def.query.deep_view();
        let mut i: usize = 0;
        while i < def.query.len()
            invariant
                def.wf(),
                qs == def.query.deep_view(),
                0 < qs.len(),
                i <= qs.len(),
                i == 0 ==> u@ == def.host@ + def.path@ + "?"@,
                i > 0 ==> u@ == def.host@ + def.path@ + "?"@ + query_text(
                    qs.subrange(0, i as int),
                ),
            decreases qs.len() - i,
        {
            if i > 0 {
                u.append("&");
            }
            u.append(def.query[i].0.as_str());
            u.append("=");
            proof {
                assert(qs[i as int].1 == def.query@[i as int].1.deep_view());
            }
            let val = def.query[i].1.render_scalar();
            u.append(val.as_str());
            proof {
                let prefix = qs.subrange(0, i as int);
                let step = qs.subrange(0, i as int + 1);
                assert(step.drop_last() =~= prefix);
                assert(step.last() == qs[i as int]);
                if i == 0 {
                    assert(query_text(step) == pair_text(qs[0]));
                }
            }
            i = i + 1;
        }
        proof {
            assert(qs.subrange(0, qs.len() as int) =~= qs);
        }
    }
    u
}

/// Materializes a definition into a request snapshot with the identifier
/// still unassigned.
pub fn prepare_request(def: &Request) -> (raw: RawHttpRequest)
    requires
        def.wf(),
    ensures
        materializes(*def, raw, 0),
{
    RawHttpRequest {
        id: 0,
        method: def.method.clone(),
        url: prepare_url(def),
        version: "HTTP/1.1".to_owned(),
        headers: clone_string_pairs(&def.headers),
        body: clone_body(&def.body),
    }
}

/// With an empty query mapping the materialized URL is exactly
/// `host + path`: nothing, in particular no `?`, follows.
pub proof fn lemma_url_empty_query(def: Request)
    requires
        def.query.deep_view().len() == 0,
    ensures
        url_text(def) == def.host@ + def.path@,
{
}

/// With a non-empty query mapping the materialized URL is `host + path`
/// followed by a literal `?` and the `key=value` pairs joined by `&`; the
/// character at the position after `host + path` is `?` itself.
pub proof fn lemma_url_nonempty_query(def: Request)
    requires
        def.query.deep_view().len() > 0,
    ensures
        url_text(def) == def.host@ + def.path@ + "?"@ + query_text(def.query.deep_view()),
        url_text(def).len() > def.host@.len() + def.path@.len(),
        url_text(def)[def.host@.len() + def.path@.len() as int] == '?',
{
    reveal_strlit("?");
}

/// The combined length of the pairs' `key=value` texts.
pub open spec fn pairs_total_len(ps: Seq<(Seq<char>, JsonView)>) -> int
    decreases ps.len(),
{
    if ps.len() == 0 {
        0
    } else {
        pairs_total_len(ps.drop_last()) + pair_text(ps.last()).len()
    }
}

/// The joined query string is exactly as long as its pairs plus one `&`
/// between each two: every pair is emitted once and nothing else is.
pub proof fn lemma_query_text_len(ps: Seq<(Seq<char>, JsonView)>)
    requires
        ps.len() > 0,
    ensures
        query_text(ps).len() == pairs_total_len(ps) + ps.len() - 1,
    decreases ps.len(),
{
    reveal_strlit("&");
    if ps.len() == 1 {
        assert(query_text(ps) == pair_text(ps[0]));
        assert(pairs_total_len(ps) == pairs_total_len(ps.drop_last()) + pair_text(
            ps.last(),
        ).len());
        assert(pairs_total_len(ps.drop_last()) == 0);
    } else {
        lemma_query_text_len(ps.drop_last());
        assert(query_text(ps) == query_text(ps.drop_last()) + "&"@ + pair_text(ps.last()));
        assert("&"@.len() == 1);
    }
}

/// The joined query string covers every pair: for each index there is an
/// offset at which that pair's `key=value` text stands.
pub proof fn lemma_query_text_covers(ps: Seq<(Seq<char>, JsonView)>, i: int)
    requires
        0 <= i < ps.len(),
    ensures
        exists|off: int|
            0 <= off && off + pair_text(ps[i]).len() <= query_text(ps).len() && #[trigger] query_text(
                ps,
            ).subrange(off, off + pair_text(ps[i]).len() as int) == pair_text(ps[i]),
    decreases ps.len(),
{
    let t = query_text(ps);
    let p = pair_text(ps[i]);
    if i == ps.len() - 1 {
        let off = t.len() - p.len();
        if ps.len() == 1 {
            assert(t.subrange(off, off + p.len() as int) =~= p);
        } else {
            assert(t == query_text(ps.drop_last()) + "&"@ + pair_text(ps.last()));
            assert(ps.last() == ps[i]);
            assert(t.subrange(off, off + p.len() as int) =~= p);
        }
        assert(0 <= off && off + p.len() <= t.len() && t.subrange(off, off + p.len() as int)
            == p);
    } else {
        let shorter = ps.drop_last();
        assert(shorter[i] == ps[i]);
        lemma_query_text_covers(shorter, i);
        let off = choose|off: int|
            0 <= off && off + pair_text(shorter[i]).len() <= query_text(shorter).len()
                && #[trigger] query_text(shorter).subrange(
                off,
                off + pair_text(shorter[i]).len() as int,
            ) == pair_text(shorter[i]);
        assert(t == query_text(shorter) + "&"@ + pair_text(ps.last()));
        assert(t.subrange(off, off + p.len() as int) =~= query_text(shorter).subrange(
            off,
            off + p.len() as int,
        ));
        assert(0 <= off && off + p.len() <= t.len() && t.subrange(off, off + p.len() as int)
            == p);
    }
}

} // verus!
