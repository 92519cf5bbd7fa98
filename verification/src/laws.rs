//! Library-wide laws: rendering is pure, composed URLs carry exactly one
//! query marker and exactly one credential fragment, and rebinding
//! parameters leaves no trace of the old ones.

use crate::kernel::{
    base_url_valid, credential_marker, fragment_valid, spec_compose, Aim, Params, SubClient,
};
use crate::text::{
    count_char, count_char_from, lemma_count_char_concat, lemma_count_zero_no_char, matches_at,
    occurs_in,
};
use vstd::prelude::*;

verus! {

/// Rendering is a pure function: any two renders of the same parameter
/// value yield the same character sequence. Since `Params::render` promises
/// its result equals `spec_render`, two calls can never disagree.
pub proof fn lemma_render_pure<P: Params>(p: &P, r1: Seq<char>, r2: Seq<char>)
    requires
        r1 == p.spec_render(),
        r2 == p.spec_render(),
    ensures
        r1 == r2,
{
}

/// Composition is pure: any two URLs composed from the same base,
/// fragment and credential agree. Since `compose` promises its result
/// equals `spec_compose`, no hidden state or clock can slip in.
pub proof fn lemma_compose_pure(
    base: Seq<char>,
    frag: Seq<char>,
    cred: Seq<char>,
    u1: Seq<char>,
    u2: Seq<char>,
)
    requires
        u1 == spec_compose(base, frag, cred),
        u2 == spec_compose(base, frag, cred),
    ensures
        u1 == u2,
{
}

/// Where the credential fragment starts in a composed URL.
pub open spec fn key_index(base: Seq<char>, frag: Seq<char>) -> int {
    if frag.len() == 0 {
        base.len() as int + 1
    } else {
        base.len() as int + 1 + frag.len() as int + 1
    }
}

/// The composed URL starts with the base URL, holds exactly one `?`, and
/// holds the credential marker `api_key=` exactly once: at the position
/// where the composer placed it.
#[verifier::rlimit(100)]
pub proof fn lemma_composed_url_shape(base: Seq<char>, frag: Seq<char>, cred: Seq<char>)
    requires
        base_url_valid(base),
        fragment_valid(frag),
        cred.len() > 0,
        count_char(cred, '?') == 0,
        !occurs_in(cred, credential_marker()),
    ensures
        count_char(spec_compose(base, frag, cred), '?') == 1,
        spec_compose(base, frag, cred).subrange(0, base.len() as int) == base,
        matches_at(spec_compose(base, frag, cred), credential_marker(), key_index(base, frag)),
        forall|i: int|
            matches_at(spec_compose(base, frag, cred), credential_marker(), i) ==> i == key_index(
                base,
                frag,
            ),
{
    let url = spec_compose(base, frag, cred);
    let pat = credential_marker();
    let prefix = if frag.len() == 0 {
        base + "?"@
    } else {
        base + "?"@ + frag + "&"@
    };
    let k = key_index(base, frag);
    reveal_strlit("api_key=");
    reveal_strlit("?");
    reveal_strlit("&");
    reveal_with_fuel(count_char_from, 10);
    assert(pat.len() == 8);
    assert(count_char(pat, '?') == 0);
    assert(count_char(pat, '&') == 0);
    assert("?"@.len() == 1 && "?"@[0] == '?');
    assert("&"@.len() == 1 && "&"@[0] == '&');
    assert(count_char("?"@, '?') == 1);
    assert(count_char("&"@, '?') == 0);

    assert(url =~= prefix + pat + cred);
    assert(prefix.len() == k);
    assert(prefix[base.len() as int] == '?');

    // Exactly one question mark.
    lemma_count_char_concat(prefix + pat, cred, '?');
    lemma_count_char_concat(prefix, pat, '?');
    if frag.len() == 0 {
        lemma_count_char_concat(base, "?"@, '?');
    } else {
        lemma_count_char_concat(base + "?"@ + frag, "&"@, '?');
        lemma_count_char_concat(base + "?"@, frag, '?');
        lemma_count_char_concat(base, "?"@, '?');
    }
    assert(count_char(url, '?') == 1);

    // The URL starts with the base URL.
    assert(url.subrange(0, base.len() as int) =~= base);

    // The credential marker stands where the composer placed it.
    assert forall|t: int| 0 <= t < pat.len() implies url[k + t] == pat[t] by {
        assert(url[k + t] == (prefix + pat + cred)[prefix.len() + t]);
    }
    assert(matches_at(url, pat, k));

    // ... and nowhere else.
    assert forall|i: int| matches_at(url, pat, i) implies i == k by {
        if i < k {
            if i <= base.len() && base.len() < i + 8 {
                // The match would cover the `?`, which the marker lacks.
                let t = base.len() - i;
                assert(url[i + t] == pat[t]);
                assert(url[base.len() as int] == '?');
                lemma_count_zero_no_char(pat, '?', t);
                assert(false);
            } else if i + 8 <= base.len() {
                // The match would lie inside the base URL, which has no `=`.
                assert(url[i + 7] == pat[7]);
                assert(url[i + 7] == base[i + 7]);
                assert(pat[7] == '=');
                lemma_count_zero_no_char(base, '=', i + 7);
                assert(false);
            } else {
                // The match starts after the `?`.
                assert(i > base.len());
                if frag.len() == 0 {
                    assert(false);
                } else if i + 8 <= k - 1 {
                    // Fully inside the fragment, which holds no marker.
                    let j = i - base.len() - 1;
                    assert forall|t: int| 0 <= t < pat.len() implies frag[j + t] == pat[t] by {
                        assert(url[i + t] == pat[t]);
                        assert(url[i + t] == frag[j + t]);
                    }
                    assert(matches_at(frag, pat, j));
                    assert(false);
                } else {
                    // The match would cover the `&`, which the marker lacks.
                    let t = k - 1 - i;
                    assert(url[i + t] == pat[t]);
                    assert(url[k - 1] == '&');
                    lemma_count_zero_no_char(pat, '&', t);
                    assert(false);
                }
            }
        } else if i > k {
            if i >= k + 8 {
                // Fully inside the credential, which holds no marker.
                let j = i - k - 8;
                assert forall|t: int| 0 <= t < pat.len() implies cred[j + t] == pat[t] by {
                    assert(url[i + t] == pat[t]);
                    assert(url[i + t] == cred[j + t]);
                }
                assert(matches_at(cred, pat, j));
                assert(false);
            } else {
                // The match would overlap the marker itself, so the marker
                // would have to repeat its first character, which it does
                // not.
                let d = i - k;
                assert(url[i + 0] == pat[0]);
                assert(url[k + d] == pat[d]);
                assert(pat[1] != pat[0] && pat[2] != pat[0] && pat[3] != pat[0] && pat[4]
                    != pat[0] && pat[5] != pat[0] && pat[6] != pat[0] && pat[7] != pat[0]);
                assert(false);
            }
        }
    }
}

/// For every descriptor and every non-empty credential free of query
/// punctuation, the URL composed from the descriptor's default parameters
/// starts with the descriptor's base URL, holds exactly one `?`, and holds
/// the credential marker exactly once.
pub proof fn lemma_default_query_shape<S: SubClient<P>, P: Params>(cred: Seq<char>)
    requires
        cred.len() > 0,
        count_char(cred, '?') == 0,
        !occurs_in(cred, credential_marker()),
    ensures
        count_char(
            spec_compose(S::spec_base_url(), P::spec_default_render(), cred),
            '?',
        ) == 1,
        spec_compose(S::spec_base_url(), P::spec_default_render(), cred).subrange(
            0,
            S::spec_base_url().len() as int,
        ) == S::spec_base_url(),
        matches_at(
            spec_compose(S::spec_base_url(), P::spec_default_render(), cred),
            credential_marker(),
            key_index(S::spec_base_url(), P::spec_default_render()),
        ),
        forall|i: int|
            matches_at(
                spec_compose(S::spec_base_url(), P::spec_default_render(), cred),
                credential_marker(),
                i,
            ) ==> i == key_index(S::spec_base_url(), P::spec_default_render()),
{
    S::base_url_wf();
    P::default_render_wf();
    lemma_composed_url_shape(S::spec_base_url(), P::spec_default_render(), cred);
}

/// The URL that one execution of an aim composes.
pub open spec fn spec_aim_url<S: SubClient<P>, P: Params>(aim: Aim<S, P>, cred: Seq<char>) -> Seq<
    char,
> {
    spec_compose(S::spec_base_url(), aim.spec_params().spec_render(), cred)
}

/// Rebinding parameters leaves no trace of the old ones: the composed URL
/// depends on the bound parameters' rendering alone, so any two aims whose
/// parameters render alike — in particular an aim freshly rebound by
/// `with_params`, whatever it held before — compose the same URL.
pub proof fn lemma_with_params_overrides<S: SubClient<P>, P: Params>(
    b1: Aim<S, P>,
    b2: Aim<S, P>,
    cred: Seq<char>,
)
    requires
        b1.spec_params().spec_render() == b2.spec_params().spec_render(),
    ensures
        spec_aim_url(b1, cred) == spec_aim_url(b2, cred),
{
}

} // verus!
