//! Properties of resolution that hold for every document.
use vstd::prelude::*;
use crate::config::{
    encode_maps, maps_view, override_job, override_text, plain_job, resolve_text, resolved_jobs, setting,
    text_or_empty, token_of, Field, JobView, LanguageMapData, OverrideView, Settings,
};
use crate::text::{contains, occurs_at, replace_all};

verus! {

/// Text in which `pat` does not occur is left as it is.
pub proof fn lemma_replace_absent(s: Seq<char>, pat: Seq<char>, rep: Seq<char>)
    requires
        pat.len() > 0,
        !contains(s, pat),
    ensures
        replace_all(s, pat, rep) == s,
    decreases s.len(),
{
    if s.len() > 0 {
        assert(!occurs_at(s, 0, pat));
        let t = s.drop_first();
        assert(!contains(t, pat)) by {
            if contains(t, pat) {
                let i = choose|i: int| occurs_at(t, i, pat);
                assert(s.subrange(i + 1, i + 1 + pat.len()) =~= t.subrange(i, i + pat.len()));
                assert(occurs_at(s, i + 1, pat));
            }
        }
        lemma_replace_absent(t, pat, rep);
        assert(seq![s[0]] + t =~= s);
    }
}

/// A leading text none of whose characters starts `pat` is left as it is,
/// and the rest is rewritten on its own.
pub proof fn lemma_replace_after_prefix(a: Seq<char>, rest: Seq<char>, pat: Seq<char>, rep: Seq<char>)
    requires
        pat.len() > 0,
        forall|k: int| 0 <= k < a.len() ==> a[k] != pat[0],
    ensures
        replace_all(a + rest, pat, rep) == a + replace_all(rest, pat, rep),
    decreases a.len(),
{
    if a.len() > 0 {
        let s = a + rest;
        assert(!occurs_at(s, 0, pat)) by {
            if occurs_at(s, 0, pat) {
                assert(s.subrange(0, pat.len() as int)[0] == s[0]);
            }
        }
        assert(s.drop_first() =~= a.drop_first() + rest);
        lemma_replace_after_prefix(a.drop_first(), rest, pat, rep);
        assert(seq![a[0]] + (a.drop_first() + replace_all(rest, pat, rep)) =~= a + replace_all(
            rest,
            pat,
            rep,
        ));
    }
}

/// A field's resolved value is the override's text for it resolved against
/// the inherited value, for every field.
pub proof fn lemma_field_resolution(o: OverrideView, d: Settings, f: Field)
    ensures
        setting(override_job(o, d).settings, f) == resolve_text(
            override_text(o, f),
            token_of(f),
            setting(d, f),
        ),
{
}

/// An override record that sets nothing yields the defaults verbatim, the
/// same job as a plain path.
pub proof fn empty_override_inherits_defaults(path: Seq<char>, d: Settings)
    ensures
        ({
            let o = OverrideView {
                path,
                recurse: None,
                languages: None,
                language_maps: None,
                extras: None,
                exclude: None,
                exclude_exception: None,
            };
            &&& override_job(o, d) == JobView { path, settings: d }
            &&& override_job(o, d) == plain_job(path, d)
        }),
{
}

/// Override text that does not hold its field's placeholder is the resolved
/// value exactly (empty text is excluded: it resolves to no value).
pub proof fn override_text_passes_through(o: OverrideView, d: Settings, f: Field, t: Seq<char>)
    requires
        override_text(o, f) == Some(t),
        t.len() > 0,
        !contains(t, token_of(f)),
    ensures
        setting(override_job(o, d).settings, f) == Some(t),
{
    reveal_strlit("${languages}");
    reveal_strlit("${language_maps}");
    reveal_strlit("${extras}");
    reveal_strlit("${exclude}");
    reveal_strlit("${excludeException}");
    lemma_replace_absent(t, token_of(f), text_or_empty(setting(d, f)));
    lemma_field_resolution(o, d, f);
}

/// `prefix ${extras} suffix` resolves to the inherited extras, or the empty
/// text when there are none, between `prefix ` and ` suffix`.
pub proof fn extras_placeholder_splices_default(o: OverrideView, d: Settings)
    requires
        o.extras == Some("prefix ${extras} suffix"@),
    ensures
        override_job(o, d).settings.extras == Some(
            "prefix "@ + text_or_empty(d.extras) + " suffix"@,
        ),
{
    reveal_strlit("prefix ${extras} suffix");
    reveal_strlit("prefix ");
    reveal_strlit(" suffix");
    reveal_strlit("${extras}");
    let pre = "prefix "@;
    let tok = "${extras}"@;
    let post = " suffix"@;
    let rep = text_or_empty(d.extras);
    assert("prefix ${extras} suffix"@ =~= pre + (tok + post));
    lemma_replace_after_prefix(pre, tok + post, tok, rep);
    let s = tok + post;
    assert(occurs_at(s, 0, tok)) by {
        assert(s.subrange(0, tok.len() as int) =~= tok);
    }
    assert(s.subrange(tok.len() as int, s.len() as int) =~= post);
    lemma_replace_after_prefix(post, Seq::empty(), tok, rep);
    assert(post + Seq::<char>::empty() =~= post);
    assert(replace_all(Seq::<char>::empty(), tok, rep) =~= Seq::<char>::empty());
    assert(pre + (rep + post) =~= pre + rep + post);
}

/// Encoding a language-map list depends on its entries alone: the same
/// entries always give the same text.
pub proof fn language_map_encoding_is_deterministic(a: Seq<LanguageMapData>, b: Seq<LanguageMapData>)
    requires
        maps_view(a) == maps_view(b),
    ensures
        encode_maps(maps_view(a)) == encode_maps(maps_view(b)),
{
}

/// Jobs keep document order: first the plain paths, then the override
/// records, each in its order.
pub proof fn jobs_keep_document_order(d: Settings, paths: Seq<Seq<char>>, overrides: Seq<OverrideView>)
    ensures
        resolved_jobs(d, paths, overrides).len() == paths.len() + overrides.len(),
        forall|i: int| 0 <= i < paths.len() ==> #[trigger] resolved_jobs(d, paths, overrides)[i].path == paths[i],
        forall|k: int|
            0 <= k < overrides.len() ==> #[trigger] resolved_jobs(d, paths, overrides)[paths.len()
                + k].path == overrides[k].path,
{
}

/// Every job carries the document's defines unchanged, whatever its
/// override record holds.
pub proof fn defines_are_document_wide(d: Settings, paths: Seq<Seq<char>>, overrides: Seq<OverrideView>)
    ensures
        forall|i: int|
            0 <= i < resolved_jobs(d, paths, overrides).len() ==> #[trigger] resolved_jobs(
                d,
                paths,
                overrides,
            )[i].settings.defines == d.defines,
{
    let jobs = resolved_jobs(d, paths, overrides);
    assert forall|i: int| 0 <= i < jobs.len() implies #[trigger] jobs[i].settings.defines == d.defines by {
        if i >= paths.len() {
            assert(jobs[i] == override_job(overrides[i - paths.len()], d));
        }
    }
}

} // verus!
