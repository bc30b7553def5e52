//! Profile metadata: an ordered key/value store with the cleaning passes
//! applied before metadata is rendered, and the merge applied by a
//! metadata patch.

use vstd::prelude::*;
use crate::text::{append_str, replace_all, spec_starts_with, str_eq, str_replaced, str_starts_with};

verus! {

/// Free-form profile metadata: ordered key/value entries plus the
/// account's consent flag.
#[derive(Debug)]
pub struct ProfileMetadata {
    /// Key/value entries, in insertion order.
    pub kv: Vec<(String, String)>,
    /// Whether the account consented to the site policies.
    pub policy_consent: bool,
}

/// The character-level value of a key/value entry list.
pub open spec fn kv_pairs(kv: Seq<(String, String)>) -> Seq<(Seq<char>, Seq<char>)> {
    kv.map_values(|p: (String, String)| (p.0@, p.1@))
}

impl ProfileMetadata {
    /// The entries as sequences of characters.
    pub open spec fn kv_view(self) -> Seq<(Seq<char>, Seq<char>)> {
        kv_pairs(self.kv@)
    }
}

/// The rewriting applied to one metadata value by the full cleaning
/// pass: angle brackets escaped, remote image urls routed through the
/// image proxy, style tags dropped.
pub open spec fn cleaned_value(v: Seq<char>) -> Seq<char> {
    str_replaced(
        str_replaced(
            str_replaced(
                str_replaced(
                    str_replaced(str_replaced(v, "<"@, "&lt;"@), ">"@, "&gt;"@),
                    "url(\""@,
                    "url(\"/api/v0/util/ext/image?img="@,
                ),
                "url(https://"@,
                "url(/api/v0/util/ext/image?img=https://"@,
            ),
            "<style>"@,
            ""@,
        ),
        "</style>"@,
        ""@,
    )
}

/// The rewriting applied to one metadata value by the short cleaning
/// pass: angle brackets escaped and style tags dropped.
pub open spec fn cleaned_value_short(v: Seq<char>) -> Seq<char> {
    str_replaced(
        str_replaced(
            str_replaced(str_replaced(v, "<"@, "&lt;"@), ">"@, "&gt;"@),
            "<style>"@,
            ""@,
        ),
        "</style>"@,
        ""@,
    )
}

/// Clean profile metadata: every value rewritten by the full cleaning
/// pass, keys and consent flag unchanged.
#[verifier::loop_isolation(false)]
pub fn clean_metadata_raw(metadata: &ProfileMetadata) -> (r: ProfileMetadata)
    ensures
        r.policy_consent == metadata.policy_consent,
        r.kv_view() == metadata.kv_view().map_values(
            (|p: (Seq<char>, Seq<char>)| (p.0, cleaned_value(p.1))),
        ),
{
    let mut kv: Vec<(String, String)> = Vec::new();
    let n = metadata.kv.len();
    let mut i: usize = 0;
    while i < n
        invariant
            n == metadata.kv@.len(),
            i <= n,
            kv@.len() == i,
            forall|j: int|
                0 <= j < i ==> #[trigger] kv@[j].0@ == metadata.kv@[j].0@ && kv@[j].1@
                    == cleaned_value(metadata.kv@[j].1@),
        decreases n - i,
    {
        let key = metadata.kv[i].0.clone();
        let v0 = &metadata.kv[i].1;
        let a = replace_all(v0.as_str(), "<", "&lt;");
        let b = replace_all(a.as_str(), ">", "&gt;");
        let c = replace_all(b.as_str(), "url(\"", "url(\"/api/v0/util/ext/image?img=");
        let d = replace_all(c.as_str(), "url(https://", "url(/api/v0/util/ext/image?img=https://");
        let e = replace_all(d.as_str(), "<style>", "");
        let f = replace_all(e.as_str(), "</style>", "");
        let ghost prev = kv@;
        let ghost pv = (key@, f@);
        kv.push((key, f));
        proof {
            assert forall|j: int| 0 <= j < i + 1 implies #[trigger] kv@[j].0@ == metadata.kv@[j].0@
                && kv@[j].1@ == cleaned_value(metadata.kv@[j].1@) by {
                if j == i {
                    assert(kv@[j] == (prev.push((key, f)))[j]);
                    assert(kv@[j].0@ == pv.0 && kv@[j].1@ == pv.1);
                } else {
                    assert(kv@[j] == prev[j]);
                }
            }
        }
        i = i + 1;
    }
    let r = ProfileMetadata { kv, policy_consent: metadata.policy_consent };
    proof {
        assert(r.kv_view() =~= metadata.kv_view().map_values(
            (|p: (Seq<char>, Seq<char>)| (p.0, cleaned_value(p.1))),
        ));
    }
    r
}

/// Clean profile metadata, short form: every value rewritten by the
/// short cleaning pass, keys and consent flag unchanged.
#[verifier::loop_isolation(false)]
pub fn clean_metadata_short_raw(metadata: &ProfileMetadata) -> (r: ProfileMetadata)
    ensures
        r.policy_consent == metadata.policy_consent,
        r.kv_view() == metadata.kv_view().map_values(
            (|p: (Seq<char>, Seq<char>)| (p.0, cleaned_value_short(p.1))),
        ),
{
    let mut kv: Vec<(String, String)> = Vec::new();
    let n = metadata.kv.len();
    let mut i: usize = 0;
    while i < n
        invariant
            n == metadata.kv@.len(),
            i <= n,
            kv@.len() == i,
            forall|j: int|
                0 <= j < i ==> #[trigger] kv@[j].0@ == metadata.kv@[j].0@ && kv@[j].1@
                    == cleaned_value_short(metadata.kv@[j].1@),
        decreases n - i,
    {
        let key = metadata.kv[i].0.clone();
        let v0 = &metadata.kv[i].1;
        let a = replace_all(v0.as_str(), "<", "&lt;");
        let b = replace_all(a.as_str(), ">", "&gt;");
        let c = replace_all(b.as_str(), "<style>", "");
        let d = replace_all(c.as_str(), "</style>", "");
        let ghost prev = kv@;
        let ghost pv = (key@, d@);
        kv.push((key, d));
        proof {
            assert forall|j: int| 0 <= j < i + 1 implies #[trigger] kv@[j].0@ == metadata.kv@[j].0@
                && kv@[j].1@ == cleaned_value_short(metadata.kv@[j].1@) by {
                if j == i {
                    assert(kv@[j] == (prev.push((key, d)))[j]);
                    assert(kv@[j].0@ == pv.0 && kv@[j].1@ == pv.1);
                } else {
                    assert(kv@[j] == prev[j]);
                }
            }
        }
        i = i + 1;
    }
    let r = ProfileMetadata { kv, policy_consent: metadata.policy_consent };
    proof {
        assert(r.kv_view() =~= metadata.kv_view().map_values(
            (|p: (Seq<char>, Seq<char>)| (p.0, cleaned_value_short(p.1))),
        ));
    }
    r
}

/// The entries after storing `val` under `key`: the first entry with the
/// key is replaced in place, or the pair is appended when the key is new.
pub open spec fn spec_upsert(
    kv: Seq<(Seq<char>, Seq<char>)>,
    key: Seq<char>,
    val: Seq<char>,
) -> Seq<(Seq<char>, Seq<char>)>
    decreases kv.len(),
{
    if kv.len() == 0 {
        seq![(key, val)]
    } else if kv[0].0 == key {
        seq![(key, val)] + kv.drop_first()
    } else {
        seq![kv[0]] + spec_upsert(kv.drop_first(), key, val)
    }
}

/// The entries after storing every entry of `patch` into `base`, in
/// order.
pub open spec fn spec_merge(
    base: Seq<(Seq<char>, Seq<char>)>,
    patch: Seq<(Seq<char>, Seq<char>)>,
) -> Seq<(Seq<char>, Seq<char>)>
    decreases patch.len(),
{
    if patch.len() == 0 {
        base
    } else {
        spec_merge(spec_upsert(base, patch[0].0, patch[0].1), patch.drop_first())
    }
}

proof fn lemma_upsert_found(kv: Seq<(Seq<char>, Seq<char>)>, key: Seq<char>, val: Seq<char>, i: int)
    requires
        0 <= i < kv.len(),
        kv[i].0 == key,
        forall|j: int| 0 <= j < i ==> kv[j].0 != key,
    ensures
        spec_upsert(kv, key, val) == kv.update(i, (key, val)),
    decreases i,
{
    if i == 0 {
        assert(spec_upsert(kv, key, val) =~= kv.update(0, (key, val)));
    } else {
        assert(kv.drop_first()[i - 1].0 == key);
        lemma_upsert_found(kv.drop_first(), key, val, i - 1);
        assert(seq![kv[0]] + kv.drop_first().update(i - 1, (key, val)) =~= kv.update(
            i,
            (key, val),
        ));
    }
}

proof fn lemma_upsert_missing(kv: Seq<(Seq<char>, Seq<char>)>, key: Seq<char>, val: Seq<char>)
    requires
        forall|j: int| 0 <= j < kv.len() ==> kv[j].0 != key,
    ensures
        spec_upsert(kv, key, val) == kv.push((key, val)),
    decreases kv.len(),
{
    if kv.len() == 0 {
        assert(spec_upsert(kv, key, val) =~= kv.push((key, val)));
    } else {
        lemma_upsert_missing(kv.drop_first(), key, val);
        assert(seq![kv[0]] + kv.drop_first().push((key, val)) =~= kv.push((key, val)));
    }
}

/// Stores `val` under `key`: replaces the value of the first entry with
/// the key, or appends a new entry.
#[verifier::loop_isolation(false)]
fn upsert(kv: &mut Vec<(String, String)>, key: String, val: String)
    ensures
        kv_pairs(final(kv)@) == spec_upsert(
            kv_pairs(old(kv)@),
            key@,
            val@,
        ),
{
    let ghost pre = kv_pairs(old(kv)@);
    let n = kv.len();
    let mut i: usize = 0;
    while i < n
        invariant
            n == kv@.len(),
            i <= n,
            kv@ == old(kv)@,
            forall|j: int| 0 <= j < i ==> pre[j].0 != key@,
        decreases n - i,
    {
        if kv[i].0 == key {
            proof {
                assert(pre[i as int].0 == key@);
            }
            kv.set(i, (key, val));
            proof {
                lemma_upsert_found(pre, key@, val@, i as int);
                assert(kv_pairs(kv@) =~= pre.update(i as int, (key@, val@)));
            }
            return ;
        }
        proof {
            assert(pre[i as int].0 == kv@[i as int].0@);
        }
        i = i + 1;
    }
    kv.push((key, val));
    proof {
        lemma_upsert_missing(pre, key@, val@);
        assert(kv_pairs(kv@) =~= pre.push((key@, val@)));
    }
}

/// Applies a metadata patch: every entry of the patch is stored into the
/// base entries in order, and the consent flag takes the patch's value.
#[verifier::loop_isolation(false)]
pub fn merge_metadata(base: &ProfileMetadata, patch: &ProfileMetadata) -> (r: ProfileMetadata)
    ensures
        r.kv_view() == spec_merge(base.kv_view(), patch.kv_view()),
        r.policy_consent == patch.policy_consent,
{
    let mut kv: Vec<(String, String)> = Vec::new();
    let bn = base.kv.len();
    let mut i: usize = 0;
    while i < bn
        invariant
            bn == base.kv@.len(),
            i <= bn,
            kv@.len() == i,
            forall|j: int|
                0 <= j < i ==> #[trigger] kv@[j].0@ == base.kv@[j].0@ && kv@[j].1@
                    == base.kv@[j].1@,
        decreases bn - i,
    {
        let bk = base.kv[i].0.clone();
        let bv = base.kv[i].1.clone();
        let ghost prev = kv@;
        let ghost pv = (bk@, bv@);
        kv.push((bk, bv));
        proof {
            assert forall|j: int| 0 <= j < i + 1 implies #[trigger] kv@[j].0@ == base.kv@[j].0@
                && kv@[j].1@ == base.kv@[j].1@ by {
                if j == i {
                    assert(kv@[j] == (prev.push((bk, bv)))[j]);
                    assert(kv@[j].0@ == pv.0 && kv@[j].1@ == pv.1);
                } else {
                    assert(kv@[j] == prev[j]);
                }
            }
        }
        i = i + 1;
    }
    proof {
        assert(kv_pairs(kv@) =~= base.kv_view());
    }

    let ghost full_patch = patch.kv_view();
    proof {
        assert(full_patch.skip(0) =~= full_patch);
    }
    let pn = patch.kv.len();
    let mut k: usize = 0;
    while k < pn
        invariant
            pn == patch.kv@.len(),
            k <= pn,
            full_patch == patch.kv_view(),
            spec_merge(base.kv_view(), full_patch) == spec_merge(
                kv_pairs(kv@),
                full_patch.skip(k as int),
            ),
        decreases pn - k,
    {
        upsert(&mut kv, patch.kv[k].0.clone(), patch.kv[k].1.clone());
        proof {
            assert(full_patch.skip(k as int)[0] == full_patch[k as int]);
            assert(full_patch.skip(k as int).drop_first() =~= full_patch.skip(k + 1 as int));
        }
        k = k + 1;
    }
    proof {
        assert(full_patch.skip(pn as int) =~= Seq::<(Seq<char>, Seq<char>)>::empty());
    }
    ProfileMetadata { kv, policy_consent: patch.policy_consent }
}


/// The value stored under `key` by the first entry carrying it, or the
/// empty string.
pub open spec fn spec_soft_get(kv: Seq<(Seq<char>, Seq<char>)>, key: Seq<char>) -> Seq<char>
    decreases kv.len(),
{
    if kv.len() == 0 {
        Seq::empty()
    } else if kv[0].0 == key {
        kv[0].1
    } else {
        spec_soft_get(kv.drop_first(), key)
    }
}

impl ProfileMetadata {
    /// The value stored under `key`, or the empty string when no entry
    /// carries it.
    pub fn soft_get(&self, key: &str) -> (r: String)
        ensures
            r@ == spec_soft_get(self.kv_view(), key@),
    {
        let ghost full = self.kv_view();
        proof {
            assert(full.skip(0) =~= full);
        }
        let n = self.kv.len();
        let mut i: usize = 0;
        while i < n
            invariant
                n == self.kv@.len(),
                i <= n,
                full == self.kv_view(),
                spec_soft_get(full, key@) == spec_soft_get(full.skip(i as int), key@),
            decreases n - i,
        {
            proof {
                assert(full.skip(i as int)[0] == full[i as int]);
                assert(full[i as int] == (self.kv@[i as int].0@, self.kv@[i as int].1@));
            }
            if str_eq(self.kv[i].0.as_str(), key) {
                return self.kv[i].1.clone();
            }
            proof {
                assert(full.skip(i as int).drop_first() =~= full.skip(i + 1 as int));
            }
            i = i + 1;
        }
        proof {
            assert(full.skip(n as int) =~= Seq::<(Seq<char>, Seq<char>)>::empty());
        }
        String::new()
    }
}

/// The prefix of the metadata keys that carry profile colors.
pub open spec fn color_key_prefix() -> Seq<char> {
    "sparkler:color_"@
}

/// One custom-property line of the profile stylesheet: the key with
/// underscores turned into dashes and its namespace prefix dropped,
/// paired with the stored value.
pub open spec fn css_line(key: Seq<char>, val: Seq<char>) -> Seq<char> {
    "    --"@ + str_replaced(str_replaced(key, "_"@, "-"@), "sparkler:"@, ""@) + ": "@ + val
        + ";\n"@
}

/// The custom-property lines of every color entry, in storage order.
pub open spec fn css_lines(kv: Seq<(Seq<char>, Seq<char>)>) -> Seq<char>
    decreases kv.len(),
{
    if kv.len() == 0 {
        Seq::empty()
    } else {
        css_lines(kv.drop_last()) + (if spec_starts_with(kv.last().0, color_key_prefix()) {
            css_line(kv.last().0, kv.last().1)
        } else {
            Seq::empty()
        })
    }
}

/// The whole profile stylesheet: the market theme template, one custom
/// property per color entry, and the profile's own CSS.
pub open spec fn spec_profile_css(kv: Seq<(Seq<char>, Seq<char>)>) -> Seq<char> {
    spec_soft_get(kv, "rainbeam:market_theme_template"@) + "\n*, :root {\n"@ + css_lines(kv)
        + spec_soft_get(kv, "sparkler:custom_css"@) + "\n}"@
}

/// Builds a profile's stylesheet from its metadata.
#[verifier::loop_isolation(false)]
pub fn profile_css(metadata: &ProfileMetadata) -> (r: String)
    ensures
        r@ == spec_profile_css(metadata.kv_view()),
{
    let ghost full = metadata.kv_view();
    let mut out = metadata.soft_get("rainbeam:market_theme_template");
    append_str(&mut out, "\n*, :root {\n");
    let ghost head = out@;
    proof {
        assert(css_lines(full.take(0)) =~= Seq::<char>::empty());
        assert(head + css_lines(full.take(0)) =~= head);
    }
    let n = metadata.kv.len();
    let mut i: usize = 0;
    while i < n
        invariant
            n == metadata.kv@.len(),
            i <= n,
            out@ == head + css_lines(full.take(i as int)),
        decreases n - i,
    {
        proof {
            assert(full.take(i + 1 as int).drop_last() =~= full.take(i as int));
            assert(full.take(i + 1 as int).last() == full[i as int]);
            assert(full[i as int] == (metadata.kv@[i as int].0@, metadata.kv@[i as int].1@));
        }
        if str_starts_with(metadata.kv[i].0.as_str(), "sparkler:color_") {
            append_str(&mut out, "    --");
            let dashed = replace_all(metadata.kv[i].0.as_str(), "_", "-");
            let bare = replace_all(dashed.as_str(), "sparkler:", "");
            append_str(&mut out, bare.as_str());
            append_str(&mut out, ": ");
            append_str(&mut out, metadata.kv[i].1.as_str());
            append_str(&mut out, ";\n");
            proof {
                assert(out@ =~= head + css_lines(full.take(i as int)) + css_line(
                    full[i as int].0,
                    full[i as int].1,
                ));
                assert(head + css_lines(full.take(i as int)) + css_line(
                    full[i as int].0,
                    full[i as int].1,
                ) =~= head + css_lines(full.take(i + 1 as int)));
            }
        } else {
            proof {
                assert(head + css_lines(full.take(i as int)) =~= head + css_lines(
                    full.take(i + 1 as int),
                ));
            }
        }
        i = i + 1;
    }
    proof {
        assert(full.take(n as int) =~= full);
    }
    let custom = metadata.soft_get("sparkler:custom_css");
    append_str(&mut out, custom.as_str());
    append_str(&mut out, "\n}");
    proof {
        assert(out@ =~= spec_profile_css(full));
    }
    out
}

} // verus!
