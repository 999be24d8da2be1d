//! The feature list a project's `vexide` dependency gets when the project is
//! migrated to the current release.
use vstd::prelude::*;

use crate::names::{starts_with, text_eq};

verus! {

/// What a feature of the old release is called now; `None` for a feature
/// that was removed.
pub open spec fn feature_rename(f: Seq<char>) -> Option<Seq<char>> {
    if f == "dangerous_motor_tuning"@ {
        Some("dangerous-motor-tuning"@)
    } else if f == "backtraces"@ {
        Some("backtrace"@)
    } else if f == "macro"@ {
        Some("macros"@)
    } else if f == "display_panics"@ {
        Some("panic-hook"@)
    } else if f == "force_rust_libm"@ || f == "smart_leds_trait"@ || f == "panic"@ {
        None
    } else {
        Some(f)
    }
}

/// The old features that carry over, renamed, in order; entries that are not
/// text are skipped.
pub open spec fn carried_features(old: Seq<Option<Seq<char>>>) -> Seq<Seq<char>>
    decreases old.len(),
{
    if old.len() == 0 {
        Seq::empty()
    } else {
        let rest = carried_features(old.drop_last());
        match old.last() {
            Some(f) => match feature_rename(f) {
                Some(g) => rest.push(g),
                None => rest,
            },
            None => rest,
        }
    }
}

/// Whether a feature selects a particular SDK backend.
pub open spec fn is_sdk_feature(f: Seq<char>) -> bool {
    7 <= f.len() && f.subrange(0, 7) == "vex-sdk"@
}

/// `s` with each run of equal neighbours kept once.
pub open spec fn dedup_adjacent(s: Seq<Seq<char>>) -> Seq<Seq<char>>
    decreases s.len(),
{
    if s.len() == 0 {
        s
    } else {
        let d = dedup_adjacent(s.drop_last());
        if d.len() > 0 && d.last() == s.last() {
            d
        } else {
            d.push(s.last())
        }
    }
}

/// The new feature list: `full` when default features were on, then the
/// carried-over features; when default features were on or `startup` is
/// among them, every SDK backend feature gives way to `default-sdk`; finally
/// repeated neighbours are merged.
pub open spec fn migrated_features(old: Seq<Option<Seq<char>>>, default_features: bool) -> Seq<Seq<char>> {
    let all = (if default_features { seq!["full"@] } else { Seq::empty() }) + carried_features(old);
    let use_default_sdk = default_features || carried_features(old).contains("startup"@);
    let adjusted = if use_default_sdk {
        all.filter(|f: Seq<char>| !is_sdk_feature(f)).push("default-sdk"@)
    } else {
        all
    };
    dedup_adjacent(adjusted)
}

/// Optional texts, as their views.
pub open spec fn texts_view(v: Seq<Option<String>>) -> Seq<Option<Seq<char>>> {
    v.map_values(|o: Option<String>| match o {
        Some(s) => Some(s@),
        None => None,
    })
}

/// Texts, as their views.
pub open spec fn strings_view(v: Seq<String>) -> Seq<Seq<char>> {
    v.map_values(|s: String| s@)
}

/// Renames one feature of the old release.
pub fn rename_feature(f: &str) -> (r: Option<String>)
    ensures
        match r {
            Some(s) => feature_rename(f@) == Some(s@),
            None => feature_rename(f@) is None,
        },
{
    if text_eq(f, "dangerous_motor_tuning") {
        Some(String::from_str("dangerous-motor-tuning"))
    } else if text_eq(f, "backtraces") {
        Some(String::from_str("backtrace"))
    } else if text_eq(f, "macro") {
        Some(String::from_str("macros"))
    } else if text_eq(f, "display_panics") {
        Some(String::from_str("panic-hook"))
    } else if text_eq(f, "force_rust_libm") || text_eq(f, "smart_leds_trait") || text_eq(f, "panic") {
        None
    } else {
        Some(String::from_str(f))
    }
}

proof fn lemma_push_view(v: Seq<String>, s: String)
    ensures
        strings_view(v.push(s)) == strings_view(v).push(s@),
{
    assert(strings_view(v.push(s)) =~= strings_view(v).push(s@));
}

/// The feature list of the migrated `vexide` dependency, from the old entry's
/// features (`None` for an entry that is not text) and whether it kept the
/// default features.
pub fn migrate_features(old: &Vec<Option<String>>, default_features: bool) -> (r: Vec<String>)
    ensures
        strings_view(r@) == migrated_features(texts_view(old@), default_features),
{
    let ghost old_view = texts_view(old@);
    let mut all: Vec<String> = Vec::new();
    if default_features {
        all.push(String::from_str("full"));
    }
    let ghost base = strings_view(all@);
    assert(base =~= (if default_features { seq!["full"@] } else { Seq::<Seq<char>>::empty() }));
    let mut startup = false;
    let mut i: usize = 0;
    while i < old.len()
        invariant
            i <= old@.len(),
            old_view == texts_view(old@),
            strings_view(all@) == base + carried_features(old_view.subrange(0, i as int)),
            startup == carried_features(old_view.subrange(0, i as int)).contains("startup"@),
        decreases old@.len() - i,
    {
        let ghost prefix = old_view.subrange(0, i as int);
        let ghost next = old_view.subrange(0, i + 1);
        assert(next.drop_last() =~= prefix);
        assert(next.last() == old_view[i as int]);
        let ghost before = strings_view(all@);
        match &old[i] {
            Some(name) => match rename_feature(name.as_str()) {
                Some(feature) => {
                    let is_startup = text_eq(feature.as_str(), "startup");
                    proof {
                        lemma_push_view(all@, feature);
                        assert(carried_features(next) == carried_features(prefix).push(feature@));
                        assert(carried_features(next).contains("startup"@) == (carried_features(
                            prefix,
                        ).contains("startup"@) || feature@ == "startup"@)) by {
                            let c = carried_features(prefix);
                            if feature@ == "startup"@ {
                                assert(c.push(feature@)[c.len() as int] == "startup"@);
                            }
                            if c.contains("startup"@) {
                                let k = choose|k: int| 0 <= k < c.len() && c[k] == "startup"@;
                                assert(c.push(feature@)[k] == "startup"@);
                            }
                        }
                    }
                    all.push(feature);
                    assert(strings_view(all@) =~= base + carried_features(next));
                    startup = startup || is_startup;
                },
                None => {
                    assert(carried_features(next) == carried_features(prefix));
                },
            },
            None => {
                assert(carried_features(next) == carried_features(prefix));
            },
        }
        i = i + 1;
    }
    assert(old_view.subrange(0, old@.len() as int) =~= old_view);
    let ghost all_view = strings_view(all@);
    let use_default_sdk = default_features || startup;
    let adjusted = if use_default_sdk {
        let mut kept: Vec<String> = Vec::new();
        let mut j: usize = 0;
        while j < all.len()
            invariant
                j <= all@.len(),
                all_view == strings_view(all@),
                strings_view(kept@) == all_view.subrange(0, j as int).filter(
                    |f: Seq<char>| !is_sdk_feature(f),
                ),
            decreases all@.len() - j,
        {
            let ghost prefix = all_view.subrange(0, j as int);
            let ghost next = all_view.subrange(0, j + 1);
            assert(next.drop_last() =~= prefix);
            assert(next.last() == all@[j as int]@);
            let sdk = starts_with(all[j].as_str(), "vex-sdk");
            proof {
                reveal_strlit("vex-sdk");
                reveal(Seq::filter);
            }
            if !sdk {
                let keep = all[j].clone();
                proof {
                    lemma_push_view(kept@, keep);
                }
                kept.push(keep);
            }
            j = j + 1;
        }
        assert(all_view.subrange(0, all@.len() as int) =~= all_view);
        let ghost filtered = strings_view(kept@);
        kept.push(String::from_str("default-sdk"));
        proof {
            assert(strings_view(kept@) =~= filtered.push("default-sdk"@));
        }
        kept
    } else {
        all
    };
    let ghost adjusted_view = strings_view(adjusted@);
    let mut out: Vec<String> = Vec::new();
    let mut k: usize = 0;
    while k < adjusted.len()
        invariant
            k <= adjusted@.len(),
            adjusted_view == strings_view(adjusted@),
            strings_view(out@) == dedup_adjacent(adjusted_view.subrange(0, k as int)),
        decreases adjusted@.len() - k,
    {
        let ghost prefix = adjusted_view.subrange(0, k as int);
        let ghost next = adjusted_view.subrange(0, k + 1);
        assert(next.drop_last() =~= prefix);
        assert(next.last() == adjusted@[k as int]@);
        let repeat = out.len() > 0 && text_eq(out[out.len() - 1].as_str(), adjusted[k].as_str());
        proof {
            if out@.len() > 0 {
                assert(strings_view(out@).last() == out@[out@.len() - 1]@);
            }
        }
        if !repeat {
            let item = adjusted[k].clone();
            proof {
                lemma_push_view(out@, item);
            }
            out.push(item);
        }
        k = k + 1;
    }
    assert(adjusted_view.subrange(0, adjusted@.len() as int) =~= adjusted_view);
    out
}

} // verus!
