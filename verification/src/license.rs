//! The license generation step.
//!
//! The caller fetches the license text for the requested SPDX identifier
//! (an outside, networked capability).  This module substitutes the year
//! and holder placeholders, falls back to the bundled MIT template when the
//! fetch failed and the user agreed, and plans writing the `LICENSE` file.

use vstd::prelude::*;
use crate::plan::{ActionV, Plan, actions_view};
use crate::preview::{NodeKind, entries_view};
use crate::textscan::{match_ci_at, replaced_first, replace_first, matches_ci_at};

verus! {

/// The bundled MIT license template, with `[year]` and `[fullname]`
/// placeholders.
pub open spec fn mit_template() -> Seq<char> {
    "MIT License\n\nCopyright (c) [year] [fullname]\n\nPermission is hereby granted, free of charge, to any person obtaining a copy\nof this software and associated documentation files (the \"Software\"), to deal\nin the Software without restriction, including without limitation the rights\nto use, copy, modify, merge, publish, distribute, sublicense, and/or sell\ncopies of the Software, and to permit persons to whom the Software is\nfurnished to do so, subject to the following conditions:\n\nThe above copyright notice and this permission notice shall be included in all\ncopies or substantial portions of the Software.\n\nTHE SOFTWARE IS PROVIDED \"AS IS\", WITHOUT WARRANTY OF ANY KIND, EXPRESS OR\nIMPLIED, INCLUDING BUT NOT LIMITED TO THE WARRANTIES OF MERCHANTABILITY,\nFITNESS FOR A PARTICULAR PURPOSE AND NONINFRINGEMENT. IN NO EVENT SHALL THE\nAUTHORS OR COPYRIGHT HOLDERS BE LIABLE FOR ANY CLAIM, DAMAGES OR OTHER\nLIABILITY, WHETHER IN AN ACTION OF CONTRACT, TORT OR OTHERWISE, ARISING FROM,\nOUT OF OR IN CONNECTION WITH THE SOFTWARE OR THE USE OR OTHER DEALINGS IN THE\nSOFTWARE.\n"@
}

/// The bundled MIT license template.
pub fn mit_license_text() -> (r: &'static str)
    ensures
        r@ == mit_template(),
{
    "MIT License\n\nCopyright (c) [year] [fullname]\n\nPermission is hereby granted, free of charge, to any person obtaining a copy\nof this software and associated documentation files (the \"Software\"), to deal\nin the Software without restriction, including without limitation the rights\nto use, copy, modify, merge, publish, distribute, sublicense, and/or sell\ncopies of the Software, and to permit persons to whom the Software is\nfurnished to do so, subject to the following conditions:\n\nThe above copyright notice and this permission notice shall be included in all\ncopies or substantial portions of the Software.\n\nTHE SOFTWARE IS PROVIDED \"AS IS\", WITHOUT WARRANTY OF ANY KIND, EXPRESS OR\nIMPLIED, INCLUDING BUT NOT LIMITED TO THE WARRANTIES OF MERCHANTABILITY,\nFITNESS FOR A PARTICULAR PURPOSE AND NONINFRINGEMENT. IN NO EVENT SHALL THE\nAUTHORS OR COPYRIGHT HOLDERS BE LIABLE FOR ANY CLAIM, DAMAGES OR OTHER\nLIABILITY, WHETHER IN AN ACTION OF CONTRACT, TORT OR OTHERWISE, ARISING FROM,\nOUT OF OR IN CONNECTION WITH THE SOFTWARE OR THE USE OR OTHER DEALINGS IN THE\nSOFTWARE.\n"
}

/// `s` with every `<year>`/`[year]` replaced by `year` and every
/// `<fullname>`/`[fullname]` replaced by `full`, matching the placeholders
/// without regard to ASCII case, scanning left to right.
pub open spec fn imputed(s: Seq<char>, year: Seq<char>, full: Seq<char>) -> Seq<char>
    decreases s.len(),
{
    if s.len() == 0 {
        Seq::<char>::empty()
    } else if match_ci_at(s, 0, "<year>"@) && "<year>"@.len() > 0 {
        year + imputed(s.skip("<year>"@.len() as int), year, full)
    } else if match_ci_at(s, 0, "[year]"@) && "[year]"@.len() > 0 {
        year + imputed(s.skip("[year]"@.len() as int), year, full)
    } else if match_ci_at(s, 0, "<fullname>"@) && "<fullname>"@.len() > 0 {
        full + imputed(s.skip("<fullname>"@.len() as int), year, full)
    } else if match_ci_at(s, 0, "[fullname]"@) && "[fullname]"@.len() > 0 {
        full + imputed(s.skip("[fullname]"@.len() as int), year, full)
    } else {
        seq![s[0]] + imputed(s.skip(1), year, full)
    }
}

/// A case-insensitive match shifts with the scan position.
proof fn lemma_match_ci_shift(s: Seq<char>, i: int, pat: Seq<char>)
    requires
        0 <= i <= s.len(),
    ensures
        match_ci_at(s, i, pat) == match_ci_at(s.skip(i), 0, pat),
{
    let t = s.skip(i);
    assert(t.len() == s.len() - i);
    if match_ci_at(s, i, pat) {
        assert forall|k: int| 0 <= k < pat.len() implies crate::textscan::eq_ci(t[k], pat[k]) by {
            assert(t[k] == s[i + k]);
        }
    }
    if match_ci_at(t, 0, pat) {
        assert forall|k: int| 0 <= k < pat.len() implies crate::textscan::eq_ci(s[i + k], pat[k]) by {
            assert(t[k] == s[i + k]);
        }
    }
}

/// Impute templated license text: replaces the year and fullname
/// placeholders, in either bracket style and regardless of ASCII case, with
/// the given values.
pub fn impute_license(haystack: &str, year: &str, fullname: &str) -> (r: String)
    ensures
        r@ == imputed(haystack@, year@, fullname@),
{
    let total = haystack.unicode_len();
    let mut out = String::new();
    let mut i: usize = 0;
    proof {
        assert(haystack@.skip(0) =~= haystack@);
        reveal_strlit("<year>");
        reveal_strlit("[year]");
        reveal_strlit("<fullname>");
        reveal_strlit("[fullname]");
    }
    while i < total
        invariant
            0 <= i <= total,
            total == haystack@.len(),
            imputed(haystack@, year@, fullname@) == out@ + imputed(
                haystack@.skip(i as int),
                year@,
                fullname@,
            ),
            "<year>"@.len() == 6,
            "[year]"@.len() == 6,
            "<fullname>"@.len() == 10,
            "[fullname]"@.len() == 10,
        decreases total - i,
    {
        let ghost t = haystack@.skip(i as int);
        proof {
            lemma_match_ci_shift(haystack@, i as int, "<year>"@);
            lemma_match_ci_shift(haystack@, i as int, "[year]"@);
            lemma_match_ci_shift(haystack@, i as int, "<fullname>"@);
            lemma_match_ci_shift(haystack@, i as int, "[fullname]"@);
        }
        if matches_ci_at(haystack, i, "<year>") || matches_ci_at(haystack, i, "[year]") {
            out.append(year);
            proof {
                assert(t.skip(6) =~= haystack@.skip(i + 6));
            }
            i = i + 6;
        } else if matches_ci_at(haystack, i, "<fullname>") || matches_ci_at(
            haystack,
            i,
            "[fullname]",
        ) {
            out.append(fullname);
            proof {
                assert(t.skip(10) =~= haystack@.skip(i + 10));
            }
            i = i + 10;
        } else {
            let one = haystack.substring_char(i, i + 1);
            out.append(one);
            proof {
                assert(t[0] == haystack@[i as int]);
                assert(seq![haystack@[i as int]] =~= haystack@.subrange(i as int, i + 1));
                assert(t.skip(1) =~= haystack@.skip(i + 1));
            }
            i = i + 1;
        }
    }
    proof {
        assert(haystack@.skip(total as int) =~= Seq::<char>::empty());
    }
    out
}

/// Helper function to build an MIT License with imputed values: the bundled
/// template with the given year and holder filled in.
pub fn build_mit_license(year: &str, fullname: &str) -> (r: String)
    ensures
        r@ == imputed(mit_template(), year@, fullname@),
{
    impute_license(mit_license_text(), year, fullname)
}

/// The text written for a successfully fetched license: the first
/// `<year>` and the first `<copyright holders>` placeholder replaced, once
/// each, as the SPDX database spells them.
pub open spec fn finalized_license(t: Seq<char>, year: Seq<char>, user: Seq<char>) -> Seq<char> {
    replaced_first(replaced_first(t, "<year>"@, year), "<copyright holders>"@, user)
}

/// Fills the year and holder into a fetched license text.
pub fn finalize_fetched_license(text: &str, year: &str, user: &str) -> (r: String)
    ensures
        r@ == finalized_license(text@, year@, user@),
{
    proof {
        reveal_strlit("<year>");
        reveal_strlit("<copyright holders>");
    }
    let first = replace_first(text, "<year>", year);
    replace_first(first.as_str(), "<copyright holders>", user)
}

/// The license text a run writes, if any: a fetched text is finalized; a
/// failed fetch falls back to the bundled MIT template when the user agreed
/// to it, and otherwise the step is skipped.
pub fn resolve_license(
    fetched: Option<String>,
    year: &str,
    user: &str,
    mit_fallback_confirmed: bool,
) -> (r: Option<String>)
    ensures
        match fetched {
            Some(t) => r matches Some(x) && x@ == finalized_license(t@, year@, user@),
            None => if mit_fallback_confirmed {
                r matches Some(x) && x@ == imputed(mit_template(), year@, user@)
            } else {
                r is None
            },
        },
{
    match fetched {
        Some(t) => Some(finalize_fetched_license(t.as_str(), year, user)),
        None => {
            if mit_fallback_confirmed {
                Some(build_mit_license(year, user))
            } else {
                None
            }
        },
    }
}

/// The single action of the license step: write the `LICENSE` file.
pub open spec fn license_actions(contents: Seq<char>) -> Seq<ActionV> {
    seq![ActionV::WriteFile { path: "LICENSE"@, contents }]
}

/// The license step's action creates exactly the entry its preview lists.
pub proof fn lemma_license_actions_entries(contents: Seq<char>)
    ensures
        crate::plan::actions_entries(license_actions(contents)) =~= seq![
            ("LICENSE"@, NodeKind::File),
        ],
{
    crate::plan::lemma_actions_entries_singleton(
        ActionV::WriteFile { path: "LICENSE"@, contents },
    );
}

/// Plans the license step: writes the resolved license text to `LICENSE`
/// and records the preview leaf.
pub fn create(plan: &mut Plan, contents: String)
    requires
        old(plan).tree.balanced(),
    ensures
        actions_view(final(plan).actions@) =~= actions_view(old(plan).actions@) + license_actions(
            contents@,
        ),
        entries_view(final(plan).tree.entries@) =~= entries_view(old(plan).tree.entries@).push(
            (("LICENSE"@, NodeKind::File)),
        ),
        final(plan).tree.prefixes@ =~= old(plan).tree.prefixes@,
        old(plan).mirrors() ==> final(plan).mirrors(),
{
    plan.write_file("LICENSE", contents);
}

} // verus!
