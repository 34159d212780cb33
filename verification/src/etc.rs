//! The etc/assets generation step.
//!
//! Creates an `etc/` directory for miscellaneous files and, when assets are
//! requested, plans downloading the template banner, logo and favicon into
//! it.

use vstd::prelude::*;
use crate::plan::{ActionV, Plan, actions_view};
use crate::preview::{NodeKind, entries_view, joined};

verus! {

/// The template banner URL.
pub open spec fn banner_url_spec() -> Seq<char> {
    "https://raw.githubusercontent.com/refcell/amble/main/etc/template/banner.png"@
}

/// The template banner URL.
pub fn banner_url() -> (r: &'static str)
    ensures
        r@ == banner_url_spec(),
{
    "https://raw.githubusercontent.com/refcell/amble/main/etc/template/banner.png"
}

/// The template logo URL.
pub open spec fn logo_url_spec() -> Seq<char> {
    "https://raw.githubusercontent.com/refcell/amble/main/etc/template/logo.png"@
}

/// The template logo URL.
pub fn logo_url() -> (r: &'static str)
    ensures
        r@ == logo_url_spec(),
{
    "https://raw.githubusercontent.com/refcell/amble/main/etc/template/logo.png"
}

/// The template favicon URL.
pub open spec fn favicon_url_spec() -> Seq<char> {
    "https://raw.githubusercontent.com/refcell/amble/main/etc/template/favicon.ico"@
}

/// The template favicon URL.
pub fn favicon_url() -> (r: &'static str)
    ensures
        r@ == favicon_url_spec(),
{
    "https://raw.githubusercontent.com/refcell/amble/main/etc/template/favicon.ico"
}

/// The entries of the etc step: the directory, and the three assets when
/// they are requested.
pub open spec fn etc_entries(assets: bool) -> Seq<(Seq<char>, NodeKind)> {
    seq![("etc"@, NodeKind::Dir)] + (if assets {
        seq![
            (joined("etc"@, "banner.png"@), NodeKind::File),
            (joined("etc"@, "logo.png"@), NodeKind::File),
            (joined("etc"@, "favicon.ico"@), NodeKind::File),
        ]
    } else {
        Seq::<(Seq<char>, NodeKind)>::empty()
    })
}

/// The actions of the etc step.
pub open spec fn etc_actions(assets: bool) -> Seq<ActionV> {
    seq![ActionV::MkDir { path: "etc"@ }] + (if assets {
        seq![
            ActionV::FetchAsset { url: banner_url_spec(), path: joined("etc"@, "banner.png"@) },
            ActionV::FetchAsset { url: logo_url_spec(), path: joined("etc"@, "logo.png"@) },
            ActionV::FetchAsset { url: favicon_url_spec(), path: joined("etc"@, "favicon.ico"@) },
        ]
    } else {
        Seq::<ActionV>::empty()
    })
}

/// The etc step's actions create exactly the entries its preview lists.
pub proof fn lemma_etc_actions_entries(assets: bool)
    ensures
        crate::plan::actions_entries(etc_actions(assets)) =~= etc_entries(assets),
{
    reveal_strlit("etc");
    let m = ActionV::MkDir { path: "etc"@ };
    if assets {
        let f0 = ActionV::FetchAsset { url: banner_url_spec(), path: joined("etc"@, "banner.png"@) };
        let f1 = ActionV::FetchAsset { url: logo_url_spec(), path: joined("etc"@, "logo.png"@) };
        let f2 = ActionV::FetchAsset { url: favicon_url_spec(), path: joined("etc"@, "favicon.ico"@) };
        assert(etc_actions(assets) =~= seq![m, f0, f1, f2]);
        assert(seq![m, f0, f1, f2] =~= seq![m] + seq![f0, f1, f2]);
        crate::plan::lemma_actions_entries_singleton(m);
        crate::plan::lemma_actions_entries_list3(f0, f1, f2);
        crate::plan::lemma_actions_entries_concat(seq![m], seq![f0, f1, f2]);
    } else {
        assert(etc_actions(assets) =~= seq![m]);
        crate::plan::lemma_actions_entries_singleton(m);
        assert(etc_entries(assets) =~= seq![("etc"@, NodeKind::Dir)]);
    }
}

/// Plans the etc step: the `etc/` directory, and the template assets when
/// requested.
pub fn create(plan: &mut Plan, assets: bool)
    requires
        old(plan).tree.balanced(),
    ensures
        entries_view(final(plan).tree.entries@) =~= entries_view(old(plan).tree.entries@)
            + etc_entries(assets),
        actions_view(final(plan).actions@) =~= actions_view(old(plan).actions@) + etc_actions(
            assets,
        ),
        final(plan).tree.balanced(),
        old(plan).mirrors() ==> final(plan).mirrors(),
{
    proof {
        reveal_strlit("etc");
    }
    plan.enter_dir("etc");
    if assets {
        plan.fetch_asset(String::from_str(banner_url()), "banner.png");
        plan.fetch_asset(String::from_str(logo_url()), "logo.png");
        plan.fetch_asset(String::from_str(favicon_url()), "favicon.ico");
    }
    plan.leave_dir();
}

} // verus!
