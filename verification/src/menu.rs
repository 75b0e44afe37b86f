//! The singleton menu/action cache.
//!
//! The native runtime keeps exactly one top-level menu per process, and
//! its menu object takes ownership of the installed items without saying
//! so item by item. The bridge therefore mirrors the menu's action
//! handlers in one process-wide cache: installing a menu rebuilds the
//! whole handler list and swaps it in atomically, so the cache always
//! matches whatever menu was installed last. The caller holds the
//! cache's lock only across the in-memory swap, never across the native
//! installation call, which happens afterwards with the handles this
//! module hands back.

use vstd::prelude::*;

verus! {

/// A retained target/action pair backing one menu item, named by its
/// handle.
#[derive(Clone, Copy, PartialEq, Eq, Structural, Debug)]
pub struct TargetActionHandler {
    /// The handle of the retained action target.
    pub action: u64,
}

/// A menu under construction: the native submenu object it wraps and
/// the action handlers of its items.
pub struct Menu {
    /// The handle of the native submenu object.
    pub inner: u64,
    /// The title shown for the submenu.
    pub title: String,
    /// The action handlers of the menu's items, in item order.
    pub actions: Vec<TargetActionHandler>,
}

/// The process-wide cache of the installed menu's action handlers.
pub struct ActionCache {
    /// The handlers of the currently installed menu, in item order.
    pub handlers: Vec<TargetActionHandler>,
}

/// The action handlers a list of menus carries, menu by menu, each
/// menu's items in order.
pub open spec fn menu_actions(menus: Seq<Menu>) -> Seq<TargetActionHandler>
    decreases menus.len(),
{
    if menus.len() == 0 {
        Seq::empty()
    } else {
        menu_actions(menus.drop_last()) + menus.last().actions@
    }
}

/// The native submenu handles of a list of menus, in order.
pub open spec fn menu_inners(menus: Seq<Menu>) -> Seq<u64>
    decreases menus.len(),
{
    if menus.len() == 0 {
        Seq::empty()
    } else {
        menu_inners(menus.drop_last()).push(menus.last().inner)
    }
}

impl ActionCache {
    /// An empty cache: no menu installed yet.
    pub fn new() -> (r: ActionCache)
        ensures
            r.handlers@ == Seq::<TargetActionHandler>::empty(),
    {
        let r = ActionCache { handlers: Vec::new() };
        proof {
            assert(r.handlers@ =~= Seq::<TargetActionHandler>::empty());
        }
        r
    }
}

/// Installs a list of menus as the top-level menu: gathers every menu's
/// action handlers in order, swaps them in as the cache's whole
/// contents — whatever was cached before is dropped, never merged — and
/// hands back the submenu handles for the native installation call,
/// which the caller makes after releasing the cache's lock.
pub fn set_menu(cache: &mut ActionCache, menus: &Vec<Menu>) -> (submenus: Vec<u64>)
    ensures
        final(cache).handlers@ == cache_after_install(old(cache).handlers@, menus@),
        final(cache).handlers@ == menu_actions(menus@),
        submenus@ == menu_inners(menus@),
{
    let mut handlers: Vec<TargetActionHandler> = Vec::new();
    let mut submenus: Vec<u64> = Vec::new();
    let n = menus.len();
    let mut i: usize = 0;
    proof {
        assert(handlers@ =~= menu_actions(menus@.take(0)));
        assert(submenus@ =~= menu_inners(menus@.take(0)));
    }
    while i < n
        invariant
            n == menus@.len(),
            i <= n,
            handlers@ == menu_actions(menus@.take(i as int)),
            submenus@ == menu_inners(menus@.take(i as int)),
        decreases n - i,
    {
        let menu = &menus[i];
        let m = menu.actions.len();
        let mut j: usize = 0;
        proof {
            assert(menu.actions@.take(0) =~= Seq::<TargetActionHandler>::empty());
            assert(handlers@ =~= menu_actions(menus@.take(i as int)) + menu.actions@.take(0));
        }
        while j < m
            invariant
                m == menu.actions@.len(),
                j <= m,
                menu == &menus@[i as int],
                i < menus@.len(),
                handlers@ == menu_actions(menus@.take(i as int)) + menu.actions@.take(j as int),
            decreases m - j,
        {
            let a = menu.actions[j];
            handlers.push(a);
            proof {
                assert(menu.actions@.take(j + 1) =~= menu.actions@.take(j as int).push(
                    menu.actions@[j as int],
                ));
                assert(handlers@ =~= menu_actions(menus@.take(i as int)) + menu.actions@.take(
                    j + 1,
                ));
            }
            j = j + 1;
        }
        submenus.push(menu.inner);
        proof {
            let taken = menus@.take(i + 1);
            assert(taken.drop_last() =~= menus@.take(i as int));
            assert(taken.last() == menus@[i as int]);
            assert(menu.actions@.take(m as int) =~= menu.actions@);
            assert(handlers@ =~= menu_actions(menus@.take(i + 1)));
            assert(submenus@ =~= menu_inners(menus@.take(i + 1)));
        }
        i = i + 1;
    }
    proof {
        assert(menus@.take(n as int) =~= menus@);
    }
    cache.handlers = handlers;
    submenus
}

/// What the cache holds after one installation, as a transition on its
/// contents: the fresh handler list, whatever was cached before.
pub open spec fn cache_after_install(
    prior: Seq<TargetActionHandler>,
    menus: Seq<Menu>,
) -> Seq<TargetActionHandler> {
    menu_actions(menus)
}

/// Law: after installing one menu list and then another, the cache
/// holds exactly the handlers derived from the second list. Nothing of
/// the first installation, nor of anything cached before it, survives:
/// the two installations never merge.
pub proof fn lemma_set_menu_replaces(
    prior: Seq<TargetActionHandler>,
    first: Seq<Menu>,
    second: Seq<Menu>,
)
    ensures
        cache_after_install(cache_after_install(prior, first), second) == menu_actions(second),
        cache_after_install(cache_after_install(prior, first), second) == cache_after_install(
            Seq::<TargetActionHandler>::empty(),
            second,
        ),
{
}

} // verus!
