//! A small breadcrumb stack over the category tree, so the interactive
//! navigator can print something like `Settings > Display` and support
//! `back`.

use vstd::prelude::*;
use crate::categories::{find, find_in, navigator, AnyCategory, Category};

verus! {

/// The trail of category ids the navigator has opened, outermost first. In
/// this single-level tree it is at most one entry deep, but the stack shape
/// leaves room for drilling into a subitem later.
pub struct Navigation {
    breadcrumbs: Vec<String>,
}

/// The characters of each id on a trail.
pub open spec fn trail_view(ids: Seq<String>) -> Seq<Seq<char>> {
    ids.map_values(|s: String| s@)
}

impl View for Navigation {
    type V = Seq<Seq<char>>;

    closed spec fn view(&self) -> Seq<Seq<char>> {
        trail_view(self.breadcrumbs@)
    }
}

/// The breadcrumb text for a trail: `Settings`, then ` > ` and the name of
/// each id on it that names a navigator category, ids that name none being
/// left out.
pub open spec fn path_text(trail: Seq<Seq<char>>) -> Seq<char>
    decreases trail.len(),
{
    if trail.len() == 0 {
        "Settings"@
    } else {
        match find_in(navigator(), trail.last()) {
            Some(c) => path_text(trail.drop_last()) + " > "@ + c.spec_name(),
            None => path_text(trail.drop_last()),
        }
    }
}

impl Navigation {
    /// An empty trail: the top-level category list.
    pub fn new() -> (r: Navigation)
        ensures
            r@ == Seq::<Seq<char>>::empty(),
    {
        let r = Navigation { breadcrumbs: Vec::new() };
        assert(r@ =~= Seq::<Seq<char>>::empty());
        r
    }

    /// Opens `category_id` below wherever the trail stands.
    pub fn push(&mut self, category_id: &str)
        ensures
            final(self)@ == old(self)@.push(category_id@),
    {
        let ghost before = self.breadcrumbs@;
        self.breadcrumbs.push(String::from_str(category_id));
        assert(trail_view(self.breadcrumbs@) =~= trail_view(before).push(category_id@));
    }

    /// Leaves the innermost category, giving back its id; at the top level
    /// there is nothing to leave.
    pub fn pop(&mut self) -> (r: Option<String>)
        ensures
            old(self)@.len() == 0 ==> r is None && final(self)@ == old(self)@,
            old(self)@.len() > 0 ==> r is Some && r->0@ == old(self)@.last() && final(self)@
                == old(self)@.drop_last(),
    {
        let ghost before = self.breadcrumbs@;
        let r = self.breadcrumbs.pop();
        proof {
            if before.len() > 0 {
                assert(trail_view(self.breadcrumbs@) =~= trail_view(before).drop_last());
            }
        }
        r
    }

    /// Whether the top-level category list is showing.
    pub fn is_at_root(&self) -> (r: bool)
        ensures
            r == (self@.len() == 0),
    {
        self.breadcrumbs.len() == 0
    }

    /// The category the innermost id names, if it names one.
    pub fn current_category(&self) -> (r: Option<AnyCategory>)
        ensures
            r == (if self@.len() == 0 {
                None
            } else {
                find_in(navigator(), self@.last())
            }),
    {
        let n = self.breadcrumbs.len();
        if n == 0 {
            None
        } else {
            find(self.breadcrumbs[n - 1].as_str())
        }
    }

    /// The breadcrumb trail as text, e.g. `Settings > Display`.
    pub fn path_string(&self) -> (r: String)
        ensures
            r@ == path_text(self@),
    {
        let ghost tv = trail_view(self.breadcrumbs@);
        let mut path = String::from_str("Settings");
        let mut i: usize = 0;
        assert(tv.take(0) =~= Seq::<Seq<char>>::empty());
        while i < self.breadcrumbs.len()
            invariant
                tv == trail_view(self.breadcrumbs@),
                i <= self.breadcrumbs@.len(),
                path@ == path_text(tv.take(i as int)),
            decreases self.breadcrumbs.len() - i,
        {
            let ghost before = path@;
            let id = self.breadcrumbs[i].as_str();
            proof {
                assert(tv.take(i + 1).drop_last() =~= tv.take(i as int));
                assert(tv.take(i + 1).last() == id@);
            }
            match find(id) {
                Some(cat) => {
                    path.append(" > ");
                    path.append(cat.name());
                },
                None => {},
            }
            i += 1;
        }
        assert(tv.take(self.breadcrumbs@.len() as int) =~= tv);
        path
    }
}

impl Default for Navigation {
    fn default() -> (r: Navigation)
        ensures
            r@ == Seq::<Seq<char>>::empty(),
    {
        Navigation::new()
    }
}

/// Going into a category and coming back with `back` gives back that id
/// and leaves the trail as it was.
pub proof fn lemma_push_then_pop(trail: Seq<Seq<char>>, id: Seq<char>)
    ensures
        trail.push(id).len() > 0,
        trail.push(id).last() == id,
        trail.push(id).drop_last() == trail,
{
    assert(trail.push(id).drop_last() =~= trail);
}

/// Opening a category from the top level shows its name after `Settings`.
pub proof fn lemma_path_of_opened_category(c: AnyCategory)
    requires
        find_in(navigator(), c.spec_id()) == Some(c),
    ensures
        path_text(seq![c.spec_id()]) == "Settings > "@ + c.spec_name(),
{
    let t = seq![c.spec_id()];
    assert(t.drop_last() =~= Seq::<Seq<char>>::empty());
    assert(t.last() == c.spec_id());
    assert(path_text(t.drop_last()) == "Settings"@);
    assert(path_text(t) == path_text(t.drop_last()) + " > "@ + c.spec_name());
    assert("Settings"@ + " > "@ + c.spec_name() =~= "Settings > "@ + c.spec_name()) by {
        reveal_strlit("Settings");
        reveal_strlit(" > ");
        reveal_strlit("Settings > ");
    }
}

/// One change to the trail: `push` of an id, or `pop`.
pub enum NavOp {
    Push(Seq<char>),
    Pop,
}

/// The trail after applying `ops` in order to `start`, each as `push` and
/// `pop` state it: a push appends its id, a pop drops the innermost id and
/// does nothing at the top level.
pub open spec fn trail_after(start: Seq<Seq<char>>, ops: Seq<NavOp>) -> Seq<Seq<char>>
    decreases ops.len(),
{
    if ops.len() == 0 {
        start
    } else {
        let t = trail_after(start, ops.drop_last());
        match ops.last() {
            NavOp::Push(id) => t.push(id),
            NavOp::Pop => if t.len() == 0 {
                t
            } else {
                t.drop_last()
            },
        }
    }
}

/// How many of `ops` are pushes.
pub open spec fn push_count(ops: Seq<NavOp>) -> nat
    decreases ops.len(),
{
    if ops.len() == 0 {
        0
    } else {
        push_count(ops.drop_last()) + if ops.last() is Push {
            1nat
        } else {
            0nat
        }
    }
}

/// How many of `ops`, applied to `start`, are pops that gave back an id.
pub open spec fn returned_pops(start: Seq<Seq<char>>, ops: Seq<NavOp>) -> nat
    decreases ops.len(),
{
    if ops.len() == 0 {
        0
    } else {
        returned_pops(start, ops.drop_last()) + if ops.last() is Pop && trail_after(start, ops.drop_last()).len()
            > 0 {
            1nat
        } else {
            0nat
        }
    }
}

/// Pushing each of `ids` in order.
pub open spec fn pushes_of(ids: Seq<Seq<char>>) -> Seq<NavOp> {
    ids.map_values(|id: Seq<char>| NavOp::Push(id))
}

/// Starting from the top level, after any pushes and pops the trail holds
/// as many ids as there were pushes beyond the pops that gave one back; so
/// the navigator is at the top level exactly when those two counts agree,
/// whatever the ids were.
pub proof fn lemma_at_root_iff_balanced(ops: Seq<NavOp>)
    ensures
        trail_after(Seq::empty(), ops).len() == push_count(ops) - returned_pops(Seq::empty(), ops),
        (trail_after(Seq::empty(), ops).len() == 0) == (push_count(ops) == returned_pops(Seq::empty(), ops)),
    decreases ops.len(),
{
    if ops.len() > 0 {
        lemma_at_root_iff_balanced(ops.drop_last());
    }
}

/// Pushing `ids` from the top level leaves exactly `ids` on the trail.
pub proof fn lemma_trail_after_pushes(ids: Seq<Seq<char>>)
    ensures
        trail_after(Seq::empty(), pushes_of(ids)) == ids,
    decreases ids.len(),
{
    if ids.len() > 0 {
        lemma_trail_after_pushes(ids.drop_last());
        assert(pushes_of(ids).drop_last() =~= pushes_of(ids.drop_last()));
        assert(ids.drop_last().push(ids.last()) =~= ids);
    }
}

/// After pushing `ids` from the top level, the open category is the one the
/// last id names (none for an id that names none, and none at all without
/// ids); the earlier ids are never consulted.
pub proof fn lemma_current_after_pushes(ids: Seq<Seq<char>>)
    ensures
        (trail_after(Seq::empty(), pushes_of(ids)).len() == 0) == (ids.len() == 0),
        ids.len() > 0 ==> find_in(navigator(), trail_after(Seq::empty(), pushes_of(ids)).last()) == find_in(
            navigator(),
            ids.last(),
        ),
{
    lemma_trail_after_pushes(ids);
}

/// After pushing `ids` from the top level, the breadcrumb text is
/// `Settings` followed by ` > ` and the name of each id that names a
/// category, in order; ids that name none add nothing.
pub proof fn lemma_path_after_pushes(ids: Seq<Seq<char>>, id: Seq<char>)
    ensures
        path_text(trail_after(Seq::empty(), pushes_of(ids))) == path_text(ids),
        path_text(Seq::<Seq<char>>::empty()) == "Settings"@,
        path_text(ids.push(id)) == path_text(ids) + match find_in(navigator(), id) {
            Some(c) => " > "@ + c.spec_name(),
            None => Seq::<char>::empty(),
        },
{
    lemma_trail_after_pushes(ids);
    assert(ids.push(id).drop_last() =~= ids);
    match find_in(navigator(), id) {
        Some(c) => {
            assert(path_text(ids) + " > "@ + c.spec_name() =~= path_text(ids) + (" > "@ + c.spec_name()));
        },
        None => {
            assert(path_text(ids) + Seq::<char>::empty() =~= path_text(ids));
        },
    }
}

} // verus!
