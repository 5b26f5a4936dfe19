//! `mitos-settings list [category] [--json]`: which listing the arguments
//! ask for, and the category listing itself.

use vstd::prelude::*;
use crate::categories::{all, find, find_in, navigator, AnyCategory, Category};
use crate::cli::grants::args_view;
use crate::text::padded;

verus! {

/// The flag that asks for JSON in place of a table.
pub open spec fn is_json_flag(a: Seq<char>) -> bool {
    a == "--json"@
}

/// Whether any argument is `--json`.
pub open spec fn has_json_flag(args: Seq<Seq<char>>) -> bool {
    exists|i: int| 0 <= i < args.len() && is_json_flag(#[trigger] args[i])
}

/// The first argument that is not `--json`: the category asked for.
pub open spec fn category_arg(args: Seq<Seq<char>>) -> Option<Seq<char>>
    decreases args.len(),
{
    if args.len() == 0 {
        None
    } else if is_json_flag(args[0]) {
        category_arg(args.drop_first())
    } else {
        Some(args[0])
    }
}

/// A listing the arguments of `list` ask for.
#[derive(Clone, Copy)]
pub enum ListRequest {
    /// Every category, one per line.
    Categories,
    /// One category's settings with their current values, then its live
    /// rows.
    Category(AnyCategory),
    /// Current values as JSON, of one category or of every setting.
    Json(Option<AnyCategory>),
}

/// What the arguments of `list` ask for: with no category, every category
/// (or every value as JSON with `--json`); with a category the navigator
/// holds, that category (as JSON with `--json`, wherever the flag stands);
/// an id the navigator does not hold is refused.
pub open spec fn list_request(args: Seq<Seq<char>>) -> Result<ListRequest, Seq<char>> {
    match category_arg(args) {
        None => if has_json_flag(args) {
            Ok(ListRequest::Json(None))
        } else {
            Ok(ListRequest::Categories)
        },
        Some(id) => match find_in(navigator(), id) {
            None => Err("unknown category '"@ + id + "'"@),
            Some(c) => if has_json_flag(args) {
                Ok(ListRequest::Json(Some(c)))
            } else {
                Ok(ListRequest::Category(c))
            },
        },
    }
}

/// Where `--json` stands among the arguments does not change what `list`
/// is asked for.
pub proof fn lemma_json_flag_position_irrelevant(id: Seq<char>)
    ensures
        list_request(seq!["--json"@, id]) == list_request(seq![id, "--json"@]),
{
    let a = seq!["--json"@, id];
    let b = seq![id, "--json"@];
    assert(has_json_flag(a)) by {
        assert(is_json_flag(a[0]));
    }
    assert(has_json_flag(b)) by {
        assert(is_json_flag(b[1]));
    }
    assert(a.drop_first() =~= seq![id]);
    assert(seq![id].drop_first() =~= Seq::<Seq<char>>::empty());
    assert(category_arg(seq![id].drop_first()) is None);
    assert(category_arg(a) == category_arg(seq![id]));
    if is_json_flag(id) {
        assert(b.drop_first() =~= seq!["--json"@]);
        assert(seq!["--json"@].drop_first() =~= Seq::<Seq<char>>::empty());
        assert(category_arg(seq!["--json"@].drop_first()) is None);
        assert(category_arg(b) is None);
        assert(category_arg(a) is None);
    } else {
        assert(category_arg(b) == Some(id));
        assert(category_arg(a) == Some(id));
    }
}

/// At most one of the arguments is something other than `--json`.
pub open spec fn at_most_one_category(args: Seq<Seq<char>>) -> bool {
    forall|i: int, j: int|
        0 <= i < j < args.len() ==> is_json_flag(#[trigger] args[i]) || is_json_flag(#[trigger] args[j])
}

/// Arguments that are all `--json` name no category.
proof fn lemma_category_arg_none(args: Seq<Seq<char>>)
    requires
        forall|k: int| 0 <= k < args.len() ==> is_json_flag(#[trigger] args[k]),
    ensures
        category_arg(args) is None,
    decreases args.len(),
{
    if args.len() > 0 {
        assert(is_json_flag(args[0]));
        assert forall|k: int| 0 <= k < args.drop_first().len() implies is_json_flag(#[trigger] args.drop_first()[k]) by {
            assert(args.drop_first()[k] == args[k + 1]);
        }
        lemma_category_arg_none(args.drop_first());
    }
}

/// Arguments whose only non-flag is the one at `p` name that one.
proof fn lemma_category_arg_single(args: Seq<Seq<char>>, p: int)
    requires
        0 <= p < args.len(),
        !is_json_flag(args[p]),
        forall|k: int| 0 <= k < args.len() && k != p ==> is_json_flag(#[trigger] args[k]),
    ensures
        category_arg(args) == Some(args[p]),
    decreases args.len(),
{
    if p > 0 {
        assert(is_json_flag(args[0]));
        let rest = args.drop_first();
        assert forall|k: int| 0 <= k < rest.len() && k != p - 1 implies is_json_flag(#[trigger] rest[k]) by {
            assert(rest[k] == args[k + 1]);
        }
        assert(rest[p - 1] == args[p]);
        lemma_category_arg_single(rest, p - 1);
    }
}

/// A rearrangement of arguments of which at most one is not `--json` has
/// the same property.
proof fn lemma_rearranged_at_most_one(a: Seq<Seq<char>>, b: Seq<Seq<char>>)
    requires
        a.to_multiset() == b.to_multiset(),
        at_most_one_category(a),
    ensures
        at_most_one_category(b),
{
    a.to_multiset_ensures();
    b.to_multiset_ensures();
    assert forall|i: int, j: int| 0 <= i < j < b.len() implies is_json_flag(#[trigger] b[i]) || is_json_flag(
        #[trigger] b[j],
    ) by {
        if !is_json_flag(b[i]) && !is_json_flag(b[j]) {
            let x = b[i];
            let y = b[j];
            assert(b.contains(x) && b.contains(y));
            assert(b.to_multiset().count(x) > 0 && b.to_multiset().count(y) > 0);
            assert(a.contains(x) && a.contains(y));
            let p = choose|p: int| 0 <= p < a.len() && a[p] == x;
            let q = choose|q: int| 0 <= q < a.len() && a[q] == y;
            if p != q {
                if p < q {
                    assert(is_json_flag(a[p]) || is_json_flag(a[q]));
                } else {
                    assert(is_json_flag(a[q]) || is_json_flag(a[p]));
                }
            }
            assert(x == y);
            let br = b.remove(i);
            assert(br[j - 1] == y);
            assert(br.contains(x));
            br.to_multiset_ensures();
            assert(br.to_multiset() =~= b.to_multiset().remove(x));
            assert(br.to_multiset().count(x) > 0);
            assert(b.to_multiset().remove(x).count(x) > 0);
            assert(b.to_multiset().count(x) >= 2) by {
                broadcast use vstd::multiset::group_multiset_axioms;
            }
            let ar = a.remove(p);
            ar.to_multiset_ensures();
            assert(ar.to_multiset() =~= a.to_multiset().remove(x));
            assert(!ar.contains(x)) by {
                if ar.contains(x) {
                    let k = choose|k: int| 0 <= k < ar.len() && ar[k] == x;
                    let kk = if k < p { k } else { k + 1 };
                    assert(ar[k] == a[kk]);
                    if kk < p {
                        assert(is_json_flag(a[kk]) || is_json_flag(a[p]));
                    } else {
                        assert(is_json_flag(a[p]) || is_json_flag(a[kk]));
                    }
                }
            }
            assert(ar.to_multiset().count(x) == 0);
            assert(a.to_multiset().remove(x).count(x) == 0);
            assert(a.to_multiset().count(x) <= 1) by {
                broadcast use vstd::multiset::group_multiset_axioms;
            }
        }
    }
}

/// What `list` is asked for does not depend on the order of its arguments
/// when at most one of them is not `--json`: any rearrangement of the same
/// arguments asks for the same listing.
pub proof fn lemma_json_flag_order_irrelevant(a: Seq<Seq<char>>, b: Seq<Seq<char>>)
    requires
        a.to_multiset() == b.to_multiset(),
        at_most_one_category(a),
    ensures
        list_request(a) == list_request(b),
{
    a.to_multiset_ensures();
    b.to_multiset_ensures();
    lemma_rearranged_at_most_one(a, b);
    assert(has_json_flag(a) == has_json_flag(b)) by {
        if has_json_flag(a) {
            let i = choose|i: int| 0 <= i < a.len() && is_json_flag(#[trigger] a[i]);
            assert(a.contains(a[i]));
            assert(a.to_multiset().count("--json"@) > 0);
            assert(b.to_multiset().count("--json"@) > 0);
            assert(b.contains("--json"@));
            let j = choose|j: int| 0 <= j < b.len() && b[j] == "--json"@;
            assert(is_json_flag(b[j]));
        }
        if has_json_flag(b) {
            let j = choose|j: int| 0 <= j < b.len() && is_json_flag(#[trigger] b[j]);
            assert(b.contains(b[j]));
            assert(b.to_multiset().count("--json"@) > 0);
            assert(a.to_multiset().count("--json"@) > 0);
            assert(a.contains("--json"@));
            let i = choose|i: int| 0 <= i < a.len() && a[i] == "--json"@;
            assert(is_json_flag(a[i]));
        }
    }
    if exists|p: int| 0 <= p < a.len() && !is_json_flag(#[trigger] a[p]) {
        let p = choose|p: int| 0 <= p < a.len() && !is_json_flag(#[trigger] a[p]);
        assert forall|k: int| 0 <= k < a.len() && k != p implies is_json_flag(#[trigger] a[k]) by {
            if k < p {
                assert(is_json_flag(a[k]) || is_json_flag(a[p]));
            } else {
                assert(is_json_flag(a[p]) || is_json_flag(a[k]));
            }
        }
        lemma_category_arg_single(a, p);
        assert(a.contains(a[p]));
        assert(a.to_multiset().count(a[p]) > 0);
        assert(b.to_multiset().count(a[p]) > 0);
        assert(b.contains(a[p]));
        let q = choose|q: int| 0 <= q < b.len() && b[q] == a[p];
        assert forall|k: int| 0 <= k < b.len() && k != q implies is_json_flag(#[trigger] b[k]) by {
            if k < q {
                assert(is_json_flag(b[k]) || is_json_flag(b[q]));
            } else {
                assert(is_json_flag(b[q]) || is_json_flag(b[k]));
            }
        }
        lemma_category_arg_single(b, q);
    } else {
        assert forall|k: int| 0 <= k < a.len() implies is_json_flag(#[trigger] a[k]) by {}
        lemma_category_arg_none(a);
        assert forall|k: int| 0 <= k < b.len() implies is_json_flag(#[trigger] b[k]) by {
            assert(b.contains(b[k]));
            assert(b.to_multiset().count(b[k]) > 0);
            assert(a.to_multiset().count(b[k]) > 0);
            assert(a.contains(b[k]));
            let i = choose|i: int| 0 <= i < a.len() && a[i] == b[k];
            assert(is_json_flag(a[i]));
        }
        lemma_category_arg_none(b);
    }
}

/// Reads the arguments of `list`.
pub fn execute(args: &[String]) -> (r: Result<ListRequest, String>)
    ensures
        match r {
            Ok(req) => list_request(args_view(args@)) == Ok::<ListRequest, Seq<char>>(req),
            Err(e) => list_request(args_view(args@)) == Err::<ListRequest, Seq<char>>(e@),
        },
{
    let ghost av = args_view(args@);
    let mut as_json = false;
    let mut category: Option<&str> = None;
    let mut i: usize = 0;
    assert(av.skip(0) =~= av);
    while i < args.len()
        invariant
            av == args_view(args@),
            i <= args@.len(),
            as_json == exists|j: int| 0 <= j < i && is_json_flag(#[trigger] av[j]),
            match category {
                Some(id) => category_arg(av) == Some(id@),
                None => category_arg(av) == category_arg(av.skip(i as int)),
            },
        decreases args.len() - i,
    {
        let a = args[i].as_str();
        assert(av[i as int] == a@);
        assert(av.skip(i as int)[0] == a@);
        assert(av.skip(i as int).drop_first() =~= av.skip(i + 1));
        if crate::text::str_eq(a, "--json") {
            as_json = true;
        } else if category.is_none() {
            category = Some(a);
        }
        i += 1;
    }
    assert(av.skip(args@.len() as int) =~= Seq::<Seq<char>>::empty());
    assert(as_json == has_json_flag(av));
    match category {
        None => if as_json {
            Ok(ListRequest::Json(None))
        } else {
            Ok(ListRequest::Categories)
        },
        Some(id) => match find(id) {
            None => {
                let mut msg = String::from_str("unknown category '");
                msg.append(id);
                msg.append("'");
                Err(msg)
            },
            Some(c) => if as_json {
                Ok(ListRequest::Json(Some(c)))
            } else {
                Ok(ListRequest::Category(c))
            },
        },
    }
}

/// One line per category: its id padded to 16 characters, a space, its
/// name.
pub open spec fn categories_listing(cats: Seq<AnyCategory>) -> Seq<char>
    decreases cats.len(),
{
    if cats.len() == 0 {
        Seq::empty()
    } else {
        categories_listing(cats.drop_last()) + padded(cats.last().spec_id(), 16) + " "@
            + cats.last().spec_name() + "\n"@
    }
}

/// What `list` with no category prints.
pub fn list_categories() -> (r: String)
    ensures
        r@ == categories_listing(navigator()),
{
    let cats = all();
    let mut out = String::new();
    let mut i: usize = 0;
    assert(navigator().take(0) =~= Seq::<AnyCategory>::empty());
    while i < cats.len()
        invariant
            cats@ == navigator(),
            i <= cats@.len(),
            out@ == categories_listing(navigator().take(i as int)),
        decreases cats.len() - i,
    {
        let c = cats[i];
        let id = crate::text::pad_right(c.id(), 16);
        let ghost before = out@;
        out.append(id.as_str());
        out.append(" ");
        out.append(c.name());
        out.append("\n");
        proof {
            let t = navigator().take(i + 1);
            assert(t.drop_last() =~= navigator().take(i as int));
            assert(t.last() == c);
            assert(out@ =~= before + padded(c.spec_id(), 16) + " "@ + c.spec_name() + "\n"@);
        }
        i += 1;
    }
    assert(navigator().take(cats@.len() as int) =~= navigator());
    out
}

/// The lines `list <category>` prints: one per setting, its key padded to
/// 32 characters and then its current value; then one per live row, marked
/// as live.
pub open spec fn category_text(settings: Seq<(Seq<char>, Seq<char>)>, live: Seq<(Seq<char>, Seq<char>)>) -> Seq<
    char,
>
    decreases settings.len() + live.len(),
{
    if live.len() > 0 {
        category_text(settings, live.drop_last()) + padded(live.last().0, 32) + " "@ + live.last().1
            + " (live)\n"@
    } else if settings.len() > 0 {
        category_text(settings.drop_last(), live) + padded(settings.last().0, 32) + " "@ + settings.last().1
            + "\n"@
    } else {
        Seq::empty()
    }
}

/// The characters of each (key, value) pair.
pub open spec fn pairs_view(pairs: Seq<(&'static str, String)>) -> Seq<(Seq<char>, Seq<char>)> {
    pairs.map_values(|p: (&'static str, String)| (p.0@, p.1@))
}

/// What `list <category>` prints for the category's settings with their
/// current values, in registration order, and its live rows.
pub fn category_output(settings: &[(&'static str, String)], live: &[(&'static str, String)]) -> (r: String)
    ensures
        r@ == category_text(pairs_view(settings@), pairs_view(live@)),
{
    let ghost sv = pairs_view(settings@);
    let ghost lv = pairs_view(live@);
    let mut out = String::new();
    let mut i: usize = 0;
    assert(sv.take(0) =~= Seq::<(Seq<char>, Seq<char>)>::empty());
    assert(lv.take(0) =~= Seq::<(Seq<char>, Seq<char>)>::empty());
    while i < settings.len()
        invariant
            sv == pairs_view(settings@),
            lv == pairs_view(live@),
            i <= settings@.len(),
            out@ == category_text(sv.take(i as int), lv.take(0)),
        decreases settings.len() - i,
    {
        let (key, value) = &settings[i];
        let k = crate::text::pad_right(key, 32);
        let ghost before = out@;
        out.append(k.as_str());
        out.append(" ");
        out.append(value.as_str());
        out.append("\n");
        proof {
            assert(sv.take(i + 1).drop_last() =~= sv.take(i as int));
            assert(sv.take(i + 1).last() == (key@, value@));
            assert(out@ =~= category_text(sv.take(i + 1), lv.take(0)));
        }
        i += 1;
    }
    assert(sv.take(settings@.len() as int) =~= sv);
    let mut j: usize = 0;
    while j < live.len()
        invariant
            sv == pairs_view(settings@),
            lv == pairs_view(live@),
            j <= live@.len(),
            out@ == category_text(sv, lv.take(j as int)),
        decreases live.len() - j,
    {
        let (label, value) = &live[j];
        let l = crate::text::pad_right(label, 32);
        let ghost before = out@;
        out.append(l.as_str());
        out.append(" ");
        out.append(value.as_str());
        out.append(" (live)\n");
        proof {
            assert(lv.take(j + 1).drop_last() =~= lv.take(j as int));
            assert(lv.take(j + 1).last() == (label@, value@));
            assert(out@ =~= category_text(sv, lv.take(j + 1)));
        }
        j += 1;
    }
    assert(lv.take(live@.len() as int) =~= lv);
    out
}

} // verus!
