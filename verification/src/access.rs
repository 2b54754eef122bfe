//! Which API keys a caller may see: administrators see every key, other
//! callers only the keys their user owns, and a non-administrator without a
//! user session is refused.

use vstd::prelude::*;

use vstd::hash_set::StringHashSet;

use crate::actor::{admin_role, is_admin_role, system_admin_role, RpcActor};

verus! {

/// The keys a request may cover.
#[derive(Debug, Clone, PartialEq, Eq)]
pub enum KeyScope {
    /// Every key.
    All,
    /// Only the keys owned by this user id.
    OwnedBy(String),
}

/// The listing a scope is asked for; it names the refusal message.
#[derive(Debug, Clone, Copy, PartialEq, Eq)]
pub enum ScopedListing {
    ApiKeys,
    ApiKeyUsage,
    Startup,
}

pub open spec fn session_required_text(listing: ScopedListing) -> Seq<char> {
    match listing {
        ScopedListing::ApiKeys => "permission_denied: apikey requires user session"@,
        ScopedListing::ApiKeyUsage => "permission_denied: apikey usage requires user session"@,
        ScopedListing::Startup => "permission_denied: startup requires user session"@,
    }
}

/// The refusal sent to a non-administrator without a user session.
pub fn session_required_message(listing: ScopedListing) -> (m: String)
    ensures
        m@ == session_required_text(listing),
{
    match listing {
        ScopedListing::ApiKeys => String::from_str("permission_denied: apikey requires user session"),
        ScopedListing::ApiKeyUsage => String::from_str(
            "permission_denied: apikey usage requires user session",
        ),
        ScopedListing::Startup => String::from_str("permission_denied: startup requires user session"),
    }
}

/// The scope `actor` is given for `listing`.
pub open spec fn scope_spec(actor: RpcActor, listing: ScopedListing) -> Result<Option<Seq<char>>, Seq<char>> {
    if is_admin_role(actor.role@) {
        Ok(None)
    } else {
        match actor.user_id {
            Some(u) => Ok(Some(u@)),
            None => Err(session_required_text(listing)),
        }
    }
}

/// The view of a scope: `None` for every key, `Some(user)` for one user's keys.
pub open spec fn scope_view(scope: KeyScope) -> Option<Seq<char>> {
    match scope {
        KeyScope::All => None,
        KeyScope::OwnedBy(u) => Some(u@),
    }
}

pub open spec fn scope_result_view(r: Result<KeyScope, String>) -> Result<Option<Seq<char>>, Seq<char>> {
    match r {
        Ok(s) => Ok(scope_view(s)),
        Err(e) => Err(e@),
    }
}

/// Decides which keys `actor` may see in `listing`.
pub fn key_scope(actor: &RpcActor, listing: ScopedListing) -> (r: Result<KeyScope, String>)
    ensures
        scope_result_view(r) == scope_spec(*actor, listing),
        actor.role@ == system_admin_role() || actor.role@ == admin_role() ==> r == Ok::<
            KeyScope,
            String,
        >(KeyScope::All),
        actor.role@ != system_admin_role() && actor.role@ != admin_role() ==> match actor.user_id {
            Some(u) => r matches Ok(KeyScope::OwnedBy(owner)) && owner@ == u@,
            None => r matches Err(e) && e@ == session_required_text(listing),
        },
{
    if actor.is_admin() {
        return Ok(KeyScope::All);
    }
    match &actor.user_id {
        Some(u) => Ok(KeyScope::OwnedBy(u.clone())),
        None => Err(session_required_message(listing)),
    }
}

/// An administrator (`system_admin` or `admin`) is scoped to every key
/// whatever user id it carries; any other caller is scoped to the keys of its
/// own user id, and refused when it has none.
pub proof fn lemma_scope_by_role(actor: RpcActor, listing: ScopedListing)
    ensures
        actor.role@ == system_admin_role() ==> scope_spec(actor, listing) == Ok::<
            Option<Seq<char>>,
            Seq<char>,
        >(None),
        actor.role@ == admin_role() ==> scope_spec(actor, listing) == Ok::<
            Option<Seq<char>>,
            Seq<char>,
        >(None),
        actor.role@ != system_admin_role() && actor.role@ != admin_role() ==> match actor.user_id {
            Some(u) => scope_spec(actor, listing) == Ok::<Option<Seq<char>>, Seq<char>>(Some(u@)),
            None => scope_spec(actor, listing) is Err,
        },
{
}

/// Which parts of the start-up snapshot a scope receives beyond its keys,
/// key models and request logs.
#[derive(Debug, Clone, Copy, PartialEq, Eq)]
pub struct StartupSections {
    pub accounts: bool,
    pub usage_snapshots: bool,
    pub usage_aggregate_summary: bool,
    pub manual_preferred_account: bool,
}

/// Every caller scoped to all keys receives the accounts, usage snapshots,
/// usage summary and preferred account; a caller scoped to its own keys
/// receives none of them.
pub open spec fn sections_for(scope: KeyScope) -> StartupSections {
    let all = scope is All;
    StartupSections {
        accounts: all,
        usage_snapshots: all,
        usage_aggregate_summary: all,
        manual_preferred_account: all,
    }
}

/// The snapshot sections `scope` receives.
pub fn startup_sections(scope: &KeyScope) -> (r: StartupSections)
    ensures
        r == sections_for(*scope),
{
    let all: bool = match scope {
        KeyScope::All => true,
        KeyScope::OwnedBy(_) => false,
    };
    StartupSections {
        accounts: all,
        usage_snapshots: all,
        usage_aggregate_summary: all,
        manual_preferred_account: all,
    }
}

/// The views of a list of strings.
pub open spec fn string_views(v: Seq<String>) -> Seq<Seq<char>> {
    v.map_values(|s: String| s@)
}

/// The items whose id is in `owned`, in their original order.
pub open spec fn owned_items<T>(items: Seq<T>, ids: Seq<Seq<char>>, owned: Seq<Seq<char>>) -> Seq<T>
    decreases items.len(),
{
    if items.len() == 0 {
        Seq::empty()
    } else {
        let rest = owned_items(items.drop_last(), ids.take(items.len() - 1), owned);
        if owned.contains(ids[items.len() - 1]) {
            rest.push(items.last())
        } else {
            rest
        }
    }
}

/// The set of the ids in `owned`.
fn owned_id_set(owned: &Vec<String>) -> (set: StringHashSet)
    ensures
        forall|s: Seq<char>| set@.contains(s) <==> string_views(owned@).contains(s),
{
    let mut set: StringHashSet = StringHashSet::new();
    let mut i: usize = 0;
    while i < owned.len()
        invariant
            0 <= i <= owned.len(),
            forall|s: Seq<char>| set@.contains(s) <==> string_views(owned@.take(i as int)).contains(s),
        decreases owned.len() - i,
    {
        let id: String = owned[i].clone();
        set.insert(id);
        proof {
            let prev = string_views(owned@.take(i as int));
            let next = string_views(owned@.take(i + 1));
            assert(next =~= prev.push(owned@[i as int]@));
            assert forall|s: Seq<char>| set@.contains(s) <==> next.contains(s) by {
                if next.contains(s) && s != owned@[i as int]@ {
                    let k = choose|k: int| 0 <= k < next.len() && next[k] == s;
                    assert(prev[k] == s);
                }
                if prev.contains(s) {
                    let k = choose|k: int| 0 <= k < prev.len() && prev[k] == s;
                    assert(next[k] == s);
                }
                assert(next[i as int] == owned@[i as int]@);
            }
        }
        i = i + 1;
    }
    proof {
        assert(owned@.take(owned.len() as int) =~= owned@);
    }
    set
}

/// Keeps the items whose id, given at the same position in `item_ids`, is
/// one of `owned_ids`; the kept items stay in their order.
pub fn retain_owned<T>(items: Vec<T>, item_ids: &Vec<String>, owned_ids: &Vec<String>) -> (kept: Vec<T>)
    requires
        items.len() == item_ids.len(),
    ensures
        kept@ == owned_items(items@, string_views(item_ids@), string_views(owned_ids@)),
{
    let ghost all = items@;
    let ghost ids = string_views(item_ids@);
    let ghost owned = string_views(owned_ids@);
    let mut rest: Vec<T> = items;
    let mut kept: Vec<T> = Vec::new();
    let owned_set: StringHashSet = owned_id_set(owned_ids);
    let n: usize = item_ids.len();
    let mut i: usize = 0;
    while i < n
        invariant
            n == item_ids.len(),
            n == all.len(),
            ids == string_views(item_ids@),
            owned == string_views(owned_ids@),
            forall|s: Seq<char>| owned_set@.contains(s) <==> owned.contains(s),
            0 <= i <= n,
            rest@ == all.skip(i as int),
            kept@ == owned_items(all.take(i as int), ids.take(i as int), owned),
        decreases n - i,
    {
        let item: T = rest.remove(0);
        proof {
            assert(all.take(i + 1).drop_last() =~= all.take(i as int));
            assert(ids.take(i + 1).take(i as int) =~= ids.take(i as int));
            assert(all.take(i + 1).last() == all[i as int]);
            assert(ids.take(i + 1)[i as int] == item_ids@[i as int]@);
        }
        if owned_set.contains(item_ids[i].as_str()) {
            kept.push(item);
        }
        i = i + 1;
        proof {
            assert(rest@ =~= all.skip(i as int));
        }
    }
    proof {
        assert(all.take(n as int) =~= all);
        assert(ids.take(n as int) =~= ids);
    }
    kept
}

/// The position in `items` that the `j`-th kept item comes from.
pub open spec fn kept_position<T>(items: Seq<T>, ids: Seq<Seq<char>>, owned: Seq<Seq<char>>, j: int) -> int
    decreases items.len(),
{
    if items.len() == 0 {
        0
    } else {
        let m = items.len() - 1;
        if j < owned_items(items.drop_last(), ids.take(m), owned).len() {
            kept_position(items.drop_last(), ids.take(m), owned, j)
        } else {
            m
        }
    }
}

proof fn lemma_owned_items_len<T>(items: Seq<T>, ids: Seq<Seq<char>>, owned: Seq<Seq<char>>)
    ensures
        owned_items(items, ids, owned).len() <= items.len(),
    decreases items.len(),
{
    if items.len() > 0 {
        lemma_owned_items_len(items.drop_last(), ids.take(items.len() - 1), owned);
    }
}

proof fn lemma_kept_position<T>(items: Seq<T>, ids: Seq<Seq<char>>, owned: Seq<Seq<char>>, j: int)
    requires
        items.len() == ids.len(),
        0 <= j < owned_items(items, ids, owned).len(),
    ensures
        0 <= kept_position(items, ids, owned, j) < items.len(),
        owned.contains(ids[kept_position(items, ids, owned, j)]),
        items[kept_position(items, ids, owned, j)] == owned_items(items, ids, owned)[j],
    decreases items.len(),
{
    let m = items.len() - 1;
    let pi = items.drop_last();
    let pids = ids.take(m);
    let rest = owned_items(pi, pids, owned);
    if j < rest.len() {
        lemma_kept_position(pi, pids, owned, j);
        let k = kept_position(pi, pids, owned, j);
        assert(ids[k] == pids[k]);
        assert(items[k] == pi[k]);
    } else {
        lemma_owned_items_len(pi, pids, owned);
    }
}

/// Every kept item stands at a position of the input whose id is owned, and
/// the kept list is never longer than the input.
pub proof fn lemma_owned_items_are_owned<T>(items: Seq<T>, ids: Seq<Seq<char>>, owned: Seq<Seq<char>>)
    requires
        items.len() == ids.len(),
    ensures
        owned_items(items, ids, owned).len() <= items.len(),
        forall|j: int|
            #![trigger kept_position(items, ids, owned, j)]
            0 <= j < owned_items(items, ids, owned).len() ==> {
                &&& 0 <= kept_position(items, ids, owned, j) < items.len()
                &&& owned.contains(ids[kept_position(items, ids, owned, j)])
                &&& items[kept_position(items, ids, owned, j)] == owned_items(items, ids, owned)[j]
            },
{
    lemma_owned_items_len(items, ids, owned);
    assert forall|j: int|
        #![trigger kept_position(items, ids, owned, j)]
        0 <= j < owned_items(items, ids, owned).len() implies {
        &&& 0 <= kept_position(items, ids, owned, j) < items.len()
        &&& owned.contains(ids[kept_position(items, ids, owned, j)])
        &&& items[kept_position(items, ids, owned, j)] == owned_items(items, ids, owned)[j]
    } by {
        lemma_kept_position(items, ids, owned, j);
    }
}

/// When every id is owned, nothing is dropped.
pub proof fn lemma_all_owned_keeps_everything<T>(items: Seq<T>, ids: Seq<Seq<char>>, owned: Seq<Seq<char>>)
    requires
        items.len() == ids.len(),
        forall|k: int| 0 <= k < ids.len() ==> owned.contains(#[trigger] ids[k]),
    ensures
        owned_items(items, ids, owned) == items,
    decreases items.len(),
{
    if items.len() > 0 {
        let m = items.len() - 1;
        assert forall|k: int| 0 <= k < ids.take(m).len() implies owned.contains(#[trigger] ids.take(m)[k]) by {
            assert(ids.take(m)[k] == ids[k]);
        }
        lemma_all_owned_keeps_everything(items.drop_last(), ids.take(m), owned);
        assert(owned.contains(ids[m]));
        assert(items.drop_last().push(items.last()) =~= items);
    }
}

/// When no id is owned, nothing is kept.
pub proof fn lemma_none_owned_keeps_nothing<T>(items: Seq<T>, ids: Seq<Seq<char>>, owned: Seq<Seq<char>>)
    requires
        items.len() == ids.len(),
        forall|k: int| 0 <= k < ids.len() ==> !owned.contains(#[trigger] ids[k]),
    ensures
        owned_items(items, ids, owned).len() == 0,
    decreases items.len(),
{
    if items.len() > 0 {
        let m = items.len() - 1;
        assert forall|k: int| 0 <= k < ids.take(m).len() implies !owned.contains(#[trigger] ids.take(m)[k]) by {
            assert(ids.take(m)[k] == ids[k]);
        }
        lemma_none_owned_keeps_nothing(items.drop_last(), ids.take(m), owned);
        assert(!owned.contains(ids[m]));
    }
}

} // verus!
