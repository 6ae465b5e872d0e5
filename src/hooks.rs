//! Hook callbacks: the registry from callback ids to caller-supplied callbacks, and
//! the configuration announced to the peer at initialization, which gives every
//! declared hook function a fresh id `hook_<n>`.
use crate::ids::{hook_id, hook_id_text, lemma_hook_id_injective};
use crate::table::NameTable;
use vstd::prelude::*;

verus! {

/// A set of hook functions for one event, restricted to the tool or event
/// instances that `matcher` names (all of them when it is `None`).
#[derive(Debug, Clone)]
pub struct HookMatcher<H> {
    pub matcher: Option<String>,
    pub hooks: Vec<H>,
}

#[derive(Debug, Clone)]
pub struct HookContext {
    pub signal: Option<String>,
}

/// The announced form of one matcher: its pattern and the ids of its hooks.
#[derive(Debug, Clone)]
pub struct HookMatcherConfig {
    pub matcher: Option<String>,
    pub hook_callback_ids: Vec<String>,
}

/// The announced matchers of one event.
#[derive(Debug, Clone)]
pub struct HookEventConfig {
    pub event: String,
    pub matchers: Vec<HookMatcherConfig>,
}

pub open spec fn opt_view(o: Option<String>) -> Option<Seq<char>> {
    match o {
        Some(s) => Some(s@),
        None => None,
    }
}

pub open spec fn string_views(s: Seq<String>) -> Seq<Seq<char>> {
    s.map_values(|x: String| x@)
}

impl View for HookMatcherConfig {
    type V = (Option<Seq<char>>, Seq<Seq<char>>);

    open spec fn view(&self) -> Self::V {
        (opt_view(self.matcher), string_views(self.hook_callback_ids@))
    }
}

impl View for HookEventConfig {
    type V = (Seq<char>, Seq<(Option<Seq<char>>, Seq<Seq<char>>)>);

    open spec fn view(&self) -> Self::V {
        (self.event@, self.matchers@.map_values(|m: HookMatcherConfig| m@))
    }
}

/// The hook ids `hook_<n>` .. `hook_<n + len - 1>`, in order.
pub open spec fn ids_from(n: nat, len: nat) -> Seq<Seq<char>> {
    Seq::new(len, |k: int| hook_id_text(n + k as nat))
}

/// The hook functions of `ms`, matcher by matcher.
pub open spec fn matcher_hooks<H>(ms: Seq<HookMatcher<H>>) -> Seq<H>
    decreases ms.len(),
{
    if ms.len() == 0 {
        Seq::empty()
    } else {
        matcher_hooks(ms.drop_last()) + ms.last().hooks@
    }
}

/// The hook functions declared for all events of `hs`, event by event.
pub open spec fn event_hooks<H>(hs: Seq<(String, Vec<HookMatcher<H>>)>) -> Seq<H>
    decreases hs.len(),
{
    if hs.len() == 0 {
        Seq::empty()
    } else {
        event_hooks(hs.drop_last()) + matcher_hooks(hs.last().1@)
    }
}

/// The announced form of the matchers `ms` when their hooks are numbered from `n`.
pub open spec fn matcher_configs<H>(ms: Seq<HookMatcher<H>>, n: nat) -> Seq<(Option<Seq<char>>, Seq<Seq<char>>)>
    decreases ms.len(),
{
    if ms.len() == 0 {
        Seq::empty()
    } else {
        let init = ms.drop_last();
        matcher_configs(init, n).push(
            (opt_view(ms.last().matcher), ids_from(n + matcher_hooks(init).len(), ms.last().hooks@.len())),
        )
    }
}

/// The announced form of the declared hooks `hs` when they are numbered from `n`:
/// one entry per event that has at least one matcher, in declaration order.
pub open spec fn event_configs<H>(hs: Seq<(String, Vec<HookMatcher<H>>)>, n: nat) -> Seq<(Seq<char>, Seq<(Option<Seq<char>>, Seq<Seq<char>>)>)>
    decreases hs.len(),
{
    if hs.len() == 0 {
        Seq::empty()
    } else {
        let init = hs.drop_last();
        let prev = event_configs(init, n);
        if hs.last().1@.len() == 0 {
            prev
        } else {
            prev.push((hs.last().0@, matcher_configs(hs.last().1@, n + event_hooks(init).len())))
        }
    }
}

/// The registry map after registering `hooks` in order under the ids numbered
/// from `n`.
pub open spec fn registered_all<H>(m: Map<Seq<char>, H>, n: nat, hooks: Seq<H>) -> Map<Seq<char>, H>
    decreases hooks.len(),
{
    if hooks.len() == 0 {
        m
    } else {
        registered_all(m, n, hooks.drop_last()).insert(hook_id_text((n + hooks.len() - 1) as nat), hooks.last())
    }
}

proof fn lemma_registered_all_append<H>(m: Map<Seq<char>, H>, n: nat, a: Seq<H>, b: Seq<H>)
    ensures
        registered_all(m, n, a + b) == registered_all(registered_all(m, n, a), n + a.len(), b),
    decreases b.len(),
{
    if b.len() == 0 {
        assert(a + b =~= a);
    } else {
        lemma_registered_all_append(m, n, a, b.drop_last());
        assert((a + b).drop_last() =~= a + b.drop_last());
    }
}

/// The ids given out for one initialization are as many as the hook functions
/// declared across all matchers, and no two of them are equal.
pub proof fn lemma_hook_ids_distinct(n: nat, count: nat)
    ensures
        ids_from(n, count).len() == count,
        ids_from(n, count).no_duplicates(),
{
    assert forall|i: int, j: int| 0 <= i < ids_from(n, count).len() && 0 <= j < ids_from(n, count).len() && i != j
        implies ids_from(n, count)[i] != ids_from(n, count)[j] by {
        if ids_from(n, count)[i] == ids_from(n, count)[j] {
            lemma_hook_id_injective(n + i as nat, n + j as nat);
        }
    }
}

/// The ids of an announced matcher list, matcher by matcher.
pub open spec fn matcher_config_ids(c: Seq<(Option<Seq<char>>, Seq<Seq<char>>)>) -> Seq<Seq<char>>
    decreases c.len(),
{
    if c.len() == 0 {
        Seq::empty()
    } else {
        matcher_config_ids(c.drop_last()) + c.last().1
    }
}

/// The ids of an announced configuration, event by event.
pub open spec fn config_ids(c: Seq<(Seq<char>, Seq<(Option<Seq<char>>, Seq<Seq<char>>)>)>) -> Seq<Seq<char>>
    decreases c.len(),
{
    if c.len() == 0 {
        Seq::empty()
    } else {
        config_ids(c.drop_last()) + matcher_config_ids(c.last().1)
    }
}

proof fn lemma_ids_from_concat(n: nat, a: nat, b: nat)
    ensures
        ids_from(n, a) + ids_from(n + a, b) == ids_from(n, a + b),
{
    assert(ids_from(n, a) + ids_from(n + a, b) =~= ids_from(n, a + b));
}

proof fn lemma_matcher_config_ids<H>(ms: Seq<HookMatcher<H>>, n: nat)
    ensures
        matcher_config_ids(matcher_configs(ms, n)) == ids_from(n, matcher_hooks(ms).len()),
    decreases ms.len(),
{
    if ms.len() == 0 {
        assert(ids_from(n, 0) =~= Seq::<Seq<char>>::empty());
    } else {
        let init = ms.drop_last();
        lemma_matcher_config_ids(init, n);
        let c = matcher_configs(ms, n);
        assert(c.drop_last() =~= matcher_configs(init, n));
        lemma_ids_from_concat(n, matcher_hooks(init).len(), ms.last().hooks@.len());
    }
}

proof fn lemma_event_config_ids<H>(hs: Seq<(String, Vec<HookMatcher<H>>)>, n: nat)
    ensures
        config_ids(event_configs(hs, n)) == ids_from(n, event_hooks(hs).len()),
    decreases hs.len(),
{
    if hs.len() == 0 {
        assert(ids_from(n, 0) =~= Seq::<Seq<char>>::empty());
    } else {
        let init = hs.drop_last();
        lemma_event_config_ids(init, n);
        let ms = hs.last().1@;
        if ms.len() == 0 {
            assert(matcher_hooks(ms) =~= Seq::<H>::empty());
            assert(event_hooks(hs) =~= event_hooks(init));
        } else {
            let c = event_configs(hs, n);
            assert(c.drop_last() =~= event_configs(init, n));
            lemma_matcher_config_ids(ms, n + event_hooks(init).len());
            lemma_ids_from_concat(n, event_hooks(init).len(), matcher_hooks(ms).len());
        }
    }
}

proof fn lemma_registered_all_maps<H>(m: Map<Seq<char>, H>, n: nat, hooks: Seq<H>)
    ensures
        forall|k: int| 0 <= k < hooks.len() ==> #[trigger] registered_all(m, n, hooks).contains_key(hook_id_text(n + k as nat))
            && registered_all(m, n, hooks)[hook_id_text(n + k as nat)] == hooks[k],
        forall|s: Seq<char>| !ids_from(n, hooks.len()).contains(s) ==> (#[trigger] registered_all(m, n, hooks).contains_key(s)
            <==> m.contains_key(s)),
        forall|s: Seq<char>| !ids_from(n, hooks.len()).contains(s) && m.contains_key(s) ==> #[trigger] registered_all(m, n, hooks)[s] == m[s],
    decreases hooks.len(),
{
    if hooks.len() > 0 {
        let init = hooks.drop_last();
        let last = (n + hooks.len() - 1) as nat;
        lemma_registered_all_maps(m, n, init);
        assert forall|k: int| 0 <= k < hooks.len() implies #[trigger] registered_all(m, n, hooks).contains_key(hook_id_text(n + k as nat))
            && registered_all(m, n, hooks)[hook_id_text(n + k as nat)] == hooks[k] by {
            let prev = registered_all(m, n, init);
            assert(registered_all(m, n, hooks) == prev.insert(hook_id_text(last), hooks.last()));
            if k < hooks.len() - 1 {
                assert(prev.contains_key(hook_id_text(n + k as nat)));
                if hook_id_text(n + k as nat) == hook_id_text(last) {
                    lemma_hook_id_injective(n + k as nat, last);
                }
                assert(init[k] == hooks[k]);
            } else {
                assert(n + k as nat == last);
            }
        }
        assert forall|s: Seq<char>| !ids_from(n, hooks.len()).contains(s) implies (#[trigger] registered_all(m, n, hooks).contains_key(s)
            <==> m.contains_key(s)) && (m.contains_key(s) ==> registered_all(m, n, hooks)[s] == m[s]) by {
            let prev = registered_all(m, n, init);
            assert(registered_all(m, n, hooks) == prev.insert(hook_id_text(last), hooks.last()));
            assert(ids_from(n, hooks.len())[hooks.len() - 1] == hook_id_text(last));
            assert(s != hook_id_text(last));
            if ids_from(n, init.len()).contains(s) {
                let j = choose|j: int| 0 <= j < ids_from(n, init.len()).len() && ids_from(n, init.len())[j] == s;
                assert(ids_from(n, hooks.len())[j] == s);
            }
            assert(prev.contains_key(s) == m.contains_key(s));
            if m.contains_key(s) {
                assert(prev[s] == m[s]);
            }
        }
        assert forall|s: Seq<char>| !ids_from(n, hooks.len()).contains(s) && m.contains_key(s) implies #[trigger] registered_all(m, n, hooks)[s] == m[s] by {
            assert(registered_all(m, n, hooks).contains_key(s) <==> m.contains_key(s));
        }
    }
}

/// What one initialization does to the hook ids, for the hooks `hs` numbered from
/// `n` and a registry that held `m`: the announced ids are `hook_<n>` onwards, as
/// many as the hook functions declared across all matchers and pairwise
/// distinct; each is registered to its own hook function, in declaration order;
/// every other id keeps what it had.
pub proof fn lemma_initialize_hook_ids<H>(m: Map<Seq<char>, H>, hs: Seq<(String, Vec<HookMatcher<H>>)>, n: nat)
    ensures
        config_ids(event_configs(hs, n)) == ids_from(n, event_hooks(hs).len()),
        config_ids(event_configs(hs, n)).len() == event_hooks(hs).len(),
        config_ids(event_configs(hs, n)).no_duplicates(),
        forall|k: int| 0 <= k < event_hooks(hs).len() ==> #[trigger] registered_all(m, n, event_hooks(hs)).contains_key(
            config_ids(event_configs(hs, n))[k],
        ) && registered_all(m, n, event_hooks(hs))[config_ids(event_configs(hs, n))[k]] == event_hooks(hs)[k],
        forall|s: Seq<char>| !config_ids(event_configs(hs, n)).contains(s) && m.contains_key(s)
            ==> #[trigger] registered_all(m, n, event_hooks(hs))[s] == m[s],
{
    lemma_event_config_ids(hs, n);
    lemma_hook_ids_distinct(n, event_hooks(hs).len());
    lemma_registered_all_maps(m, n, event_hooks(hs));
    assert forall|k: int| 0 <= k < event_hooks(hs).len() implies #[trigger] registered_all(m, n, event_hooks(hs)).contains_key(
            config_ids(event_configs(hs, n))[k],
        ) && registered_all(m, n, event_hooks(hs))[config_ids(event_configs(hs, n))[k]] == event_hooks(hs)[k] by {
        assert(config_ids(event_configs(hs, n))[k] == hook_id_text(n + k as nat));
        assert(registered_all(m, n, event_hooks(hs)).contains_key(hook_id_text(n + k as nat)));
    }
}

/// Callbacks by id, and the counter from which fresh ids are numbered.
pub struct HookRegistry<H> {
    table: NameTable<H>,
    next_id: u64,
}

impl<H> HookRegistry<H> {
    /// The registered callbacks, by id.
    pub closed spec fn callbacks(&self) -> Map<Seq<char>, H> {
        self.table.map()
    }

    /// The number from which the next fresh id is made.
    pub closed spec fn next_id(&self) -> nat {
        self.next_id as nat
    }

    pub closed spec fn wf(&self) -> bool {
        self.table.wf()
    }

    pub fn new() -> (r: Self)
        ensures
            r.wf(),
            r.callbacks() == Map::<Seq<char>, H>::empty(),
            r.next_id() == 0,
    {
        HookRegistry { table: NameTable::new(), next_id: 0 }
    }

    /// Registers `callback` under `id`, replacing any callback registered there.
    pub fn register(&mut self, id: String, callback: H)
        requires
            old(self).wf(),
        ensures
            final(self).wf(),
            final(self).callbacks() == old(self).callbacks().insert(id@, callback),
            final(self).next_id() == old(self).next_id(),
    {
        self.table.insert(id, callback);
    }

    /// The callback registered under `id`, if any.
    pub fn lookup(&self, id: &String) -> (r: Option<&H>)
        requires
            self.wf(),
        ensures
            match r {
                Some(h) => self.callbacks().contains_key(id@) && *h == self.callbacks()[id@],
                None => !self.callbacks().contains_key(id@),
            },
    {
        self.table.get(id)
    }

    /// Whether `count` more ids can be numbered without the counter overflowing.
    pub fn fits(&self, count: u64) -> (r: bool)
        ensures
            r == (self.next_id() + count <= u64::MAX),
    {
        count <= u64::MAX - self.next_id
    }

    /// Gives each hook function of `m` the next fresh id, in order, registers it
    /// under that id, and returns the announced form of the matcher.
    fn matcher_config(&mut self, m: HookMatcher<H>) -> (r: HookMatcherConfig)
        requires
            old(self).wf(),
            old(self).next_id() + m.hooks@.len() <= u64::MAX,
        ensures
            final(self).wf(),
            r@ == (opt_view(m.matcher), ids_from(old(self).next_id(), m.hooks@.len())),
            final(self).next_id() == old(self).next_id() + m.hooks@.len(),
            final(self).callbacks() == registered_all(old(self).callbacks(), old(self).next_id(), m.hooks@),
    {
        let ghost n0 = self.next_id as nat;
        let ghost all = m.hooks@;
        let ghost start = self.table.map();
        let mut rest = m.hooks;
        let len0 = rest.len();
        let mut ids: Vec<String> = Vec::new();
        let mut i: usize = 0;
        while rest.len() > 0
            invariant
                self.wf(),
                i <= all.len(),
                all.len() == len0,
                rest@ == all.subrange(i as int, all.len() as int),
                self.next_id == n0 + i,
                n0 + all.len() <= u64::MAX,
                string_views(ids@) == ids_from(n0, i as nat),
                self.table.map() == registered_all(start, n0, all.take(i as int)),
            decreases rest.len(),
        {
            let h = rest.remove(0);
            proof {
                assert(h == all[i as int]);
            }
            let id = hook_id(self.next_id);
            self.register(id.clone(), h);
            let ghost before = ids@;
            ids.push(id);
            proof {
                assert(string_views(before).len() == before.len());
                assert(before.len() == i);
                assert(all.take(i + 1).drop_last() =~= all.take(i as int));
                assert(all.take(i + 1).last() == h);
                assert forall|k: int| 0 <= k < i + 1 implies #[trigger] string_views(ids@)[k] == ids_from(n0, (i + 1) as nat)[k] by {
                    if k < i {
                        assert(ids@[k] == before[k]);
                        assert(string_views(before)[k] == ids_from(n0, i as nat)[k]);
                    }
                }
                assert(string_views(ids@) =~= ids_from(n0, (i + 1) as nat));
            }
            self.next_id = self.next_id + 1;
            i = i + 1;
        }
        proof {
            assert(all.take(i as int) =~= all);
        }
        HookMatcherConfig { matcher: m.matcher, hook_callback_ids: ids }
    }

    /// The announced form of the matchers of one event, numbering their hook
    /// functions in order from the next fresh id.
    fn event_config(&mut self, ms: Vec<HookMatcher<H>>) -> (r: Vec<HookMatcherConfig>)
        requires
            old(self).wf(),
            old(self).next_id() + matcher_hooks(ms@).len() <= u64::MAX,
        ensures
            final(self).wf(),
            r@.map_values(|c: HookMatcherConfig| c@) == matcher_configs(ms@, old(self).next_id()),
            final(self).next_id() == old(self).next_id() + matcher_hooks(ms@).len(),
            final(self).callbacks() == registered_all(old(self).callbacks(), old(self).next_id(), matcher_hooks(ms@)),
    {
        let ghost n0 = self.next_id as nat;
        let ghost all = ms@;
        let ghost start = self.table.map();
        let mut rest = ms;
        let len0 = rest.len();
        let mut out: Vec<HookMatcherConfig> = Vec::new();
        let mut i: usize = 0;
        while rest.len() > 0
            invariant
                self.wf(),
                i <= all.len(),
                all.len() == len0,
                rest@ == all.subrange(i as int, all.len() as int),
                self.next_id == n0 + matcher_hooks(all.take(i as int)).len(),
                n0 + matcher_hooks(all).len() <= u64::MAX,
                out@.map_values(|c: HookMatcherConfig| c@) == matcher_configs(all.take(i as int), n0),
                self.table.map() == registered_all(start, n0, matcher_hooks(all.take(i as int))),
            decreases rest.len(),
        {
            let m = rest.remove(0);
            proof {
                assert(i < all.len());
                assert(m == all[i as int]);
                assert(all.take(i + 1).drop_last() =~= all.take(i as int));
                assert(all.take(i + 1).last() == m);
                lemma_matcher_hooks_prefix(all, i + 1);
                lemma_matcher_hooks_monotone(all, i + 1);
                lemma_registered_all_append(start, n0, matcher_hooks(all.take(i as int)), m.hooks@);
            }
            let c = self.matcher_config(m);
            out.push(c);
            proof {
                assert(out@.map_values(|c: HookMatcherConfig| c@) =~= matcher_configs(all.take(i + 1), n0));
            }
            i = i + 1;
        }
        proof {
            assert(all.take(i as int) =~= all);
        }
        out
    }

    /// The announced form of all declared hooks: for each event with at least one
    /// matcher, in order, its matchers with their hook functions numbered from the
    /// next fresh id; each hook function is registered under its id.
    pub fn hooks_config(&mut self, hs: Vec<(String, Vec<HookMatcher<H>>)>) -> (r: Vec<HookEventConfig>)
        requires
            old(self).wf(),
            old(self).next_id() + event_hooks(hs@).len() <= u64::MAX,
        ensures
            final(self).wf(),
            r@.map_values(|c: HookEventConfig| c@) == event_configs(hs@, old(self).next_id()),
            final(self).next_id() == old(self).next_id() + event_hooks(hs@).len(),
            final(self).callbacks() == registered_all(old(self).callbacks(), old(self).next_id(), event_hooks(hs@)),
    {
        let ghost n0 = self.next_id as nat;
        let ghost all = hs@;
        let ghost start = self.table.map();
        let mut rest = hs;
        let len0 = rest.len();
        let mut out: Vec<HookEventConfig> = Vec::new();
        let mut i: usize = 0;
        while rest.len() > 0
            invariant
                self.wf(),
                i <= all.len(),
                all.len() == len0,
                rest@ == all.subrange(i as int, all.len() as int),
                self.next_id == n0 + event_hooks(all.take(i as int)).len(),
                n0 + event_hooks(all).len() <= u64::MAX,
                out@.map_values(|c: HookEventConfig| c@) == event_configs(all.take(i as int), n0),
                self.table.map() == registered_all(start, n0, event_hooks(all.take(i as int))),
            decreases rest.len(),
        {
            let (event, ms) = rest.remove(0);
            proof {
                assert(i < all.len());
                assert((event, ms) == all[i as int]);
                assert(all.take(i + 1).drop_last() =~= all.take(i as int));
                assert(all.take(i + 1).last() == (event, ms));
                lemma_event_hooks_prefix(all, i + 1);
                lemma_event_hooks_monotone(all, i + 1);
                lemma_registered_all_append(start, n0, event_hooks(all.take(i as int)), matcher_hooks(ms@));
            }
            if ms.len() > 0 {
                let matchers = self.event_config(ms);
                out.push(HookEventConfig { event, matchers });
                proof {
                    assert(out@.map_values(|c: HookEventConfig| c@) =~= event_configs(all.take(i + 1), n0));
                }
            } else {
                proof {
                    assert(matcher_hooks(ms@) =~= Seq::<H>::empty());
                    assert(event_hooks(all.take(i as int)) + matcher_hooks(ms@) =~= event_hooks(all.take(i as int)));
                }
            }
            i = i + 1;
        }
        proof {
            assert(all.take(i as int) =~= all);
        }
        out
    }
}

proof fn lemma_matcher_hooks_prefix<H>(all: Seq<HookMatcher<H>>, i: int)
    requires
        0 < i <= all.len(),
    ensures
        matcher_hooks(all.take(i)) == matcher_hooks(all.take(i - 1)) + all[i - 1].hooks@,
        matcher_hooks(all.take(i - 1)).len() <= matcher_hooks(all.take(i)).len(),
{
    assert(all.take(i).drop_last() =~= all.take(i - 1));
}

proof fn lemma_matcher_hooks_monotone<H>(all: Seq<HookMatcher<H>>, j: int)
    requires
        0 <= j <= all.len(),
    ensures
        matcher_hooks(all.take(j)).len() <= matcher_hooks(all).len(),
    decreases all.len() - j,
{
    if j == all.len() {
        assert(all.take(j) =~= all);
    } else {
        lemma_matcher_hooks_prefix(all, j + 1);
        lemma_matcher_hooks_monotone(all, j + 1);
    }
}

proof fn lemma_event_hooks_monotone<H>(all: Seq<(String, Vec<HookMatcher<H>>)>, j: int)
    requires
        0 <= j <= all.len(),
    ensures
        event_hooks(all.take(j)).len() <= event_hooks(all).len(),
    decreases all.len() - j,
{
    if j == all.len() {
        assert(all.take(j) =~= all);
    } else {
        lemma_event_hooks_prefix(all, j + 1);
        lemma_event_hooks_monotone(all, j + 1);
    }
}

proof fn lemma_event_hooks_prefix<H>(all: Seq<(String, Vec<HookMatcher<H>>)>, i: int)
    requires
        0 < i <= all.len(),
    ensures
        event_hooks(all.take(i)) == event_hooks(all.take(i - 1)) + matcher_hooks(all[i - 1].1@),
{
    assert(all.take(i).drop_last() =~= all.take(i - 1));
}

/// The number of hook functions declared across all matchers of `hs`, or `None`
/// when that number does not fit in a `u64`.
pub fn count_hooks<H>(hs: &Vec<(String, Vec<HookMatcher<H>>)>) -> (r: Option<u64>)
    ensures
        match r {
            Some(t) => t == event_hooks(hs@).len(),
            None => event_hooks(hs@).len() > u64::MAX,
        },
{
    let mut total: u64 = 0;
    let mut i: usize = 0;
    while i < hs.len()
        invariant
            i <= hs@.len(),
            total == event_hooks(hs@.take(i as int)).len(),
        decreases hs@.len() - i,
    {
        let ms = &hs[i].1;
        let mut j: usize = 0;
        proof {
            lemma_event_hooks_prefix(hs@, i + 1);
            assert(ms@.take(0) =~= Seq::<HookMatcher<H>>::empty());
        }
        while j < ms.len()
            invariant
                i < hs@.len(),
                ms == &hs@[i as int].1,
                j <= ms@.len(),
                total == event_hooks(hs@.take(i as int)).len() + matcher_hooks(ms@.take(j as int)).len(),
            decreases ms@.len() - j,
        {
            proof {
                lemma_matcher_hooks_prefix(ms@, j + 1);
            }
            let n = ms[j].hooks.len() as u64;
            match total.checked_add(n) {
                Some(t) => total = t,
                None => {
                    proof {
                        lemma_matcher_hooks_monotone(ms@, j + 1);
                        lemma_event_hooks_monotone(hs@, i + 1);
                        lemma_event_hooks_prefix(hs@, i + 1);
                        assert(n == ms@[j as int].hooks@.len());
                        assert(matcher_hooks(ms@.take(j + 1)).len() == matcher_hooks(ms@.take(j as int)).len() + n);
                        assert(event_hooks(hs@.take(i + 1)).len() == event_hooks(hs@.take(i as int)).len() + matcher_hooks(ms@).len());
                    }
                    return None;
                },
            }
            j = j + 1;
        }
        proof {
            assert(ms@.take(j as int) =~= ms@);
        }
        i = i + 1;
    }
    proof {
        assert(hs@.take(i as int) =~= hs@);
    }
    Some(total)
}

} // verus!
