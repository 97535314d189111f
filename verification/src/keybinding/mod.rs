//! Keybindings: which key does what, in which part of the screen.
pub mod action;
pub mod key;

use vstd::prelude::*;

use crate::keybinding::action::{all_actions, Action};
use crate::keybinding::key::{key_before, key_le, key_lt, lemma_key_order, sort_rank_of, KeyCode};

pub use crate::keybinding::action::footer_actions;

verus! {

broadcast use vstd::seq_lib::group_to_multiset_ensures;

/// The part of the screen a binding applies to; `Global` applies everywhere.
#[derive(Debug, Clone, Copy, PartialEq, Eq, Hash, Structural)]
pub enum Context {
    Tree,
    Detail,
    Popup,
    Global,
}

struct Binding {
    context: Context,
    key: KeyCode,
    action: Action,
}

spec fn bkey(b: Binding) -> (Context, KeyCode) {
    (b.context, b.key)
}

spec fn unique_keys(s: Seq<Binding>) -> bool {
    forall|i: int, j: int|
        0 <= i < s.len() && 0 <= j < s.len() && i != j ==> bkey(s[i]) != bkey(s[j])
}

spec fn binding_map(s: Seq<Binding>) -> Map<(Context, KeyCode), Action>
    decreases s.len(),
{
    if s.len() == 0 {
        Map::empty()
    } else {
        binding_map(s.drop_last()).insert(bkey(s.last()), s.last().action)
    }
}

proof fn lemma_binding_map(s: Seq<Binding>, k: (Context, KeyCode))
    requires
        unique_keys(s),
    ensures
        binding_map(s).contains_key(k) <==> exists|i: int| 0 <= i < s.len() && bkey(s[i]) == k,
        forall|i: int| 0 <= i < s.len() && bkey(s[i]) == k ==> binding_map(s)[k] == s[i].action,
    decreases s.len(),
{
    if s.len() > 0 {
        let t = s.drop_last();
        assert(unique_keys(t));
        lemma_binding_map(t, k);
        if binding_map(s).contains_key(k) && bkey(s.last()) != k {
            let i = choose|i: int| 0 <= i < t.len() && bkey(t[i]) == k;
            assert(bkey(s[i]) == k);
        }
        if exists|i: int| 0 <= i < s.len() && bkey(s[i]) == k {
            let i = choose|i: int| 0 <= i < s.len() && bkey(s[i]) == k;
            if i < s.len() - 1 {
                assert(bkey(t[i]) == k);
            }
        }
    }
}

/// A table from (context, key) to action.
pub struct Keymap {
    bindings: Vec<Binding>,
}

impl View for Keymap {
    type V = Map<(Context, KeyCode), Action>;

    closed spec fn view(&self) -> Map<(Context, KeyCode), Action> {
        binding_map(self.bindings@)
    }
}

/// What `lookup` answers: the binding of the context if there is one,
/// else the global binding of the key.
pub open spec fn lookup_spec(m: Map<(Context, KeyCode), Action>, ctx: Context, key: KeyCode) -> Option<Action> {
    if m.contains_key((ctx, key)) {
        Some(m[(ctx, key)])
    } else if m.contains_key((Context::Global, key)) {
        Some(m[(Context::Global, key)])
    } else {
        None
    }
}

/// The bindings that `Keymap::default` makes.
pub open spec fn default_bindings() -> Map<(Context, KeyCode), Action> {
    Map::empty()
        .insert((Context::Global, KeyCode::Char('1')), Action::FocusTree)
        .insert((Context::Global, KeyCode::Char('2')), Action::FocusDetail)
        .insert((Context::Global, KeyCode::Char('q')), Action::Quit)
        .insert((Context::Global, KeyCode::Esc), Action::Quit)
        .insert((Context::Global, KeyCode::Char('?')), Action::ToggleKeybindPopup)
        .insert((Context::Popup, KeyCode::Esc), Action::ClosePopup)
        .insert((Context::Popup, KeyCode::Char('?')), Action::ClosePopup)
        .insert((Context::Tree, KeyCode::Char('j')), Action::TreeMoveDown)
        .insert((Context::Tree, KeyCode::Down), Action::TreeMoveDown)
        .insert((Context::Tree, KeyCode::Char('k')), Action::TreeMoveUp)
        .insert((Context::Tree, KeyCode::Up), Action::TreeMoveUp)
        .insert((Context::Tree, KeyCode::Char('h')), Action::TreeMoveLeft)
        .insert((Context::Tree, KeyCode::Left), Action::TreeMoveLeft)
        .insert((Context::Tree, KeyCode::Char('l')), Action::TreeMoveRight)
        .insert((Context::Tree, KeyCode::Right), Action::TreeMoveRight)
        .insert((Context::Tree, KeyCode::Enter), Action::TreeToggleSelected)
        .insert((Context::Tree, KeyCode::Char(' ')), Action::TreeToggleSelected)
        .insert((Context::Detail, KeyCode::Char('j')), Action::DetailScrollDown)
        .insert((Context::Detail, KeyCode::Down), Action::DetailScrollDown)
        .insert((Context::Detail, KeyCode::Char('k')), Action::DetailScrollUp)
        .insert((Context::Detail, KeyCode::Up), Action::DetailScrollUp)
}

proof fn lemma_update_binding(s: Seq<Binding>, i: int, b: Binding)
    requires
        unique_keys(s),
        0 <= i < s.len(),
        bkey(s[i]) == bkey(b),
    ensures
        unique_keys(s.update(i, b)),
        binding_map(s.update(i, b)) == binding_map(s).insert(bkey(b), b.action),
{
    let s2 = s.update(i, b);
    assert(unique_keys(s2)) by {
        assert forall|x: int, y: int|
            0 <= x < s2.len() && 0 <= y < s2.len() && x != y implies bkey(s2[x]) != bkey(
            s2[y],
        ) by {
            assert(bkey(s2[i]) == bkey(s[i]));
        }
    }
    let m = binding_map(s).insert(bkey(b), b.action);
    assert forall|k: (Context, KeyCode)|
        #![trigger binding_map(s2).contains_key(k)]
        binding_map(s2).contains_key(k) == m.contains_key(k) by {
        lemma_binding_map(s, k);
        lemma_binding_map(s2, k);
        if binding_map(s).contains_key(k) {
            let j = choose|j: int| 0 <= j < s.len() && bkey(s[j]) == k;
            assert(bkey(s2[j]) == k);
        }
        if k == bkey(b) {
            assert(bkey(s2[i]) == k);
        }
        if binding_map(s2).contains_key(k) && k != bkey(b) {
            let j = choose|j: int| 0 <= j < s2.len() && bkey(s2[j]) == k;
            assert(bkey(s[j]) == k);
        }
    }
    assert forall|k: (Context, KeyCode)|
        binding_map(s2).contains_key(k) implies #[trigger] binding_map(s2)[k] == m[k] by {
        lemma_binding_map(s, k);
        lemma_binding_map(s2, k);
        let j = choose|j: int| 0 <= j < s2.len() && bkey(s2[j]) == k;
        if j != i {
            assert(bkey(s[j]) == k);
        }
    }
    assert(binding_map(s2) =~= m);
}

fn insert_binding(v: &mut Vec<Binding>, context: Context, key: KeyCode, action: Action)
    requires
        unique_keys(old(v)@),
    ensures
        unique_keys(final(v)@),
        binding_map(final(v)@) == binding_map(old(v)@).insert((context, key), action),
{
    let ghost s = v@;
    let n = v.len();
    let mut i: usize = 0;
    while i < n
        invariant
            n == v.len(),
            v@ == s,
            s == old(v)@,
            unique_keys(s),
            i <= n,
            forall|j: int| 0 <= j < i ==> bkey(s[j]) != (context, key),
        decreases n - i,
    {
        if v[i].context == context && v[i].key == key {
            let b = Binding { context, key, action };
            proof {
                lemma_update_binding(s, i as int, b);
            }
            v.set(i, b);
            return ;
        }
        i = i + 1;
    }
    v.push(Binding { context, key, action });
    proof {
        let s2 = v@;
        assert(s2.drop_last() =~= s);
        assert(unique_keys(s2));
    }
}


/// How many times `grouped_bindings_for(ctx)` lists key `k` under action `a`:
/// once for a binding in `ctx` and once for a global one (a single global
/// binding counts once when `ctx` itself is `Global`).
pub open spec fn bound_count(m: Map<(Context, KeyCode), Action>, ctx: Context, a: Action, k: KeyCode) -> nat {
    (if m.contains_key((ctx, k)) && m[(ctx, k)] == a {
        1nat
    } else {
        0nat
    }) + (if ctx != Context::Global && m.contains_key((Context::Global, k)) && m[(
    Context::Global,
    k,
    )] == a {
        1nat
    } else {
        0nat
    })
}

/// Some key triggers `a` in `ctx`, directly or globally.
pub open spec fn has_binding(m: Map<(Context, KeyCode), Action>, ctx: Context, a: Action) -> bool {
    exists|k: KeyCode| #[trigger] bound_count(m, ctx, a, k) > 0
}

/// The actions that the keybinding popup lists for `ctx`, in canonical order.
pub open spec fn shown_actions(m: Map<(Context, KeyCode), Action>, ctx: Context) -> Seq<Action> {
    all_actions().filter(|a: Action| has_binding(m, ctx, a))
}

/// The keys come in listing order.
pub open spec fn keys_in_order(s: Seq<KeyCode>) -> bool {
    forall|i: int, j: int| 0 <= i < j < s.len() ==> key_le(#[trigger] s[i], #[trigger] s[j])
}

/// One entry of the popup listing: action `a` with its keys, each as many
/// times as it is bound, in listing order.
pub open spec fn group_entry(m: Map<(Context, KeyCode), Action>, ctx: Context, e: (Action, Seq<KeyCode>), a: Action) -> bool {
    &&& e.0 == a
    &&& keys_in_order(e.1)
    &&& forall|k: KeyCode| e.1.to_multiset().count(k) == bound_count(m, ctx, a, k)
}

/// What `grouped_bindings_for` returns: one entry per shown action, in
/// canonical order.
pub open spec fn grouped_spec(m: Map<(Context, KeyCode), Action>, ctx: Context, g: Seq<(Action, Seq<KeyCode>)>) -> bool {
    &&& g.len() == shown_actions(m, ctx).len()
    &&& forall|i: int| 0 <= i < g.len() ==> #[trigger] group_entry(m, ctx, g[i], shown_actions(m, ctx)[i])
}

/// What `primary_key_for` returns: nothing when no key triggers the action,
/// else a key that does and that no other such key precedes.
pub open spec fn primary_spec(m: Map<(Context, KeyCode), Action>, ctx: Context, a: Action, r: Option<KeyCode>) -> bool {
    &&& r is None <==> !has_binding(m, ctx, a)
    &&& r matches Some(k) ==> bound_count(m, ctx, a, k) > 0 && forall|k2: KeyCode|
        bound_count(m, ctx, a, k2) > 0 ==> key_le(k, k2)
}

spec fn selects(b: Binding, ctx: Context, a: Action) -> bool {
    (b.context == ctx || b.context == Context::Global) && b.action == a
}

spec fn collected(s: Seq<Binding>, ctx: Context, a: Action) -> Seq<KeyCode>
    decreases s.len(),
{
    if s.len() == 0 {
        Seq::empty()
    } else {
        let p = collected(s.drop_last(), ctx, a);
        if selects(s.last(), ctx, a) {
            p.push(s.last().key)
        } else {
            p
        }
    }
}

proof fn lemma_collected_count(s: Seq<Binding>, ctx: Context, a: Action, k: KeyCode)
    requires
        unique_keys(s),
    ensures
        collected(s, ctx, a).to_multiset().count(k) == bound_count(binding_map(s), ctx, a, k),
    decreases s.len(),
{
    if s.len() > 0 {
        let t = s.drop_last();
        let b = s.last();
        assert(unique_keys(t));
        lemma_collected_count(t, ctx, a, k);
        lemma_binding_map(t, bkey(b));
        if binding_map(t).contains_key(bkey(b)) {
            let j = choose|j: int| 0 <= j < t.len() && bkey(t[j]) == bkey(b);
            assert(bkey(s[j]) == bkey(s[s.len() - 1]));
        }
    }
}

proof fn lemma_insert_sorted(s: Seq<KeyCode>, pos: int, x: KeyCode)
    requires
        0 <= pos <= s.len(),
        keys_in_order(s),
        pos > 0 ==> key_le(s[pos - 1], x),
        forall|j: int| pos <= j < s.len() ==> key_lt(x, #[trigger] s[j]),
    ensures
        keys_in_order(s.insert(pos, x)),
        s.insert(pos, x).to_multiset() == s.to_multiset().insert(x),
{
    let s2 = s.insert(pos, x);
    s.insert_ensures(pos, x);
    assert forall|i: int, j: int| 0 <= i < j < s2.len() implies key_le(
        #[trigger] s2[i],
        #[trigger] s2[j],
    ) by {
        if j == pos {
            if i < pos - 1 {
                lemma_key_order(s[i], s[pos - 1], x);
                assert(key_le(s[i], s[pos - 1]));
            }
        } else if i == pos {
            lemma_key_order(x, s[j - 1], x);
        } else if i < pos && j > pos {
            assert(key_le(s[i], s[j - 1]));
        } else if i > pos {
            assert(key_le(s[i - 1], s[j - 1]));
        } else {
            assert(key_le(s[i], s[j]));
        }
    }
    assert(s2.remove(pos) =~= s);
    assert(s2[pos] == x);
    assert(s2.to_multiset().count(x) > 0);
    assert(s2.to_multiset() =~= s.to_multiset().insert(x));
}

/// Sorts keys into listing order (insertion sort, stable).
fn sort_keys(v: &Vec<KeyCode>) -> (r: Vec<KeyCode>)
    ensures
        keys_in_order(r@),
        r@.to_multiset() == v@.to_multiset(),
{
    let mut out: Vec<KeyCode> = Vec::new();
    let n = v.len();
    let mut i: usize = 0;
    while i < n
        invariant
            n == v@.len(),
            i <= n,
            keys_in_order(out@),
            out@.to_multiset() == v@.take(i as int).to_multiset(),
        decreases n - i,
    {
        let x = v[i];
        let mut pos = out.len();
        while pos > 0 && key_before(&x, &out[pos - 1])
            invariant
                pos <= out@.len(),
                forall|j: int| pos <= j < out@.len() ==> key_lt(x, #[trigger] out@[j]),
            decreases pos,
        {
            pos = pos - 1;
        }
        proof {
            lemma_insert_sorted(out@, pos as int, x);
            assert(v@.take(i + 1 as int) =~= v@.take(i as int).push(x));
        }
        out.insert(pos, x);
        i = i + 1;
    }
    assert(v@.take(n as int) =~= v@);
    out
}

impl Keymap {
    #[verifier::type_invariant]
    spec fn wf(self) -> bool {
        unique_keys(self.bindings@)
    }

    /// The keymap of the viewer.
    pub fn default() -> (km: Self)
        ensures
            km@ == default_bindings(),
    {
        let mut b: Vec<Binding> = Vec::new();

        // Global
        insert_binding(&mut b, Context::Global, KeyCode::Char('1'), Action::FocusTree);
        insert_binding(&mut b, Context::Global, KeyCode::Char('2'), Action::FocusDetail);
        insert_binding(&mut b, Context::Global, KeyCode::Char('q'), Action::Quit);
        insert_binding(&mut b, Context::Global, KeyCode::Esc, Action::Quit);
        insert_binding(&mut b, Context::Global, KeyCode::Char('?'), Action::ToggleKeybindPopup);

        // Popup (overrides Esc and ? from Global while open)
        insert_binding(&mut b, Context::Popup, KeyCode::Esc, Action::ClosePopup);
        insert_binding(&mut b, Context::Popup, KeyCode::Char('?'), Action::ClosePopup);

        // Tree
        insert_binding(&mut b, Context::Tree, KeyCode::Char('j'), Action::TreeMoveDown);
        insert_binding(&mut b, Context::Tree, KeyCode::Down, Action::TreeMoveDown);
        insert_binding(&mut b, Context::Tree, KeyCode::Char('k'), Action::TreeMoveUp);
        insert_binding(&mut b, Context::Tree, KeyCode::Up, Action::TreeMoveUp);
        insert_binding(&mut b, Context::Tree, KeyCode::Char('h'), Action::TreeMoveLeft);
        insert_binding(&mut b, Context::Tree, KeyCode::Left, Action::TreeMoveLeft);
        insert_binding(&mut b, Context::Tree, KeyCode::Char('l'), Action::TreeMoveRight);
        insert_binding(&mut b, Context::Tree, KeyCode::Right, Action::TreeMoveRight);
        insert_binding(&mut b, Context::Tree, KeyCode::Enter, Action::TreeToggleSelected);
        insert_binding(&mut b, Context::Tree, KeyCode::Char(' '), Action::TreeToggleSelected);

        // Detail
        insert_binding(&mut b, Context::Detail, KeyCode::Char('j'), Action::DetailScrollDown);
        insert_binding(&mut b, Context::Detail, KeyCode::Down, Action::DetailScrollDown);
        insert_binding(&mut b, Context::Detail, KeyCode::Char('k'), Action::DetailScrollUp);
        insert_binding(&mut b, Context::Detail, KeyCode::Up, Action::DetailScrollUp);

        Keymap { bindings: b }
    }

    fn binding(&self, ctx: Context, key: KeyCode) -> (r: Option<Action>)
        ensures
            r == (if self@.contains_key((ctx, key)) {
                Some(self@[(ctx, key)])
            } else {
                None
            }),
    {
        proof {
            use_type_invariant(self);
            lemma_binding_map(self.bindings@, (ctx, key));
        }
        let n = self.bindings.len();
        let mut i: usize = 0;
        while i < n
            invariant
                n == self.bindings@.len(),
                i <= n,
                forall|j: int| 0 <= j < i ==> bkey(self.bindings@[j]) != (ctx, key),
            decreases n - i,
        {
            if self.bindings[i].context == ctx && self.bindings[i].key == key {
                proof {
                    use_type_invariant(self);
                    lemma_binding_map(self.bindings@, (ctx, key));
                    assert(bkey(self.bindings@[i as int]) == (ctx, key));
                }
                return Some(self.bindings[i].action);
            }
            i = i + 1;
        }
        None
    }

    /// The action of a key: the binding of the context wins, else the
    /// global binding applies.
    pub fn lookup(&self, ctx: Context, key: KeyCode) -> (r: Option<Action>)
        ensures
            r == lookup_spec(self@, ctx, key),
    {
        // Context-specific binding wins; fall back to Global.
        match self.binding(ctx, key) {
            Some(a) => Some(a),
            None => self.binding(Context::Global, key),
        }
    }

    fn keys_for(&self, ctx: Context, a: Action) -> (r: Vec<KeyCode>)
        ensures
            forall|k: KeyCode| r@.to_multiset().count(k) == bound_count(self@, ctx, a, k),
    {
        proof {
            use_type_invariant(self);
        }
        let ghost s = self.bindings@;
        let mut keys: Vec<KeyCode> = Vec::new();
        let n = self.bindings.len();
        let mut i: usize = 0;
        while i < n
            invariant
                s == self.bindings@,
                n == s.len(),
                i <= n,
                keys@ == collected(s.take(i as int), ctx, a),
            decreases n - i,
        {
            let b = &self.bindings[i];
            if (b.context == ctx || b.context == Context::Global) && b.action == a {
                keys.push(b.key);
            }
            proof {
                assert(s.take(i + 1 as int).drop_last() =~= s.take(i as int));
            }
            i = i + 1;
        }
        proof {
            assert(s.take(n as int) =~= s);
            assert forall|k: KeyCode| keys@.to_multiset().count(k) == bound_count(self@, ctx, a, k) by {
                lemma_collected_count(s, ctx, a, k);
            }
        }
        keys
    }

    /// For each action that some key triggers in `ctx` (directly or
    /// globally), in canonical order, the keys that trigger it, in listing
    /// order.
    pub fn grouped_bindings_for(&self, ctx: Context) -> (r: Vec<(Action, Vec<KeyCode>)>)
        ensures
            grouped_spec(self@, ctx, r@.map_values(|e: (Action, Vec<KeyCode>)| (e.0, e.1@))),
    {
        let all = Action::all();
        let ghost pred = |a: Action| has_binding(self@, ctx, a);
        let mut out: Vec<(Action, Vec<KeyCode>)> = Vec::new();
        let n = all.len();
        let mut i: usize = 0;
        while i < n
            invariant
                all@ == all_actions(),
                n == all@.len(),
                i <= n,
                pred == (|a: Action| has_binding(self@, ctx, a)),
                out@.len() == all_actions().take(i as int).filter(pred).len(),
                forall|j: int|
                    0 <= j < out@.len() ==> {
                        &&& (#[trigger] out@[j]).0 == all_actions().take(i as int).filter(pred)[j]
                        &&& keys_in_order(out@[j].1@)
                        &&& forall|k: KeyCode|
                            out@[j].1@.to_multiset().count(k) == bound_count(self@, ctx, out@[j].0, k)
                    },
            decreases n - i,
        {
            let a = all[i];
            let keys = self.keys_for(ctx, a);
            proof {
                assert(all_actions().take(i + 1 as int) =~= all_actions().take(i as int).push(a));
                all_actions().take(i as int).lemma_filter_push(a, pred);
                if keys@.len() > 0 {
                    assert(keys@.to_multiset().count(keys@[0]) > 0);
                    assert(bound_count(self@, ctx, a, keys@[0]) > 0);
                }
                if has_binding(self@, ctx, a) {
                    let k = choose|k: KeyCode| #[trigger] bound_count(self@, ctx, a, k) > 0;
                    assert(keys@.to_multiset().count(k) > 0);
                }
            }
            if keys.len() > 0 {
                let sorted = sort_keys(&keys);
                out.push((a, sorted));
            }
            i = i + 1;
        }
        proof {
            assert(all_actions().take(n as int) =~= all_actions());
            let g = out@.map_values(|e: (Action, Vec<KeyCode>)| (e.0, e.1@));
            assert forall|j: int| 0 <= j < g.len() implies #[trigger] group_entry(self@, ctx, g[j], shown_actions(self@, ctx)[j]) by {
                assert(g[j] == (out@[j].0, out@[j].1@));
            }
        }
        out
    }

    /// The key to show for `action` in `ctx`: of the keys that trigger it
    /// there (directly or globally), the first in listing order.
    pub fn primary_key_for(&self, ctx: Context, action: Action) -> (r: Option<KeyCode>)
        ensures
            primary_spec(self@, ctx, action, r),
    {
        let keys = self.keys_for(ctx, action);
        if keys.len() == 0 {
            proof {
                if has_binding(self@, ctx, action) {
                    let k = choose|k: KeyCode| #[trigger] bound_count(self@, ctx, action, k) > 0;
                    assert(keys@.to_multiset().count(k) > 0);
                }
            }
            return None;
        }
        let mut best = keys[0];
        proof {
            lemma_key_order(best, best, best);
        }
        let n = keys.len();
        let mut i: usize = 1;
        while i < n
            invariant
                n == keys@.len(),
                1 <= i <= n,
                keys@.contains(best),
                forall|j: int| 0 <= j < i ==> key_le(best, #[trigger] keys@[j]),
            decreases n - i,
        {
            let k = keys[i];
            if key_before(&k, &best) {
                proof {
                    lemma_key_order(k, k, k);
                    assert forall|j: int| 0 <= j < i implies key_le(k, #[trigger] keys@[j]) by {
                        lemma_key_order(k, best, keys@[j]);
                    }
                }
                best = k;
            } else {
                proof {
                    lemma_key_order(best, k, best);
                }
            }
            i = i + 1;
        }
        proof {
            assert(keys@.to_multiset().count(best) > 0);
            assert forall|k2: KeyCode| bound_count(self@, ctx, action, k2) > 0 implies key_le(best, k2) by {
                assert(keys@.to_multiset().count(k2) > 0);
                let j = choose|j: int| 0 <= j < keys@.len() && keys@[j] == k2;
            }
        }
        Some(best)
    }

    /// Priorities for how keys are displayed in the keybinding popup.
    pub fn key_sort_rank(key: &KeyCode) -> (r: (u8, String))
        ensures
            r.0 == crate::keybinding::key::sort_rank(*key).0,
            r.1@ == crate::keybinding::key::sort_rank(*key).1,
    {
        sort_rank_of(key)
    }
}

} // verus!
