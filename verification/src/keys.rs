//! Key-event model, the per-mode keybinding table, and the chord resolver
//! that turns a stream of key presses into actions.

use vstd::prelude::*;

use crate::action::{Action, ActionView};

verus! {

/// The enumerated UI mode; exactly one mode is active at a time and selects
/// which keybinding table entries apply.
#[derive(Clone, Copy, Debug, PartialEq, Eq, Structural)]
pub enum Mode {
    Home,
}

/// The key itself, without modifiers.
#[derive(Clone, Copy, Debug, PartialEq, Eq, Structural)]
pub enum KeyCode {
    Char(char),
    Enter,
    Esc,
    Backspace,
    Tab,
    Delete,
    Left,
    Right,
    Up,
    Down,
    PageUp,
    PageDown,
    F(u8),
}

/// One key press: a key code plus its modifier keys.
#[derive(Clone, Copy, Debug, PartialEq, Eq, Structural)]
pub struct KeyPress {
    pub code: KeyCode,
    pub ctrl: bool,
    pub alt: bool,
    pub shift: bool,
}

impl KeyPress {
    /// A key press with no modifiers held.
    pub fn plain(code: KeyCode) -> (r: KeyPress)
        ensures
            r == (KeyPress { code, ctrl: false, alt: false, shift: false }),
    {
        KeyPress { code, ctrl: false, alt: false, shift: false }
    }
}

/// The one-element chord holding exactly `key`.
pub open spec fn single_chord(key: KeyPress) -> Seq<KeyPress> {
    seq![key]
}

/// One entry of the keybinding table: in mode `mode`, the ordered key
/// sequence `chord` triggers `action`.
pub struct Binding {
    pub mode: Mode,
    pub chord: Vec<KeyPress>,
    pub action: Action,
}

impl View for Binding {
    type V = (Mode, Seq<KeyPress>, ActionView);

    open spec fn view(&self) -> (Mode, Seq<KeyPress>, ActionView) {
        (self.mode, self.chord@, self.action@)
    }
}

/// First-match lookup of `chord` under `mode` in a binding list.
pub open spec fn spec_lookup_binding(
    bindings: Seq<(Mode, Seq<KeyPress>, ActionView)>,
    mode: Mode,
    chord: Seq<KeyPress>,
) -> Option<ActionView>
    decreases bindings.len(),
{
    if bindings.len() == 0 {
        None
    } else if bindings[0].0 == mode && bindings[0].1 == chord {
        Some(bindings[0].2)
    } else {
        spec_lookup_binding(bindings.drop_first(), mode, chord)
    }
}

/// The mapping from mode and key sequence to action. It is loaded once by
/// configuration and read-only at runtime; a fresh `bind` shadows any earlier
/// binding of the same mode and chord.
pub struct KeyBindings {
    entries: Vec<Binding>,
}

impl View for KeyBindings {
    type V = Seq<(Mode, Seq<KeyPress>, ActionView)>;

    closed spec fn view(&self) -> Seq<(Mode, Seq<KeyPress>, ActionView)> {
        Seq::new(self.entries@.len(), |i: int| self.entries@[i]@)
    }
}

/// Whether two chords are the same key sequence.
fn chords_equal(a: &Vec<KeyPress>, b: &Vec<KeyPress>) -> (r: bool)
    ensures
        r == (a@ == b@),
{
    if a.len() != b.len() {
        return false;
    }
    let n: usize = a.len();
    let mut i: usize = 0;
    while i < n
        invariant
            n == a@.len(),
            a@.len() == b@.len(),
            i <= n,
            forall|j: int| 0 <= j < i ==> a@[j] == b@[j],
        decreases n - i,
    {
        if a[i] != b[i] {
            return false;
        }
        i = i + 1;
    }
    proof {
        assert(a@ =~= b@);
    }
    true
}

impl KeyBindings {
    /// An empty table: no mode has any binding.
    pub fn new() -> (r: KeyBindings)
        ensures
            r@ == Seq::<(Mode, Seq<KeyPress>, ActionView)>::empty(),
    {
        let r = KeyBindings { entries: Vec::new() };
        proof {
            assert(r@ =~= Seq::<(Mode, Seq<KeyPress>, ActionView)>::empty());
        }
        r
    }

    /// Adds a binding, shadowing any earlier one for the same mode and chord.
    pub fn bind(&mut self, mode: Mode, chord: Vec<KeyPress>, action: Action)
        ensures
            final(self)@ == seq![(mode, chord@, action@)] + old(self)@,
    {
        let ghost prior = self@;
        let ghost entry = (mode, chord@, action@);
        self.entries.insert(0, Binding { mode, chord, action });
        proof {
            assert(self@ =~= seq![entry] + prior);
        }
    }

    /// A deep copy whose view is the same table, for handing a snapshot to
    /// each component.
    pub fn duplicate(&self) -> (r: KeyBindings)
        ensures
            r@ == self@,
    {
        let n: usize = self.entries.len();
        let mut entries: Vec<Binding> = Vec::new();
        let mut i: usize = 0;
        while i < n
            invariant
                n == self.entries@.len(),
                i <= n,
                entries@.len() == i,
                forall|j: int| 0 <= j < i ==> (#[trigger] entries@[j])@ == self.entries@[j]@,
            decreases n - i,
        {
            let mode = self.entries[i].mode;
            let m: usize = self.entries[i].chord.len();
            let mut chord: Vec<KeyPress> = Vec::new();
            let mut k: usize = 0;
            while k < m
                invariant
                    i < self.entries@.len(),
                    m == self.entries@[i as int].chord@.len(),
                    k <= m,
                    chord@.len() == k,
                    forall|l: int| 0 <= l < k ==> chord@[l] == self.entries@[i as int].chord@[l],
                decreases m - k,
            {
                chord.push(self.entries[i].chord[k]);
                k = k + 1;
            }
            proof {
                assert(chord@ =~= self.entries@[i as int].chord@);
            }
            let action = self.entries[i].action.duplicate();
            entries.push(Binding { mode, chord, action });
            i = i + 1;
        }
        let r = KeyBindings { entries };
        proof {
            assert(r@ =~= self@);
        }
        r
    }

    /// Looks a whole key sequence up under the given mode.
    pub fn lookup<'a>(&'a self, mode: Mode, chord: &Vec<KeyPress>) -> (r: Option<&'a Action>)
        ensures
            match spec_lookup_binding(self@, mode, chord@) {
                Some(v) => r matches Some(a) && a@ == v,
                None => r is None,
            },
    {
        let n: usize = self.entries.len();
        let mut i: usize = 0;
        proof {
            assert(self@.skip(0) =~= self@);
        }
        while i < n
            invariant
                n == self.entries.len(),
                i <= n,
                spec_lookup_binding(self@.skip(i as int), mode, chord@) == spec_lookup_binding(
                    self@,
                    mode,
                    chord@,
                ),
            decreases n - i,
        {
            if self.entries[i].mode == mode && chords_equal(&self.entries[i].chord, chord) {
                return Some(&self.entries[i].action);
            }
            proof {
                assert(self@.skip(i as int).drop_first() =~= self@.skip(i + 1));
            }
            i = i + 1;
        }
        proof {
            assert(self@.skip(n as int) =~= Seq::<(Mode, Seq<KeyPress>, ActionView)>::empty());
        }
        None
    }
}

/// One resolver step: the single-key lookup takes precedence; otherwise the
/// key joins the pending sequence, which resolves as a whole or is retained.
/// The result is the pending sequence after the step and the action yielded.
pub open spec fn spec_resolve_step(
    table: Seq<(Mode, Seq<KeyPress>, ActionView)>,
    mode: Mode,
    pending: Seq<KeyPress>,
    key: KeyPress,
) -> (Seq<KeyPress>, Option<ActionView>) {
    match spec_lookup_binding(table, mode, single_chord(key)) {
        Some(a) => (Seq::empty(), Some(a)),
        None => {
            let grown = pending.push(key);
            match spec_lookup_binding(table, mode, grown) {
                Some(a) => (Seq::empty(), Some(a)),
                None => (grown, None),
            }
        },
    }
}

/// Feeding a whole key sequence: the pending sequence after all keys and the
/// action each key yielded, in order.
pub open spec fn spec_feed(
    table: Seq<(Mode, Seq<KeyPress>, ActionView)>,
    mode: Mode,
    pending: Seq<KeyPress>,
    keys: Seq<KeyPress>,
) -> (Seq<KeyPress>, Seq<Option<ActionView>>)
    decreases keys.len(),
{
    if keys.len() == 0 {
        (pending, Seq::empty())
    } else {
        let step = spec_resolve_step(table, mode, pending, keys[0]);
        let rest = spec_feed(table, mode, step.0, keys.drop_first());
        (rest.0, seq![step.1] + rest.1)
    }
}

/// Whether no key of `chord` has a single-key binding of its own under
/// `mode`.
pub open spec fn no_single_bindings(
    table: Seq<(Mode, Seq<KeyPress>, ActionView)>,
    mode: Mode,
    chord: Seq<KeyPress>,
) -> bool {
    forall|i: int|
        0 <= i < chord.len() ==> spec_lookup_binding(table, mode, single_chord(chord[i])) is None
}

/// Whether no proper non-empty prefix of `chord` is bound under `mode`.
pub open spec fn no_proper_prefix_bindings(
    table: Seq<(Mode, Seq<KeyPress>, ActionView)>,
    mode: Mode,
    chord: Seq<KeyPress>,
) -> bool {
    forall|i: int| 1 <= i < chord.len() ==> spec_lookup_binding(table, mode, chord.take(i)) is None
}

/// A sequence of `n` steps that each yielded no action.
pub open spec fn no_actions(n: nat) -> Seq<Option<ActionView>> {
    Seq::new(n, |i: int| None)
}

/// Feeding a concatenation is feeding the first part, then the second from
/// the pending sequence the first part left behind.
pub proof fn lemma_feed_append(
    table: Seq<(Mode, Seq<KeyPress>, ActionView)>,
    mode: Mode,
    pending: Seq<KeyPress>,
    ks1: Seq<KeyPress>,
    ks2: Seq<KeyPress>,
)
    ensures
        ({
            let f1 = spec_feed(table, mode, pending, ks1);
            let f2 = spec_feed(table, mode, f1.0, ks2);
            spec_feed(table, mode, pending, ks1 + ks2) == (f2.0, f1.1 + f2.1)
        }),
    decreases ks1.len(),
{
    let f1 = spec_feed(table, mode, pending, ks1);
    let f2 = spec_feed(table, mode, f1.0, ks2);
    if ks1.len() == 0 {
        assert(ks1 + ks2 =~= ks2);
        assert(f1.1 + f2.1 =~= f2.1);
    } else {
        let step = spec_resolve_step(table, mode, pending, ks1[0]);
        assert((ks1 + ks2)[0] == ks1[0]);
        assert((ks1 + ks2).drop_first() =~= ks1.drop_first() + ks2);
        lemma_feed_append(table, mode, step.0, ks1.drop_first(), ks2);
        let r1 = spec_feed(table, mode, step.0, ks1.drop_first());
        let r2 = spec_feed(table, mode, r1.0, ks2);
        assert(seq![step.1] + (r1.1 + r2.1) =~= (seq![step.1] + r1.1) + r2.1);
    }
}

/// Feeding the keys `chord[j..i]` while `chord[..j]` is pending walks the
/// pending sequence up to `chord[..i]` and yields nothing, as long as no key
/// fires on its own and no prefix reached is bound.
pub proof fn lemma_feed_prefix(
    table: Seq<(Mode, Seq<KeyPress>, ActionView)>,
    mode: Mode,
    chord: Seq<KeyPress>,
    j: int,
    i: int,
)
    requires
        no_single_bindings(table, mode, chord),
        no_proper_prefix_bindings(table, mode, chord),
        0 <= j <= i < chord.len(),
    ensures
        spec_feed(table, mode, chord.take(j), chord.subrange(j, i)) == (
            chord.take(i),
            no_actions((i - j) as nat),
        ),
    decreases i - j,
{
    if j == i {
        assert(chord.subrange(j, i) =~= Seq::<KeyPress>::empty());
        assert(no_actions(0) =~= Seq::<Option<ActionView>>::empty());
    } else {
        let keys = chord.subrange(j, i);
        assert(keys[0] == chord[j]);
        assert(spec_lookup_binding(table, mode, single_chord(chord[j])) is None);
        assert(chord.take(j).push(chord[j]) =~= chord.take(j + 1));
        assert(spec_lookup_binding(table, mode, chord.take(j + 1)) is None);
        let step = spec_resolve_step(table, mode, chord.take(j), chord[j]);
        assert(step == (chord.take(j + 1), None::<ActionView>));
        assert(keys.drop_first() =~= chord.subrange(j + 1, i));
        lemma_feed_prefix(table, mode, chord, j + 1, i);
        assert(seq![None::<ActionView>] + no_actions((i - j - 1) as nat) =~= no_actions(
            (i - j) as nat,
        ));
    }
}

/// Feeding a bound multi-key chord from an empty pending sequence, with no
/// intervening reset, yields its action on the last key and nothing before,
/// provided no key of the chord fires on its own and no proper prefix is
/// bound; feeding any strict prefix of the chord yields no action at all.
pub proof fn lemma_chord_resolves(
    table: Seq<(Mode, Seq<KeyPress>, ActionView)>,
    mode: Mode,
    chord: Seq<KeyPress>,
    a: ActionView,
)
    requires
        chord.len() >= 2,
        spec_lookup_binding(table, mode, chord) == Some(a),
        no_single_bindings(table, mode, chord),
        no_proper_prefix_bindings(table, mode, chord),
    ensures
        ({
            let f = spec_feed(table, mode, Seq::<KeyPress>::empty(), chord);
            &&& f.0 == Seq::<KeyPress>::empty()
            &&& f.1.len() == chord.len()
            &&& (forall|i: int| 0 <= i < chord.len() - 1 ==> f.1[i] is None)
            &&& f.1[chord.len() - 1] == Some(a)
        }),
        forall|i: int|
            0 <= i < chord.len() ==> #[trigger] spec_feed(
                table,
                mode,
                Seq::<KeyPress>::empty(),
                chord.take(i),
            ).1 == no_actions(i as nat),
{
    let n = chord.len() as int;
    let empty = Seq::<KeyPress>::empty();
    assert(chord.take(0) =~= empty);

    assert forall|i: int| 0 <= i < n implies #[trigger] spec_feed(
        table,
        mode,
        empty,
        chord.take(i),
    ).1 == no_actions(i as nat) by {
        lemma_feed_prefix(table, mode, chord, 0, i);
        assert(chord.subrange(0, i) =~= chord.take(i));
    }

    lemma_feed_prefix(table, mode, chord, 0, n - 1);
    assert(chord.subrange(0, n - 1) =~= chord.take(n - 1));
    let f1 = spec_feed(table, mode, empty, chord.take(n - 1));

    // The last key completes the chord and resolves it.
    let last = chord[n - 1];
    assert(spec_lookup_binding(table, mode, single_chord(last)) is None);
    assert(chord.take(n - 1).push(last) =~= chord);
    let step = spec_resolve_step(table, mode, chord.take(n - 1), last);
    assert(step == (Seq::<KeyPress>::empty(), Some(a)));
    let tail = chord.subrange(n - 1, n);
    assert(tail.len() == 1);
    assert(tail[0] == last);
    assert(tail.drop_first() =~= Seq::<KeyPress>::empty());
    let rest = spec_feed(table, mode, step.0, tail.drop_first());
    assert(rest == (step.0, Seq::<Option<ActionView>>::empty()));
    let f2 = spec_feed(table, mode, chord.take(n - 1), tail);
    assert(f2 == (rest.0, seq![step.1] + rest.1));
    assert(f2.1 =~= seq![Some(a)]);

    assert(chord.take(n - 1) + tail =~= chord);
    lemma_feed_append(table, mode, empty, chord.take(n - 1), tail);
    let f = spec_feed(table, mode, empty, chord);
    assert(f.1 =~= no_actions((n - 1) as nat) + seq![Some(a)]);
}

/// No step of a feed can yield `a` when every key sequence short enough to be
/// looked up during the feed is bound to something other than `a`.
pub proof fn lemma_feed_never_yields(
    table: Seq<(Mode, Seq<KeyPress>, ActionView)>,
    mode: Mode,
    pending: Seq<KeyPress>,
    keys: Seq<KeyPress>,
    a: ActionView,
)
    requires
        forall|s: Seq<KeyPress>|
            s.len() <= pending.len() + keys.len() ==> #[trigger] spec_lookup_binding(table, mode, s)
                != Some(a),
    ensures
        spec_feed(table, mode, pending, keys).1.len() == keys.len(),
        forall|i: int|
            0 <= i < keys.len() ==> #[trigger] spec_feed(table, mode, pending, keys).1[i] != Some(
                a,
            ),
    decreases keys.len(),
{
    if keys.len() > 0 {
        let step = spec_resolve_step(table, mode, pending, keys[0]);
        assert(single_chord(keys[0]).len() == 1);
        assert(pending.push(keys[0]).len() == pending.len() + 1);
        assert(step.1 != Some(a));
        assert(step.0.len() <= pending.len() + 1);
        lemma_feed_never_yields(table, mode, step.0, keys.drop_first(), a);
        let rest = spec_feed(table, mode, step.0, keys.drop_first());
        assert forall|i: int| 0 <= i < keys.len() implies #[trigger] spec_feed(
            table,
            mode,
            pending,
            keys,
        ).1[i] != Some(a) by {
            if i == 0 {
                assert((seq![step.1] + rest.1)[0] == step.1);
            } else {
                assert((seq![step.1] + rest.1)[i] == rest.1[i - 1]);
            }
        }
    }
}

/// A `Tick` abandons an in-progress chord: once the first key of a bound
/// multi-key chord has been dropped from the pending sequence, feeding the
/// remaining keys cannot yield the chord's action, when that action is bound
/// only to the full chord.
pub proof fn lemma_tick_abandons_chord(
    table: Seq<(Mode, Seq<KeyPress>, ActionView)>,
    mode: Mode,
    chord: Seq<KeyPress>,
    a: ActionView,
)
    requires
        chord.len() >= 2,
        spec_lookup_binding(table, mode, chord) == Some(a),
        forall|s: Seq<KeyPress>| #[trigger] spec_lookup_binding(table, mode, s) == Some(a) ==> s
            == chord,
    ensures
        spec_feed(table, mode, Seq::<KeyPress>::empty(), chord.skip(1)).1.len() == chord.len() - 1,
        forall|i: int|
            0 <= i < chord.len() - 1 ==> #[trigger] spec_feed(
                table,
                mode,
                Seq::<KeyPress>::empty(),
                chord.skip(1),
            ).1[i] != Some(a),
{
    let empty = Seq::<KeyPress>::empty();
    let rest = chord.skip(1);
    assert(rest.len() == chord.len() - 1);
    assert forall|s: Seq<KeyPress>| s.len() <= empty.len() + rest.len() implies #[trigger]
    spec_lookup_binding(table, mode, s) != Some(a) by {
        if spec_lookup_binding(table, mode, s) == Some(a) {
            assert(s == chord);
        }
    }
    lemma_feed_never_yields(table, mode, empty, rest, a);
}

/// A single-key binding takes precedence: when `[key]` alone is bound, one
/// resolver step on `key` yields that binding and resets the pending
/// sequence, whatever chord was in progress.
pub proof fn lemma_single_key_precedence(
    table: Seq<(Mode, Seq<KeyPress>, ActionView)>,
    mode: Mode,
    pending: Seq<KeyPress>,
    key: KeyPress,
    a: ActionView,
)
    requires
        spec_lookup_binding(table, mode, single_chord(key)) == Some(a),
    ensures
        spec_resolve_step(table, mode, pending, key) == (Seq::<KeyPress>::empty(), Some(a)),
{
}

/// Accumulates key presses since the last reset and resolves them against a
/// keybinding table, one key at a time.
pub struct KeyChordResolver {
    pending: Vec<KeyPress>,
}

impl View for KeyChordResolver {
    type V = Seq<KeyPress>;

    closed spec fn view(&self) -> Seq<KeyPress> {
        self.pending@
    }
}

impl KeyChordResolver {
    /// A resolver with no chord in progress.
    pub fn new() -> (r: KeyChordResolver)
        ensures
            r@ == Seq::<KeyPress>::empty(),
    {
        KeyChordResolver { pending: Vec::new() }
    }

    /// Abandons any chord in progress; run on every `Tick`.
    pub fn clear(&mut self)
        ensures
            final(self)@ == Seq::<KeyPress>::empty(),
    {
        self.pending.clear();
    }

    /// Resolves one key press: a single-key binding fires immediately, else
    /// the key joins the pending sequence and the whole sequence is tried.
    /// Any successful resolution resets the pending sequence.
    pub fn resolve_key(&mut self, table: &KeyBindings, mode: Mode, key: KeyPress) -> (r: Option<
        Action,
    >)
        ensures
            ({
                let step = spec_resolve_step(table@, mode, old(self)@, key);
                &&& final(self)@ == step.0
                &&& r is Some <==> step.1 is Some
                &&& (r matches Some(a) ==> step.1 matches Some(v) && a@ == v)
            }),
    {
        let mut single: Vec<KeyPress> = Vec::new();
        single.push(key);
        proof {
            assert(single@ =~= single_chord(key));
        }
        match table.lookup(mode, &single) {
            Some(bound) => {
                let act = bound.duplicate();
                self.pending.clear();
                Some(act)
            },
            None => {
                self.pending.push(key);
                match table.lookup(mode, &self.pending) {
                    Some(bound) => {
                        let act = bound.duplicate();
                        self.pending.clear();
                        Some(act)
                    },
                    None => None,
                }
            },
        }
    }
}

} // verus!
