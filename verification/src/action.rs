//! The message type that flows through the event loop, together with the
//! string-keyed mapping that `Action::Message` carries.

use vstd::prelude::*;

verus! {

/// First-match lookup in an association list of string pairs.
pub open spec fn spec_lookup_pairs(
    entries: Seq<(Seq<char>, Seq<char>)>,
    key: Seq<char>,
) -> Option<Seq<char>>
    decreases entries.len(),
{
    if entries.len() == 0 {
        None
    } else if entries[0].0 == key {
        Some(entries[0].1)
    } else {
        spec_lookup_pairs(entries.drop_first(), key)
    }
}

/// A string-keyed mapping used as a generic progress/status channel.
///
/// Entries are kept newest first, so a fresh `insert` shadows any older
/// entry with the same key and the first match is always the current value.
#[derive(Debug)]
pub struct MessageMap {
    entries: Vec<(String, String)>,
}

impl View for MessageMap {
    type V = Seq<(Seq<char>, Seq<char>)>;

    closed spec fn view(&self) -> Seq<(Seq<char>, Seq<char>)> {
        Seq::new(self.entries@.len(), |i: int| (self.entries@[i].0@, self.entries@[i].1@))
    }
}

impl MessageMap {
    /// An empty mapping.
    pub fn new() -> (r: MessageMap)
        ensures
            r@ == Seq::<(Seq<char>, Seq<char>)>::empty(),
    {
        let r = MessageMap { entries: Vec::new() };
        proof {
            assert(r@ =~= Seq::<(Seq<char>, Seq<char>)>::empty());
        }
        r
    }

    /// Binds `key` to `value`, shadowing any earlier binding of `key`.
    pub fn insert(&mut self, key: String, value: String)
        ensures
            final(self)@ == seq![(key@, value@)] + old(self)@,
            spec_lookup_pairs(final(self)@, key@) == Some(value@),
    {
        let ghost prior = self@;
        self.entries.insert(0, (key, value));
        proof {
            assert(self@ =~= seq![(self.entries@[0].0@, self.entries@[0].1@)] + prior);
        }
    }

    /// Looks `key` up, returning the most recently inserted value for it.
    pub fn get<'a>(&'a self, key: &String) -> (r: Option<&'a String>)
        ensures
            match spec_lookup_pairs(self@, key@) {
                Some(v) => r matches Some(s) && s@ == v,
                None => r is None,
            },
    {
        let n: usize = self.entries.len();
        let mut i: usize = 0;
        proof {
            assert(self@.skip(0) =~= self@);
        }
        while i < n
            invariant
                n == self.entries.len(),
                i <= n,
                spec_lookup_pairs(self@.skip(i as int), key@) == spec_lookup_pairs(self@, key@),
            decreases n - i,
        {
            if self.entries[i].0 == *key {
                return Some(&self.entries[i].1);
            }
            proof {
                assert(self@.skip(i as int).drop_first() =~= self@.skip(i + 1));
            }
            i = i + 1;
        }
        proof {
            assert(self@.skip(n as int) =~= Seq::<(Seq<char>, Seq<char>)>::empty());
        }
        None
    }

    /// A deep copy whose view is the same mapping.
    pub fn duplicate(&self) -> (r: MessageMap)
        ensures
            r@ == self@,
    {
        let n: usize = self.entries.len();
        let mut entries: Vec<(String, String)> = Vec::new();
        let mut i: usize = 0;
        while i < n
            invariant
                n == self.entries.len(),
                i <= n,
                entries@.len() == i,
                forall|j: int|
                    0 <= j < i ==> entries@[j].0@ == self.entries@[j].0@ && entries@[j].1@
                        == self.entries@[j].1@,
            decreases n - i,
        {
            let k = self.entries[i].0.clone();
            let v = self.entries[i].1.clone();
            entries.push((k, v));
            i = i + 1;
        }
        let r = MessageMap { entries };
        proof {
            assert(r@ =~= self@);
        }
        r
    }
}

/// The views of a sequence of actions.
pub open spec fn actions_view(s: Seq<Action>) -> Seq<ActionView> {
    Seq::new(s.len(), |i: int| s[i]@)
}

/// The mathematical value of an [`Action`].
pub ghost enum ActionView {
    Tick,
    Render,
    Resize(u16, u16),
    Quit,
    Suspend,
    Resume,
    Message(Seq<(Seq<char>, Seq<char>)>),
    Error(Seq<char>),
    Submit,
}

/// A discrete message produced by input or by a component and consumed by the
/// update phase of the loop. Only arrival order matters, never the relative
/// order of variants.
#[derive(Debug)]
pub enum Action {
    /// Periodic timer event; also abandons any in-progress key chord.
    Tick,
    /// Requests a draw pass over all components.
    Render,
    /// The terminal was resized to the given width and height.
    Resize(u16, u16),
    /// Requests shutdown; session teardown runs before the loop stops.
    Quit,
    /// Releases the terminal surface until a `Resume` arrives.
    Suspend,
    /// Re-acquires the terminal surface after a `Suspend`.
    Resume,
    /// A string-keyed progress/status payload.
    Message(MessageMap),
    /// A non-fatal error surfaced to the user.
    Error(String),
    /// The component-defined action bound to the login submit chord.
    Submit,
}

impl View for Action {
    type V = ActionView;

    open spec fn view(&self) -> ActionView {
        match self {
            Action::Tick => ActionView::Tick,
            Action::Render => ActionView::Render,
            Action::Resize(w, h) => ActionView::Resize(*w, *h),
            Action::Quit => ActionView::Quit,
            Action::Suspend => ActionView::Suspend,
            Action::Resume => ActionView::Resume,
            Action::Message(m) => ActionView::Message(m@),
            Action::Error(s) => ActionView::Error(s@),
            Action::Submit => ActionView::Submit,
        }
    }
}

impl Action {
    /// A deep copy whose view is the same action.
    pub fn duplicate(&self) -> (r: Action)
        ensures
            r@ == self@,
    {
        match self {
            Action::Tick => Action::Tick,
            Action::Render => Action::Render,
            Action::Resize(w, h) => Action::Resize(*w, *h),
            Action::Quit => Action::Quit,
            Action::Suspend => Action::Suspend,
            Action::Resume => Action::Resume,
            Action::Message(m) => Action::Message(m.duplicate()),
            Action::Error(s) => Action::Error(s.clone()),
            Action::Submit => Action::Submit,
        }
    }
}

} // verus!
