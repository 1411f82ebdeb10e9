//! The stack of open UI screens, and the opened / closed notifications that a
//! change of its top produces.
//!
//! Only the top screen is active; screens below it stay open but inactive.
//! Whenever the top changes, the previous top is reported closed and the new
//! top reported opened, so a game only has to react to those notifications.

use vstd::prelude::*;

verus! {

/// What a type of screens must offer: screens are small values that can be
/// copied and compared.
pub trait GutzUiScreen: Copy + Eq {

}

impl<T: Copy + Eq> GutzUiScreen for T {

}

/// Stack of open screens; the last element is the active one.
pub struct GutzUiStack<T: GutzUiScreen> {
    stack: Vec<T>,
}

impl<T: GutzUiScreen> View for GutzUiStack<T> {
    type V = Seq<T>;

    closed spec fn view(&self) -> Seq<T> {
        self.stack@
    }
}

/// Top of a screen sequence.
pub open spec fn spec_top<T>(s: Seq<T>) -> Option<T> {
    if s.len() == 0 {
        None
    } else {
        Some(s.last())
    }
}

/// Sequence after removing the top (no change when empty).
pub open spec fn spec_pop<T>(s: Seq<T>) -> Seq<T> {
    if s.len() == 0 {
        s
    } else {
        s.drop_last()
    }
}

impl<T: GutzUiScreen> Default for GutzUiStack<T> {
    /// An empty stack: no screen is open.
    fn default() -> (r: GutzUiStack<T>)
        ensures
            r@ == Seq::<T>::empty(),
    {
        GutzUiStack { stack: Vec::new() }
    }
}

impl<T: GutzUiScreen> GutzUiStack<T> {
    /// Opens `screen` on top of the current screens.
    pub fn push(&mut self, screen: T)
        ensures
            final(self)@ == old(self)@.push(screen),
    {
        self.stack.push(screen);
    }

    /// Closes the top screen and returns it; an empty stack stays empty.
    pub fn pop(&mut self) -> (r: Option<T>)
        ensures
            r == spec_top(old(self)@),
            final(self)@ == spec_pop(old(self)@),
            old(self)@.len() > 0 ==> r == Some(old(self)@.last()) && final(self)@.push(
                old(self)@.last(),
            ) == old(self)@,
            old(self)@.len() == 0 ==> r is None && final(self)@ == old(self)@,
    {
        self.stack.pop()
    }

    /// Switches the top screen to `screen` (on an empty stack, opens it).
    pub fn replace_top(&mut self, screen: T)
        ensures
            final(self)@ == spec_pop(old(self)@).push(screen),
            final(self)@.last() == screen,
            old(self)@.len() > 0 ==> final(self)@.len() == old(self)@.len(),
            old(self)@.len() == 0 ==> final(self)@.len() == 1,
            forall|k: int| 0 <= k < old(self)@.len() - 1 ==> final(self)@[k] == old(self)@[k],
    {
        self.stack.pop();
        self.stack.push(screen);
    }

    /// Closes every screen.
    pub fn clear(&mut self)
        ensures
            final(self)@ == Seq::<T>::empty(),
    {
        self.stack.clear();
    }

    /// The active screen, if any.
    pub fn top(&self) -> (r: Option<T>)
        ensures
            r == spec_top(self@),
    {
        let n = self.stack.len();
        if n == 0 {
            None
        } else {
            Some(self.stack[n - 1])
        }
    }

    /// Whether `screen` is open anywhere in the stack.
    pub fn is_open(&self, screen: T) -> (r: bool)
        requires
            vstd::laws_eq::obeys_concrete_eq::<T>(),
        ensures
            r == self@.contains(screen),
    {
        proof {
            reveal(vstd::laws_eq::obeys_concrete_eq);
        }
        let mut i: usize = 0;
        while i < self.stack.len()
            invariant
                vstd::laws_eq::obeys_concrete_eq::<T>(),
                i <= self.stack@.len(),
                forall|k: int| 0 <= k < i ==> self.stack@[k] != screen,
            decreases self.stack.len() - i,
        {
            proof {
                reveal(vstd::laws_eq::obeys_concrete_eq);
            }
            if self.stack[i] == screen {
                assert(self.stack@[i as int] == screen);
                return true;
            }
            i = i + 1;
        }
        false
    }
}

/// What a change of the stack produced: the screen reported closed, the
/// screen reported opened, and the top to remember for the next check.
#[derive(PartialEq, Eq, Debug)]
pub struct ScreenChange<T> {
    pub closed: Option<T>,
    pub opened: Option<T>,
    pub previous_top: Option<T>,
}

pub open spec fn spec_screen_change<T>(changed: bool, current_top: Option<T>, previous_top: Option<T>) -> ScreenChange<T> {
    if !changed || current_top == previous_top {
        ScreenChange { closed: None, opened: None, previous_top }
    } else {
        ScreenChange { closed: previous_top, opened: current_top, previous_top: current_top }
    }
}

/// Compares the stack's top with the top remembered from the last check.
/// Nothing is reported when the stack was not changed or its top is the same;
/// otherwise the old top (if any) is reported closed, the new top (if any)
/// opened, and the new top is remembered.
pub fn detect_screen_changes<T: GutzUiScreen>(stack: &GutzUiStack<T>, changed: bool, previous_top: Option<T>) -> (r: ScreenChange<T>)
    requires
        vstd::laws_eq::obeys_concrete_eq::<T>(),
    ensures
        r == spec_screen_change(changed, spec_top(stack@), previous_top),
{
    proof {
        reveal(vstd::laws_eq::obeys_concrete_eq);
    }
    if !changed {
        return ScreenChange { closed: None, opened: None, previous_top };
    }
    let current_top = stack.top();
    let same = match (current_top, previous_top) {
        (None, None) => true,
        (Some(a), Some(b)) => a == b,
        _ => false,
    };
    if same {
        ScreenChange { closed: None, opened: None, previous_top }
    } else {
        ScreenChange { closed: previous_top, opened: current_top, previous_top: current_top }
    }
}

/// Pushing a screen and popping it again gives back the pushed screen and the
/// stack it was pushed on.
pub proof fn lemma_push_pop_roundtrip<T>(s: Seq<T>, screen: T)
    ensures
        spec_top(s.push(screen)) == Some(screen),
        spec_pop(s.push(screen)) == s,
{
    assert(s.push(screen).drop_last() =~= s);
}

/// Switching the top screen keeps the depth of a non-empty stack and the
/// screens below the top, and makes the new screen the top.
pub proof fn lemma_replace_top_keeps_depth<T>(s: Seq<T>, screen: T)
    requires
        s.len() > 0,
    ensures
        spec_pop(s).push(screen).len() == s.len(),
        spec_top(spec_pop(s).push(screen)) == Some(screen),
        forall|i: int| 0 <= i < s.len() - 1 ==> spec_pop(s).push(screen)[i] == s[i],
{
}

/// After any change check the remembered top equals the stack's top, unless
/// the stack was not marked changed; a screen is never reported both closed
/// and opened in one check.
pub proof fn lemma_screen_change_tracks_top<T>(changed: bool, current_top: Option<T>, previous_top: Option<T>)
    ensures
        changed ==> spec_screen_change(changed, current_top, previous_top).previous_top == current_top,
        !changed ==> spec_screen_change(changed, current_top, previous_top).previous_top == previous_top,
        spec_screen_change(changed, current_top, previous_top).opened is Some ==> spec_screen_change(
            changed,
            current_top,
            previous_top,
        ).opened != spec_screen_change(changed, current_top, previous_top).closed,
{
}

/// A second check right after a first one reports nothing: the first check
/// already remembered the current top.
pub proof fn lemma_screen_change_idempotent<T>(current_top: Option<T>, previous_top: Option<T>)
    ensures
        ({
            let first = spec_screen_change(true, current_top, previous_top);
            let second = spec_screen_change(true, current_top, first.previous_top);
            second.opened is None && second.closed is None && second.previous_top == current_top
        }),
{
}

} // verus!
