//! Timers: which key is due to be looked at again, and by which timer.
//!
//! The host sleeps; the library keeps count. Every timer that is armed gets
//! a token, and a key has one timer at most: arming a key again replaces its
//! timer, and the timer that was replaced finds its token stale when it
//! goes off.

use crate::assoc::{
    distinct_keys, has_key, lemma_map_of_dom, lemma_map_of_entry, lemma_map_of_len,
    lemma_map_of_remove, lemma_map_of_replace, lemma_push_distinct, map_of,
};
use crate::resources::{ObjectKey, ObjectKeyView};
use vstd::prelude::*;

verus! {

/// The timers that are armed, and the token that the next one gets.
pub struct TimersView {
    /// The token of the timer of each key that has one.
    pub armed: Map<ObjectKeyView, u64>,
    /// The token that the next timer gets.
    pub next: u64,
}

/// The token after `token`. After the last one the count starts anew.
pub open spec fn following(token: u64) -> u64 {
    if token == u64::MAX {
        0
    } else {
        (token + 1) as u64
    }
}

/// No timer is armed.
pub open spec fn unarmed() -> TimersView {
    TimersView { armed: Map::empty(), next: 0 }
}

/// The timers after one was armed for `key`, and its token. A timer that
/// `key` had before is replaced.
pub open spec fn armed_after(t: TimersView, key: ObjectKeyView) -> (TimersView, u64) {
    (TimersView { armed: t.armed.insert(key, t.next), next: following(t.next) }, t.next)
}

/// Whether the timer with `token` is the one that `key` has.
pub open spec fn is_current(t: TimersView, key: ObjectKeyView, token: u64) -> bool {
    t.armed.dom().contains(key) && t.armed[key] == token
}

/// The timers after the timer with `token` went off for `key`, and whether
/// the key is due. A timer that was replaced or disarmed changes nothing.
pub open spec fn fired_after(t: TimersView, key: ObjectKeyView, token: u64) -> (TimersView, bool) {
    if is_current(t, key, token) {
        (TimersView { armed: t.armed.remove(key), ..t }, true)
    } else {
        (t, false)
    }
}

/// The timers after the timer of `key`, if it has one, was disarmed.
pub open spec fn disarmed(t: TimersView, key: ObjectKeyView) -> TimersView {
    TimersView { armed: t.armed.remove(key), ..t }
}

/// A timer that was replaced never makes its key due: of two timers armed
/// for one key, the first finds its token stale and the second finds its
/// own current.
pub proof fn lemma_replaced_timer_is_stale(t: TimersView, key: ObjectKeyView)
    ensures
        ({
            let first = armed_after(t, key);
            let second = armed_after(first.0, key);
            &&& first.1 != second.1
            &&& !fired_after(second.0, key, first.1).1
            &&& fired_after(second.0, key, first.1).0 == second.0
            &&& fired_after(second.0, key, second.1).1
        }),
{
}

/// A timer makes its key due once: after it went off, the same token is
/// stale, and so is every token for a key that was disarmed.
pub proof fn lemma_timer_fires_once(t: TimersView, key: ObjectKeyView, token: u64)
    ensures
        !fired_after(fired_after(t, key, token).0, key, token).1,
        !fired_after(disarmed(t, key), key, token).1,
{
}

/// Timers of different keys do not touch each other.
pub proof fn lemma_timers_are_per_key(t: TimersView, key: ObjectKeyView, other: ObjectKeyView, token: u64)
    requires
        key != other,
    ensures
        is_current(armed_after(t, key).0, other, token) == is_current(t, other, token),
        is_current(fired_after(t, key, token).0, other, token) == is_current(t, other, token),
        is_current(disarmed(t, key), other, token) == is_current(t, other, token),
{
}

/// Keeps count of the timers that the host has running.
#[derive(Debug)]
pub struct Timers {
    armed: Vec<(ObjectKey, u64)>,
    next: u64,
}

impl View for Timers {
    type V = TimersView;

    open spec fn view(&self) -> TimersView {
        self.count()
    }
}

impl Timers {
    #[verifier::type_invariant]
    spec fn keys_occur_once(&self) -> bool {
        distinct_keys(self.armed.deep_view())
    }

    /// The timers that are armed and the next token.
    pub closed spec fn count(&self) -> TimersView {
        TimersView { armed: map_of(self.armed.deep_view()), next: self.next }
    }

    /// No timer is armed.
    pub fn new() -> (timers: Timers)
        ensures
            timers@ == unarmed(),
    {
        let armed: Vec<(ObjectKey, u64)> = Vec::new();
        assert(armed.deep_view() =~= Seq::<(ObjectKeyView, u64)>::empty());
        Timers { armed, next: 0 }
    }

    /// Index of the timer of `key`.
    fn position(&self, key: &ObjectKey) -> (at: Option<usize>)
        ensures
            match at {
                Some(i) => i < self.armed.len() && self.armed.deep_view()[i as int].0 == key@,
                None => !has_key(self.armed.deep_view(), key@),
            },
    {
        let mut i: usize = 0;
        while i < self.armed.len()
            invariant
                i <= self.armed.len(),
                forall|j: int| 0 <= j < i ==> self.armed.deep_view()[j].0 != key@,
            decreases self.armed.len() - i,
        {
            if self.armed[i].0.same(key) {
                return Some(i);
            }
            i += 1;
        }
        None
    }

    /// Arms a timer for `key` in place of the one it has, if any, and gives
    /// the token that the host hands back when the timer goes off.
    pub fn arm(&mut self, key: ObjectKey) -> (token: u64)
        ensures
            (final(self)@, token) == armed_after(old(self)@, key@),
    {
        proof {
            use_type_invariant(&*self);
        }
        let ghost before = self.armed.deep_view();
        let token = self.next;
        let found = self.position(&key);
        let mut armed: Vec<(ObjectKey, u64)> = Vec::new();
        assert(armed.deep_view() =~= Seq::<(ObjectKeyView, u64)>::empty());
        core::mem::swap(&mut armed, &mut self.armed);
        match found {
            Some(i) => {
                proof {
                    lemma_map_of_replace(before, i as int, token);
                }
                armed[i] = (key, token);
                assert(armed.deep_view() =~= before.update(i as int, (key@, token)));
            },
            None => {
                proof {
                    lemma_push_distinct(before, key@, token);
                }
                armed.push((key, token));
                assert(armed.deep_view() =~= before.push((key@, token)));
            },
        }
        core::mem::swap(&mut armed, &mut self.armed);
        self.next = if token == u64::MAX {
            0
        } else {
            token + 1
        };
        token
    }

    /// Takes the timer at `i` out.
    fn take(&mut self, i: usize)
        requires
            i < old(self).armed.len(),
        ensures
            final(self)@ == disarmed(old(self)@, old(self).armed.deep_view()[i as int].0),
    {
        proof {
            use_type_invariant(&*self);
            lemma_map_of_remove(self.armed.deep_view(), i as int);
        }
        let ghost before = self.armed.deep_view();
        let mut armed: Vec<(ObjectKey, u64)> = Vec::new();
        assert(armed.deep_view() =~= Seq::<(ObjectKeyView, u64)>::empty());
        core::mem::swap(&mut armed, &mut self.armed);
        armed.remove(i);
        assert(armed.deep_view() =~= before.remove(i as int));
        core::mem::swap(&mut armed, &mut self.armed);
    }

    /// Notes that the timer with `token` went off for `key` and tells
    /// whether the key is due. It is due if this is the timer that the key
    /// has; the timer is then spent. A timer that was replaced or disarmed
    /// is ignored.
    pub fn fire(&mut self, key: &ObjectKey, token: u64) -> (due: bool)
        ensures
            (final(self)@, due) == fired_after(old(self)@, key@, token),
    {
        proof {
            use_type_invariant(&*self);
            lemma_map_of_dom(self.armed.deep_view(), key@);
        }
        match self.position(key) {
            Some(i) => {
                proof {
                    lemma_map_of_entry(self.armed.deep_view(), i as int);
                }
                if self.armed[i].1 == token {
                    self.take(i);
                    true
                } else {
                    false
                }
            },
            None => false,
        }
    }

    /// Disarms the timer of `key`, if it has one.
    pub fn disarm(&mut self, key: &ObjectKey)
        ensures
            final(self)@ == disarmed(old(self)@, key@),
    {
        proof {
            use_type_invariant(&*self);
            lemma_map_of_dom(self.armed.deep_view(), key@);
        }
        match self.position(key) {
            Some(i) => {
                self.take(i);
            },
            None => {
                assert(self@.armed.remove(key@) =~= self@.armed);
            },
        }
    }

    /// Whether `key` has a timer.
    pub fn is_armed(&self, key: &ObjectKey) -> (armed: bool)
        ensures
            armed == self@.armed.dom().contains(key@),
    {
        proof {
            use_type_invariant(self);
            lemma_map_of_dom(self.armed.deep_view(), key@);
        }
        self.position(key).is_some()
    }

    /// Number of keys that have a timer.
    pub fn len(&self) -> (n: usize)
        ensures
            self@.armed.dom().finite(),
            n == self@.armed.len(),
    {
        proof {
            use_type_invariant(self);
            lemma_map_of_len(self.armed.deep_view());
        }
        self.armed.len()
    }
}

} // verus!
