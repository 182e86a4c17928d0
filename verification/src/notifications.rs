//! Toast notifications surfaced to the user.
//!
//! Errors and status changes are shown as short-lived messages.  The queue
//! assigns each message a fresh identifier and a lifetime; one control-loop
//! tick ages every message and drops the expired ones, and a message can be
//! dismissed by hand before it expires.

use vstd::prelude::*;

verus! {

/// How long a notification stays on screen, in milliseconds.
pub const NOTIFICATION_LIFETIME_MS: u64 = 5000;

/// The level of a notification, deciding its styling and meaning.
#[derive(Debug, Clone, Copy, PartialEq, Eq, Structural, Default)]
pub enum NotificationType {
    #[default]
    Info,
    Success,
    Warning,
    Error,
}

/// A single notification on screen.
pub struct Notification {
    pub message: String,
    pub type_: NotificationType,
    pub remaining_ms: u64,
    pub id: u64,
}

/// The mathematical value of a notification.
pub struct NotificationV {
    pub message: Seq<char>,
    pub type_: NotificationType,
    pub remaining_ms: u64,
    pub id: u64,
}

impl View for Notification {
    type V = NotificationV;

    open spec fn view(&self) -> NotificationV {
        NotificationV {
            message: self.message@,
            type_: self.type_,
            remaining_ms: self.remaining_ms,
            id: self.id,
        }
    }
}

/// The values of a list of notifications.
pub open spec fn queue_view(msgs: Seq<Notification>) -> Seq<NotificationV> {
    Seq::new(msgs.len(), |i: int| msgs[i]@)
}

/// A request to show one notification.
pub struct Notify {
    pub message: String,
    pub type_: NotificationType,
}

impl Notify {
    /// A notification request of the given level.
    pub fn new(type_: NotificationType, msg: String) -> (r: Notify)
        ensures
            r.type_ == type_,
            r.message@ == msg@,
    {
        Notify { type_, message: msg }
    }

    /// An informational message.
    pub fn info(msg: String) -> (r: Notify)
        ensures
            r.type_ == NotificationType::Info,
            r.message@ == msg@,
    {
        Notify::new(NotificationType::Info, msg)
    }

    /// A success message.
    pub fn success(msg: String) -> (r: Notify)
        ensures
            r.type_ == NotificationType::Success,
            r.message@ == msg@,
    {
        Notify::new(NotificationType::Success, msg)
    }

    /// A warning.
    pub fn warning(msg: String) -> (r: Notify)
        ensures
            r.type_ == NotificationType::Warning,
            r.message@ == msg@,
    {
        Notify::new(NotificationType::Warning, msg)
    }

    /// An error message.
    pub fn error(msg: String) -> (r: Notify)
        ensures
            r.type_ == NotificationType::Error,
            r.message@ == msg@,
    {
        Notify::new(NotificationType::Error, msg)
    }
}

/// The messages of `msgs` that survive `delta_ms` more milliseconds, each
/// aged by that much.
pub open spec fn aged(msgs: Seq<NotificationV>, delta_ms: u64) -> Seq<NotificationV>
    decreases msgs.len(),
{
    if msgs.len() == 0 {
        Seq::empty()
    } else {
        let rest = aged(msgs.drop_last(), delta_ms);
        if msgs.last().remaining_ms > delta_ms {
            rest + seq![
                NotificationV {
                    remaining_ms: (msgs.last().remaining_ms - delta_ms) as u64,
                    ..msgs.last()
                },
            ]
        } else {
            rest
        }
    }
}

/// The messages of `msgs` other than those with identifier `id`.
pub open spec fn without_id(msgs: Seq<NotificationV>, id: u64) -> Seq<NotificationV>
    decreases msgs.len(),
{
    if msgs.len() == 0 {
        Seq::empty()
    } else {
        let rest = without_id(msgs.drop_last(), id);
        if msgs.last().id != id {
            rest + seq![msgs.last()]
        } else {
            rest
        }
    }
}

/// Surviving messages keep their identifiers: both filters hand every
/// message through unchanged but for its remaining time, so the identifiers
/// stay pairwise distinct and each comes from the original list.
pub proof fn lemma_aged_ids(m: Seq<NotificationV>, d: u64)
    requires
        forall|i: int, j: int| 0 <= i < j < m.len() ==> m[i].id != m[j].id,
    ensures
        forall|i: int, j: int| 0 <= i < j < aged(m, d).len() ==> aged(m, d)[i].id != aged(
            m,
            d,
        )[j].id,
        forall|i: int| 0 <= i < aged(m, d).len() ==> exists|w: int|
            0 <= w < m.len() && (#[trigger] aged(m, d)[i]).id == m[w].id,
    decreases m.len(),
{
    if m.len() > 0 {
        let dl = m.drop_last();
        assert(forall|i: int, j: int|
            0 <= i < j < dl.len() ==> (#[trigger] dl[i]).id != (#[trigger] dl[j]).id) by {
            assert(forall|i: int| 0 <= i < dl.len() ==> dl[i] == #[trigger] m[i]);
        }
        lemma_aged_ids(dl, d);
        let rest = aged(dl, d);
        assert forall|i: int| 0 <= i < rest.len() implies exists|w: int|
            0 <= w < m.len() && (#[trigger] rest[i]).id == m[w].id by {
            let w = choose|w: int| 0 <= w < dl.len() && rest[i].id == dl[w].id;
            assert(rest[i].id == m[w].id);
        }
        if m.last().remaining_ms > d {
            assert forall|i: int| 0 <= i < rest.len() implies rest[i].id != m.last().id by {
                let w = choose|w: int| 0 <= w < dl.len() && rest[i].id == dl[w].id;
                assert(m[w].id != m[m.len() - 1].id);
            }
        }
    }
}

/// Dismissal keeps the surviving identifiers distinct and from the
/// original list, just as aging does.
pub proof fn lemma_without_id_ids(m: Seq<NotificationV>, id: u64)
    requires
        forall|i: int, j: int| 0 <= i < j < m.len() ==> m[i].id != m[j].id,
    ensures
        forall|i: int, j: int| 0 <= i < j < without_id(m, id).len() ==> without_id(m, id)[i].id
            != without_id(m, id)[j].id,
        forall|i: int| 0 <= i < without_id(m, id).len() ==> exists|w: int|
            0 <= w < m.len() && (#[trigger] without_id(m, id)[i]).id == m[w].id,
    decreases m.len(),
{
    if m.len() > 0 {
        let dl = m.drop_last();
        assert(forall|i: int, j: int|
            0 <= i < j < dl.len() ==> (#[trigger] dl[i]).id != (#[trigger] dl[j]).id) by {
            assert(forall|i: int| 0 <= i < dl.len() ==> dl[i] == #[trigger] m[i]);
        }
        lemma_without_id_ids(dl, id);
        let rest = without_id(dl, id);
        assert forall|i: int| 0 <= i < rest.len() implies exists|w: int|
            0 <= w < m.len() && (#[trigger] rest[i]).id == m[w].id by {
            let w = choose|w: int| 0 <= w < dl.len() && rest[i].id == dl[w].id;
            assert(rest[i].id == m[w].id);
        }
        if m.last().id != id {
            assert forall|i: int| 0 <= i < rest.len() implies rest[i].id != m.last().id by {
                let w = choose|w: int| 0 <= w < dl.len() && rest[i].id == dl[w].id;
                assert(m[w].id != m[m.len() - 1].id);
            }
        }
    }
}

/// The buffer of active notifications.
pub struct NotificationQueue {
    pub messages: Vec<Notification>,
    pub next_id: u64,
}

impl NotificationQueue {
    /// Well-formedness: every held identifier was assigned below `next_id`,
    /// and no identifier is held twice, so a message can be dismissed
    /// unambiguously.
    pub open spec fn wf(self) -> bool {
        &&& forall|i: int| 0 <= i < self.messages@.len() ==> (#[trigger] self.messages@[i].id)
            < self.next_id
        &&& forall|i: int, j: int| 0 <= i < j < self.messages@.len() ==> self.messages@[i].id
            != self.messages@[j].id
    }

    /// An empty queue.
    pub fn new() -> (r: NotificationQueue)
        ensures
            r.wf(),
            r.messages@.len() == 0,
            r.next_id == 0,
    {
        NotificationQueue { messages: Vec::new(), next_id: 0 }
    }

    /// Appends a requested notification, giving it a fresh identifier and
    /// the full lifetime.
    pub fn notify(&mut self, n: Notify)
        requires
            old(self).wf(),
            old(self).next_id < u64::MAX,
        ensures
            final(self).wf(),
            final(self).next_id == old(self).next_id + 1,
            queue_view(final(self).messages@) == queue_view(old(self).messages@) + seq![
                NotificationV {
                    message: n.message@,
                    type_: n.type_,
                    remaining_ms: NOTIFICATION_LIFETIME_MS,
                    id: old(self).next_id,
                },
            ],
    {
        let id = self.next_id;
        self.next_id = self.next_id + 1;
        let ghost before = queue_view(self.messages@);
        self.messages.push(
            Notification {
                message: n.message,
                type_: n.type_,
                remaining_ms: NOTIFICATION_LIFETIME_MS,
                id,
            },
        );
        proof {
            assert(queue_view(self.messages@) =~= before + seq![
                self.messages@.last()@,
            ]);
        }
    }

    /// Ages every message by the elapsed time and drops the expired ones.
    pub fn tick(&mut self, delta_ms: u64)
        requires
            old(self).wf(),
        ensures
            final(self).wf(),
            final(self).next_id == old(self).next_id,
            queue_view(final(self).messages@) == aged(queue_view(old(self).messages@), delta_ms),
    {
        proof {
            assert(forall|i: int| 0 <= i < self.messages@.len()
                ==> (#[trigger] queue_view(self.messages@)[i]).id == self.messages@[i].id);
            lemma_aged_ids(queue_view(self.messages@), delta_ms);
        }
        let n = self.messages.len();
        let mut kept: Vec<Notification> = Vec::new();
        let mut i: usize = 0;
        let ghost whole = queue_view(self.messages@);
        proof {
            assert(whole.subrange(0, 0) =~= Seq::<NotificationV>::empty());
            assert(aged(whole.subrange(0, 0), delta_ms) =~= Seq::<NotificationV>::empty());
        }
        while i < n
            invariant
                i <= n == self.messages@.len(),
                whole == queue_view(self.messages@),
                queue_view(kept@) == aged(whole.subrange(0, i as int), delta_ms),
            decreases n - i,
        {
            let ghost prefix = whole.subrange(0, i as int);
            let ghost next_prefix = whole.subrange(0, i + 1);
            proof {
                assert(next_prefix.drop_last() =~= prefix);
                assert(next_prefix.last() == whole[i as int]);
            }
            let ghost kept_before = queue_view(kept@);
            let m = &self.messages[i];
            if m.remaining_ms > delta_ms {
                kept.push(
                    Notification {
                        message: m.message.clone(),
                        type_: m.type_,
                        remaining_ms: m.remaining_ms - delta_ms,
                        id: m.id,
                    },
                );
                proof {
                    assert(queue_view(kept@) =~= kept_before + seq![kept@.last()@]);
                    assert(kept@.last()@ == (NotificationV {
                        remaining_ms: (whole[i as int].remaining_ms - delta_ms) as u64,
                        ..whole[i as int]
                    }));
                    assert(queue_view(kept@) =~= aged(next_prefix, delta_ms));
                }
            } else {
                proof {
                    assert(queue_view(kept@) =~= aged(next_prefix, delta_ms));
                }
            }
            i = i + 1;
        }
        proof {
            assert(whole.subrange(0, n as int) =~= whole);
            assert forall|k: int| 0 <= k < kept@.len() implies (#[trigger] kept@[k]).id
                < self.next_id by {
                assert(queue_view(kept@)[k].id == kept@[k].id);
                let w = choose|w: int|
                    0 <= w < whole.len() && aged(whole, delta_ms)[k].id == whole[w].id;
                assert(self.messages@[w].id < self.next_id);
            }
            assert forall|k: int, l: int| 0 <= k < l < kept@.len() implies kept@[k].id
                != kept@[l].id by {
                assert(queue_view(kept@)[k].id == kept@[k].id);
                assert(queue_view(kept@)[l].id == kept@[l].id);
            }
        }
        self.messages = kept;
    }

    /// Dismisses the message with the given identifier, if it is still
    /// shown.
    pub fn dismiss(&mut self, id: u64)
        requires
            old(self).wf(),
        ensures
            final(self).wf(),
            final(self).next_id == old(self).next_id,
            queue_view(final(self).messages@) == without_id(queue_view(old(self).messages@), id),
    {
        proof {
            assert(forall|i: int| 0 <= i < self.messages@.len()
                ==> (#[trigger] queue_view(self.messages@)[i]).id == self.messages@[i].id);
            lemma_without_id_ids(queue_view(self.messages@), id);
        }
        let n = self.messages.len();
        let mut kept: Vec<Notification> = Vec::new();
        let mut i: usize = 0;
        let ghost whole = queue_view(self.messages@);
        proof {
            assert(whole.subrange(0, 0) =~= Seq::<NotificationV>::empty());
            assert(without_id(whole.subrange(0, 0), id) =~= Seq::<NotificationV>::empty());
        }
        while i < n
            invariant
                i <= n == self.messages@.len(),
                whole == queue_view(self.messages@),
                queue_view(kept@) == without_id(whole.subrange(0, i as int), id),
            decreases n - i,
        {
            let ghost prefix = whole.subrange(0, i as int);
            let ghost next_prefix = whole.subrange(0, i + 1);
            proof {
                assert(next_prefix.drop_last() =~= prefix);
                assert(next_prefix.last() == whole[i as int]);
            }
            let ghost kept_before = queue_view(kept@);
            let m = &self.messages[i];
            if m.id != id {
                kept.push(
                    Notification {
                        message: m.message.clone(),
                        type_: m.type_,
                        remaining_ms: m.remaining_ms,
                        id: m.id,
                    },
                );
                proof {
                    assert(queue_view(kept@) =~= kept_before + seq![kept@.last()@]);
                    assert(kept@.last()@ == whole[i as int]);
                    assert(queue_view(kept@) =~= without_id(next_prefix, id));
                }
            } else {
                proof {
                    assert(queue_view(kept@) =~= without_id(next_prefix, id));
                }
            }
            i = i + 1;
        }
        proof {
            assert(whole.subrange(0, n as int) =~= whole);
            assert forall|k: int| 0 <= k < kept@.len() implies (#[trigger] kept@[k]).id
                < self.next_id by {
                assert(queue_view(kept@)[k].id == kept@[k].id);
                let w = choose|w: int|
                    0 <= w < whole.len() && without_id(whole, id)[k].id == whole[w].id;
                assert(self.messages@[w].id < self.next_id);
            }
            assert forall|k: int, l: int| 0 <= k < l < kept@.len() implies kept@[k].id
                != kept@[l].id by {
                assert(queue_view(kept@)[k].id == kept@[k].id);
                assert(queue_view(kept@)[l].id == kept@[l].id);
            }
        }
        self.messages = kept;
    }

    /// How many messages are shown.
    pub fn len(&self) -> (r: usize)
        ensures
            r == self.messages@.len(),
    {
        self.messages.len()
    }
}

} // verus!
