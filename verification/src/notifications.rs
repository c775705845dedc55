//! User-facing notifications with bounded retention and expiry.

use vstd::prelude::*;

use crate::bounded::{keep_last, lemma_drop_first_push_is_keep_last, lemma_keep_last_push};
use crate::clock::{fresh_id, now_millis, Timestamp};
use crate::goal_scheduler::GoalId;
use crate::text::owned;

verus! {

#[derive(Debug, Clone, Copy, PartialEq, Eq, Structural)]
pub enum NotificationLevel {
    Info,
    Success,
    Warning,
    Critical,
}

#[derive(Debug, Clone, Copy, PartialEq, Eq, Structural)]
pub enum NotificationCategory {
    GoalCompleted,
    ApprovalRequired,
    CriticalFailure,
    StrategyUpdated,
    ResourceExhaustion,
    GoalProgress,
    GoalBlocked,
    GoalDeferred,
    GoalCreated,
    ExternalEvent,
    RecoveryPerformed,
    LearningInsight,
}

#[derive(Debug)]
pub struct Notification {
    pub id: u128,
    pub level: NotificationLevel,
    pub category: NotificationCategory,
    pub title: String,
    pub message: String,
    pub goal_id: Option<GoalId>,
    pub timestamp: Timestamp,
    pub acknowledged: bool,
    pub expires_at: Option<Timestamp>,
}

/// A notification as plain values.
pub struct NotificationView {
    pub id: u128,
    pub level: NotificationLevel,
    pub category: NotificationCategory,
    pub title: Seq<char>,
    pub message: Seq<char>,
    pub goal_id: Option<GoalId>,
    pub timestamp: Timestamp,
    pub acknowledged: bool,
    pub expires_at: Option<Timestamp>,
}

impl View for Notification {
    type V = NotificationView;

    open spec fn view(&self) -> NotificationView {
        NotificationView {
            id: self.id,
            level: self.level,
            category: self.category,
            title: self.title@,
            message: self.message@,
            goal_id: self.goal_id,
            timestamp: self.timestamp,
            acknowledged: self.acknowledged,
            expires_at: self.expires_at,
        }
    }
}

impl Clone for Notification {
    fn clone(&self) -> (r: Self)
        ensures
            r@ == self@,
    {
        Notification {
            id: self.id,
            level: self.level,
            category: self.category,
            title: self.title.clone(),
            message: self.message.clone(),
            goal_id: self.goal_id,
            timestamp: self.timestamp,
            acknowledged: self.acknowledged,
            expires_at: self.expires_at,
        }
    }
}

impl Notification {
    /// A fresh, unacknowledged notification with identifier `id` made at `now`.
    pub fn new_at(
        id: u128,
        now: Timestamp,
        level: NotificationLevel,
        category: NotificationCategory,
        title: &str,
        message: &str,
    ) -> (n: Self)
        ensures
            n@ == (NotificationView {
                id,
                level,
                category,
                title: title@,
                message: message@,
                goal_id: None,
                timestamp: now,
                acknowledged: false,
                expires_at: None,
            }),
    {
        Notification {
            id,
            level,
            category,
            title: owned(title),
            message: owned(message),
            goal_id: None,
            timestamp: now,
            acknowledged: false,
            expires_at: None,
        }
    }

    /// A fresh notification with a random identifier, stamped now.
    pub fn new(
        level: NotificationLevel,
        category: NotificationCategory,
        title: &str,
        message: &str,
    ) -> (n: Self)
        ensures
            n.level == level,
            n.category == category,
            n.title@ == title@,
            n.message@ == message@,
            n.goal_id.is_none(),
            !n.acknowledged,
            n.expires_at.is_none(),
    {
        let id = fresh_id();
        let now = now_millis();
        Self::new_at(id, now, level, category, title, message)
    }

    pub fn for_goal(self, goal_id: GoalId) -> (n: Self)
        ensures
            n@ == (NotificationView { goal_id: Some(goal_id), ..self@ }),
    {
        Notification { goal_id: Some(goal_id), ..self }
    }

    pub fn expires(self, at: Timestamp) -> (n: Self)
        ensures
            n@ == (NotificationView { expires_at: Some(at), ..self@ }),
    {
        Notification { expires_at: Some(at), ..self }
    }
}

/// Still waiting for the user at time `now`: not acknowledged, not expired.
pub open spec fn is_pending(n: NotificationView, now: Timestamp) -> bool {
    !n.acknowledged && match n.expires_at {
        Some(exp) => exp > now,
        None => true,
    }
}

pub open spec fn nviews(s: Seq<Notification>) -> Seq<NotificationView> {
    s.map_values(|n: Notification| n@)
}

/// The pending notifications of `s` at `now`, in order.
pub open spec fn pending_of(s: Seq<NotificationView>, now: Timestamp) -> Seq<NotificationView>
    decreases s.len(),
{
    if s.len() == 0 {
        Seq::empty()
    } else {
        let rest = pending_of(s.drop_last(), now);
        if is_pending(s.last(), now) {
            rest.push(s.last())
        } else {
            rest
        }
    }
}

/// The notifications of `s` for `goal`, in order.
pub open spec fn for_goal_of(s: Seq<NotificationView>, goal: GoalId) -> Seq<NotificationView>
    decreases s.len(),
{
    if s.len() == 0 {
        Seq::empty()
    } else {
        let rest = for_goal_of(s.drop_last(), goal);
        if s.last().goal_id == Some(goal) {
            rest.push(s.last())
        } else {
            rest
        }
    }
}

/// `s` after appending `e` and evicting the oldest if over `max`.
pub open spec fn notify_push(s: Seq<NotificationView>, e: NotificationView, max: nat) -> Seq<
    NotificationView,
> {
    let t = s.push(e);
    if t.len() > max {
        t.drop_first()
    } else {
        t
    }
}

proof fn lemma_nviews_push(s: Seq<Notification>, e: Notification)
    ensures
        nviews(s.push(e)) == nviews(s).push(e@),
{
    assert(nviews(s.push(e)) =~= nviews(s).push(e@));
}

#[derive(Debug)]
pub struct NotificationService {
    notifications: Vec<Notification>,
    max_pending: usize,
}

impl NotificationService {
    /// The stored notifications, oldest first.
    pub closed spec fn items(self) -> Seq<NotificationView> {
        nviews(self.notifications@)
    }

    pub closed spec fn capacity(self) -> nat {
        self.max_pending as nat
    }

    pub fn new() -> (s: Self)
        ensures
            s.items().len() == 0,
            s.capacity() == 100,
    {
        NotificationService { notifications: Vec::new(), max_pending: 100 }
    }

    pub fn with_max_pending(self, max: usize) -> (s: Self)
        ensures
            s.items() == self.items(),
            s.capacity() == max,
    {
        NotificationService { notifications: self.notifications, max_pending: max }
    }

    /// Store a notification, evicting the oldest when over capacity.
    pub fn notify(&mut self, notification: Notification)
        ensures
            final(self).capacity() == old(self).capacity(),
            final(self).items() == notify_push(old(self).items(), notification@, old(self).capacity()),
    {
        let ghost old_n = self.notifications@;
        let ghost e = notification@;
        self.notifications.push(notification);
        proof {
            lemma_nviews_push(old_n, self.notifications@.last());
        }
        if self.notifications.len() > self.max_pending {
            let ghost t = self.notifications@;
            self.notifications.remove(0);
            assert(nviews(self.notifications@) =~= nviews(t).drop_first());
        }
    }

    /// Build and store a notification.
    pub fn notify_simple(
        &mut self,
        level: NotificationLevel,
        category: NotificationCategory,
        title: &str,
        message: &str,
    )
        ensures
            final(self).capacity() == old(self).capacity(),
            exists|id: u128, now: Timestamp|
                final(self).items() == #[trigger] notify_push(
                    old(self).items(),
                    NotificationView {
                        id,
                        level,
                        category,
                        title: title@,
                        message: message@,
                        goal_id: None,
                        timestamp: now,
                        acknowledged: false,
                        expires_at: None,
                    },
                    old(self).capacity(),
                ),
    {
        let id = fresh_id();
        let now = now_millis();
        let n = Notification::new_at(id, now, level, category, title, message);
        self.notify(n);
    }

    /// Mark the first notification with identifier `id` as acknowledged.
    /// Returns whether one was found.
    pub fn acknowledge(&mut self, id: u128) -> (found: bool)
        ensures
            final(self).capacity() == old(self).capacity(),
            found == exists|i: int| 0 <= i < old(self).items().len() && old(self).items()[i].id == id,
            !found ==> final(self).items() == old(self).items(),
            found ==> exists|i: int|
                0 <= i < old(self).items().len() && old(self).items()[i].id == id && (forall|k: int|
                    0 <= k < i ==> old(self).items()[k].id != id) && final(self).items()
                    == old(self).items().update(
                    i,
                    NotificationView { acknowledged: true, ..old(self).items()[i] },
                ),
    {
        let mut i: usize = 0;
        while i < self.notifications.len()
            invariant
                i <= self.notifications@.len(),
                self.notifications@ == old(self).notifications@,
                self.max_pending == old(self).max_pending,
                forall|k: int| 0 <= k < i ==> self.notifications@[k].id != id,
            decreases self.notifications@.len() - i,
        {
            if self.notifications[i].id == id {
                let ghost before = self.notifications@;
                let mut n = self.notifications.remove(i);
                n.acknowledged = true;
                self.notifications.insert(i, n);
                proof {
                    assert(nviews(self.notifications@) =~= nviews(before).update(
                        i as int,
                        NotificationView { acknowledged: true, ..nviews(before)[i as int] },
                    ));
                }
                return true;
            }
            i = i + 1;
        }
        false
    }

    /// The notifications still pending at `now`, oldest first.
    pub fn pending_at(&self, now: Timestamp) -> (r: Vec<Notification>)
        ensures
            nviews(r@) == pending_of(self.items(), now),
    {
        let mut r: Vec<Notification> = Vec::new();
        let mut i: usize = 0;
        while i < self.notifications.len()
            invariant
                i <= self.notifications@.len(),
                nviews(r@) == pending_of(nviews(self.notifications@.subrange(0, i as int)), now),
            decreases self.notifications@.len() - i,
        {
            let n = &self.notifications[i];
            let ghost pre = self.notifications@.subrange(0, i as int);
            let pend = !n.acknowledged && match n.expires_at {
                Some(exp) => exp > now,
                None => true,
            };
            if pend {
                let c = n.clone();
                let ghost r0 = r@;
                r.push(c);
                proof {
                    lemma_nviews_push(r0, c);
                }
            }
            proof {
                assert(self.notifications@.subrange(0, i + 1) =~= pre.push(*n));
                lemma_nviews_push(pre, *n);
                assert(nviews(pre).push(n@).drop_last() =~= nviews(pre));
                assert(nviews(pre).push(n@).last() == n@);
            }
            i = i + 1;
        }
        assert(self.notifications@.subrange(0, i as int) =~= self.notifications@);
        r
    }

    /// The notifications still pending now, by the wall clock.
    pub fn pending(&self) -> (r: Vec<Notification>)
        ensures
            exists|now: Timestamp| nviews(r@) == #[trigger] pending_of(self.items(), now),
    {
        let now = now_millis();
        self.pending_at(now)
    }

    /// Every stored notification, oldest first.
    pub fn all(&self) -> (r: Vec<Notification>)
        ensures
            nviews(r@) == self.items(),
    {
        let mut r: Vec<Notification> = Vec::new();
        let mut i: usize = 0;
        while i < self.notifications.len()
            invariant
                i <= self.notifications@.len(),
                nviews(r@) == nviews(self.notifications@.subrange(0, i as int)),
            decreases self.notifications@.len() - i,
        {
            let c = self.notifications[i].clone();
            let ghost r0 = r@;
            r.push(c);
            proof {
                lemma_nviews_push(r0, c);
                lemma_nviews_push(
                    self.notifications@.subrange(0, i as int),
                    self.notifications@[i as int],
                );
                assert(self.notifications@.subrange(0, i + 1) =~= self.notifications@.subrange(
                    0,
                    i as int,
                ).push(self.notifications@[i as int]));
            }
            i = i + 1;
        }
        assert(self.notifications@.subrange(0, i as int) =~= self.notifications@);
        r
    }

    /// The notifications about `goal_id`, oldest first.
    pub fn for_goal(&self, goal_id: &GoalId) -> (r: Vec<Notification>)
        ensures
            nviews(r@) == for_goal_of(self.items(), *goal_id),
    {
        let mut r: Vec<Notification> = Vec::new();
        let mut i: usize = 0;
        while i < self.notifications.len()
            invariant
                i <= self.notifications@.len(),
                nviews(r@) == for_goal_of(
                    nviews(self.notifications@.subrange(0, i as int)),
                    *goal_id,
                ),
            decreases self.notifications@.len() - i,
        {
            let n = &self.notifications[i];
            let ghost pre = self.notifications@.subrange(0, i as int);
            let hit = match n.goal_id {
                Some(g) => g == *goal_id,
                None => false,
            };
            if hit {
                let c = n.clone();
                let ghost r0 = r@;
                r.push(c);
                proof {
                    lemma_nviews_push(r0, c);
                }
            }
            proof {
                assert(self.notifications@.subrange(0, i + 1) =~= pre.push(*n));
                lemma_nviews_push(pre, *n);
                assert(nviews(pre).push(n@).drop_last() =~= nviews(pre));
                assert(nviews(pre).push(n@).last() == n@);
            }
            i = i + 1;
        }
        assert(self.notifications@.subrange(0, i as int) =~= self.notifications@);
        r
    }

    /// How many notifications are pending at `now`.
    pub fn unacknowledged_count_at(&self, now: Timestamp) -> (c: usize)
        ensures
            c == pending_of(self.items(), now).len(),
    {
        let r = self.pending_at(now);
        r.len()
    }

    /// How many notifications are pending now, by the wall clock.
    pub fn unacknowledged_count(&self) -> (c: usize)
        ensures
            exists|now: Timestamp| c == #[trigger] pending_of(self.items(), now).len(),
    {
        let now = now_millis();
        self.unacknowledged_count_at(now)
    }
}

/// The service keeps exactly the most recent `max` notifications of
/// everything it was given.
pub proof fn lemma_notify_keeps_latest(history: Seq<NotificationView>, e: NotificationView, max: nat)
    ensures
        notify_push(keep_last(history, max), e, max) == keep_last(history.push(e), max),
{
    let w = keep_last(history, max);
    lemma_keep_last_push(history, e, max);
    if max == 0 {
        assert(notify_push(w, e, max) =~= keep_last(history.push(e), max));
    } else if w.len() == max {
        lemma_drop_first_push_is_keep_last(w, e, max);
    } else {
        assert(keep_last(w.push(e), max) == w.push(e));
    }
}

proof fn lemma_pending_of_members(s: Seq<NotificationView>, now: Timestamp, x: NotificationView)
    ensures
        pending_of(s, now).contains(x) <==> (s.contains(x) && is_pending(x, now)),
    decreases s.len(),
{
    if s.len() > 0 {
        lemma_pending_of_members(s.drop_last(), now, x);
        let r = pending_of(s.drop_last(), now);
        if pending_of(s, now).contains(x) {
            let k = choose|k: int| 0 <= k < pending_of(s, now).len() && pending_of(s, now)[k] == x;
            if k < r.len() {
                assert(r[k] == x);
                let j = choose|j: int| 0 <= j < s.drop_last().len() && s.drop_last()[j] == x;
                assert(s[j] == x);
            } else {
                assert(s[s.len() - 1] == x);
            }
        }
        if s.contains(x) && is_pending(x, now) {
            let j = choose|j: int| 0 <= j < s.len() && s[j] == x;
            if j < s.len() - 1 {
                assert(s.drop_last()[j] == x);
                let k = choose|k: int| 0 <= k < r.len() && r[k] == x;
                assert(pending_of(s, now)[k] == x);
            } else {
                assert(pending_of(s, now).last() == x);
            }
        }
    }
}

/// After a notification is acknowledged it is no longer pending, at any
/// time; pending notifications are never acknowledged ones.
pub proof fn lemma_pending_excludes_acknowledged(s: Seq<NotificationView>, now: Timestamp, i: int)
    requires
        0 <= i < s.len(),
        s[i].acknowledged,
    ensures
        !pending_of(s, now).contains(s[i]),
{
    lemma_pending_of_members(s, now, s[i]);
}

/// A notification whose expiry is at or before `now` is not pending.
pub proof fn lemma_expired_not_pending(s: Seq<NotificationView>, now: Timestamp, i: int)
    requires
        0 <= i < s.len(),
        s[i].expires_at matches Some(exp) && exp <= now,
    ensures
        !pending_of(s, now).contains(s[i]),
{
    lemma_pending_of_members(s, now, s[i]);
}

} // verus!
