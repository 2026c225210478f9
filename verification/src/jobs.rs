//! Background jobs: prediction reminders and delivery of queued notifications.

use vstd::prelude::*;

use crate::domain::entities::{Pool, PoolMember};
use crate::domain::kinds::{Channel, MemberStatus, PoolStatus};
use crate::error::{message_of, AppError};
use crate::shared::ReminderRecipient;
use crate::text::str_eq;
use crate::time::{display_moment, display_text, earlier, moment_of, parse_datetime, parsed_moment, shifted_secs, Moment};

verus! {

#[derive(Debug, Clone, Copy, PartialEq, Eq, Structural)]
pub struct ReminderWindow {
    pub window_minutes: u32,
    /// Minimum time between two reminders to the same user: at most one
    /// reminder per user inside this window, however many matches are near.
    pub throttle_minutes: u32,
}

impl ReminderWindow {
    pub fn new(window_minutes: u32, throttle_minutes: u32) -> (r: ReminderWindow)
        ensures
            r.window_minutes == window_minutes,
            r.throttle_minutes == throttle_minutes,
    {
        ReminderWindow { window_minutes, throttle_minutes }
    }
}

#[derive(Debug, Clone, Copy, PartialEq, Eq, Structural)]
pub struct DispatchSummary {
    pub delivered: u32,
}

/// A member already reminded about a match in a pool.
#[derive(Debug, Clone)]
pub struct RemindedRecipient {
    pub user_id: String,
    pub pool_id: String,
}

/// A queued message for an external channel.
#[derive(Debug, Clone)]
pub struct OutboundNotification {
    pub id: String,
    pub channel: Channel,
    pub user_id: String,
    pub title: String,
    pub body: String,
}

/// The reminder job; holds the repositories and services the caller drives.
pub struct SendPredictionReminders<Q, PoolR, MemberR, PredR, N, C> {
    pub queries: Q,
    pub pools: PoolR,
    pub members: MemberR,
    pub predictions: PredR,
    pub notifier: N,
    pub clock: C,
}

impl<Q, PoolR, MemberR, PredR, N, C> SendPredictionReminders<Q, PoolR, MemberR, PredR, N, C> {
    pub fn new(queries: Q, pools: PoolR, members: MemberR, predictions: PredR, notifier: N, clock: C) -> (r: Self)
        ensures
            r.queries == queries,
            r.pools == pools,
            r.members == members,
            r.predictions == predictions,
            r.notifier == notifier,
            r.clock == clock,
    {
        SendPredictionReminders { queries, pools, members, predictions, notifier, clock }
    }
}

/// The delivery job; holds the outbox, the channel senders and the clock.
pub struct DispatchNotifications<O, S, C> {
    pub outbound: O,
    pub senders: Vec<S>,
    pub clock: C,
}

impl<O, S, C> DispatchNotifications<O, S, C> {
    pub fn new(outbound: O, senders: Vec<S>, clock: C) -> (r: Self)
        ensures
            r.outbound == outbound,
            r.senders == senders,
            r.clock == clock,
    {
        DispatchNotifications { outbound, senders, clock }
    }
}

/// How the end of the reminder window is written for the match query.
pub fn reminder_window_end(now: Moment, window: ReminderWindow) -> (r: Option<String>)
    requires
        i64::MIN <= now.secs + window.window_minutes * 60 <= i64::MAX,
    ensures
        match display_text((now.secs + window.window_minutes * 60) as i64, now.nanos) {
            Some(t) => r matches Some(x) && x@ == t,
            None => r is None,
        },
{
    let secs = now.secs + (window.window_minutes as i64) * 60;
    display_moment(secs, now.nanos)
}

/// How the start of the throttle window is written for the query of users
/// reminded since then.
pub fn reminder_throttle_start(now: Moment, window: ReminderWindow) -> (r: Option<String>)
    requires
        i64::MIN <= now.secs - window.throttle_minutes * 60 <= i64::MAX,
    ensures
        match display_text((now.secs - window.throttle_minutes * 60) as i64, now.nanos) {
            Some(t) => r matches Some(x) && x@ == t,
            None => r is None,
        },
{
    let secs = now.secs - (window.throttle_minutes as i64) * 60;
    display_moment(secs, now.nanos)
}

/// A pool takes reminders for a match while it is active and its prediction
/// window for the match is still open.
pub open spec fn pool_takes_reminders(pool: Pool, now: Moment, kickoff: Moment) -> bool {
    pool.status == PoolStatus::Active && earlier(
        now.secs as int,
        now.nanos as int,
        shifted_secs(kickoff, -(pool.prediction_lock_offset_minutes as int)),
        kickoff.nanos as int,
    )
}

pub fn pool_open_for_reminders(pool: &Pool, now: Moment, kickoff: Moment) -> (r: bool)
    ensures
        r == pool_takes_reminders(*pool, now, kickoff),
{
    if pool.status != PoolStatus::Active {
        return false;
    }
    crate::time::before_shifted(now, kickoff, -(pool.prediction_lock_offset_minutes as i64))
}

/// The positions of the pools that take reminders for a match at `kickoff`.
pub open spec fn open_pool_indices(pools: Seq<Pool>, now: Moment, kickoff: Moment) -> Seq<int>
    decreases pools.len(),
{
    if pools.len() == 0 {
        Seq::empty()
    } else {
        let rest = open_pool_indices(pools.drop_last(), now, kickoff);
        if pool_takes_reminders(pools.last(), now, kickoff) {
            rest.push(pools.len() - 1)
        } else {
            rest
        }
    }
}

/// The pools to remind about a match, by position, in order: none when the
/// kickoff cannot be read (the match is skipped), else those that take
/// reminders for it.
pub fn reminder_pools(pools: &Vec<Pool>, now: Moment, kickoff_at: &str) -> (r: Vec<usize>)
    ensures
        match moment_of(parsed_moment(kickoff_at@)) {
            None => r@.len() == 0,
            Some(kickoff) => r@.map_values(|k: usize| k as int) == open_pool_indices(pools@, now, kickoff),
        },
{
    let kickoff = match parse_datetime(kickoff_at) {
        Some(k) => k,
        None => return Vec::new(),
    };
    let mut r: Vec<usize> = Vec::new();
    let mut i: usize = 0;
    while i < pools.len()
        invariant
            i <= pools.len(),
            r@.map_values(|k: usize| k as int) == open_pool_indices(pools@.take(i as int), now, kickoff),
        decreases pools.len() - i,
    {
        assert(pools@.take(i + 1).drop_last() =~= pools@.take(i as int));
        let ghost before = r@;
        if pool_open_for_reminders(&pools[i], now, kickoff) {
            r.push(i);
            assert(r@.map_values(|k: usize| k as int) =~= before.map_values(|k: usize| k as int).push(i as int));
        }
        i = i + 1;
    }
    assert(pools@.take(pools.len() as int) =~= pools@);
    r
}

pub open spec fn seq_has(ids: Seq<String>, id: Seq<char>) -> bool {
    exists|k: int| 0 <= k < ids.len() && (#[trigger] ids[k])@ == id
}

pub open spec fn already_reminded(done: Seq<RemindedRecipient>, user: Seq<char>, pool: Seq<char>) -> bool {
    exists|k: int| 0 <= k < done.len() && (#[trigger] done[k]).user_id@ == user && done[k].pool_id@ == pool
}

/// The text of each id.
pub open spec fn views(ids: Seq<String>) -> Seq<Seq<char>> {
    ids.map_values(|s: String| s@)
}

/// The members of a pool to remind: active, without a prediction for the
/// match, not reminded about it in this pool before, and not among the users
/// to skip (reminded within the throttle window or earlier in the run); each
/// user once, in member order.
pub open spec fn to_remind(
    members: Seq<PoolMember>,
    pool_id: Seq<char>,
    predicted: Seq<String>,
    done: Seq<RemindedRecipient>,
    skip: Seq<Seq<char>>,
) -> Seq<Seq<char>>
    decreases members.len(),
{
    if members.len() == 0 {
        Seq::empty()
    } else {
        let rest = to_remind(members.drop_last(), pool_id, predicted, done, skip);
        let m = members.last();
        if m.status == MemberStatus::Active && !seq_has(predicted, m.id@) && !already_reminded(
            done,
            m.user_id@,
            pool_id,
        ) && !skip.contains(m.user_id@) && !rest.contains(m.user_id@) {
            rest.push(m.user_id@)
        } else {
            rest
        }
    }
}

/// No user is reminded twice: not twice in one pool's list, and not at all
/// when among the users to skip.
pub proof fn law_each_user_reminded_once(
    members: Seq<PoolMember>,
    pool_id: Seq<char>,
    predicted: Seq<String>,
    done: Seq<RemindedRecipient>,
    skip: Seq<Seq<char>>,
)
    ensures
        ({
            let r = to_remind(members, pool_id, predicted, done, skip);
            &&& forall|i: int, j: int| 0 <= i < j < r.len() ==> r[i] != r[j]
            &&& forall|i: int| 0 <= i < r.len() ==> !skip.contains(#[trigger] r[i])
        }),
    decreases members.len(),
{
    if members.len() > 0 {
        law_each_user_reminded_once(members.drop_last(), pool_id, predicted, done, skip);
        let rest = to_remind(members.drop_last(), pool_id, predicted, done, skip);
        let r = to_remind(members, pool_id, predicted, done, skip);
        if r.len() > rest.len() {
            assert forall|i: int, j: int| 0 <= i < j < r.len() implies r[i] != r[j] by {
                if j == rest.len() {
                    assert(r[i] == rest[i]);
                    assert(rest.contains(rest[i]));
                }
            }
        }
    }
}

fn contains_id(ids: &Vec<String>, id: &str) -> (r: bool)
    ensures
        r == seq_has(ids@, id@),
        r == views(ids@).contains(id@),
{
    let mut k: usize = 0;
    while k < ids.len()
        invariant
            k <= ids.len(),
            forall|j: int| 0 <= j < k ==> ids@[j]@ != id@,
        decreases ids.len() - k,
    {
        if str_eq(ids[k].as_str(), id) {
            assert(views(ids@)[k as int] == id@);
            return true;
        }
        k = k + 1;
    }
    proof {
        if views(ids@).contains(id@) {
            let j = choose|j: int| 0 <= j < views(ids@).len() && views(ids@)[j] == id@;
            assert(ids@[j]@ == id@);
        }
    }
    false
}

fn was_reminded(done: &Vec<RemindedRecipient>, user: &str, pool: &str) -> (r: bool)
    ensures
        r == already_reminded(done@, user@, pool@),
{
    let mut k: usize = 0;
    while k < done.len()
        invariant
            k <= done.len(),
            forall|j: int| 0 <= j < k ==> !(done@[j].user_id@ == user@ && done@[j].pool_id@ == pool@),
        decreases done.len() - k,
    {
        if str_eq(done[k].user_id.as_str(), user) && str_eq(done[k].pool_id.as_str(), pool) {
            return true;
        }
        k = k + 1;
    }
    false
}

/// The members of a pool to remind about a match, given who predicted it
/// (member ids), who was reminded about it (`done`) and which users to skip
/// (`reminded`, to which the chosen users are added).
fn pool_reminder_recipients(
    pool_id: &str,
    members: &Vec<PoolMember>,
    predicted: &Vec<String>,
    done: &Vec<RemindedRecipient>,
    reminded: &mut Vec<String>,
) -> (r: Vec<ReminderRecipient>)
    ensures
        ({
            let chosen = to_remind(members@, pool_id@, predicted@, done@, views(old(reminded)@));
            &&& r.len() == chosen.len()
            &&& forall|k: int|
                0 <= k < r.len() ==> (#[trigger] r@[k]).user_id@ == chosen[k] && r@[k].pool_id@
                    == pool_id@
            &&& views(final(reminded)@) == views(old(reminded)@) + chosen
        }),
{
    let ghost skip = views(reminded@);
    let ghost n0 = reminded@.len();
    let mut r: Vec<ReminderRecipient> = Vec::new();
    let mut i: usize = 0;
    while i < members.len()
        invariant
            i <= members.len(),
            n0 == skip.len(),
            r.len() == to_remind(members@.take(i as int), pool_id@, predicted@, done@, skip).len(),
            forall|k: int|
                0 <= k < r.len() ==> (#[trigger] r@[k]).user_id@ == to_remind(
                    members@.take(i as int),
                    pool_id@,
                    predicted@,
                    done@,
                    skip,
                )[k] && r@[k].pool_id@ == pool_id@,
            views(reminded@) == skip + to_remind(members@.take(i as int), pool_id@, predicted@, done@, skip),
        decreases members.len() - i,
    {
        let ghost rest = to_remind(members@.take(i as int), pool_id@, predicted@, done@, skip);
        assert(members@.take(i + 1).drop_last() =~= members@.take(i as int));
        let m = &members[i];
        let seen = contains_id(reminded, m.user_id.as_str());
        proof {
            assert(views(reminded@).contains(m.user_id@) <==> (skip.contains(m.user_id@) || rest.contains(
                m.user_id@,
            ))) by {
                if skip.contains(m.user_id@) {
                    let k = choose|k: int| 0 <= k < skip.len() && skip[k] == m.user_id@;
                    assert(views(reminded@)[k] == skip[k]);
                }
                if rest.contains(m.user_id@) {
                    let k = choose|k: int| 0 <= k < rest.len() && rest[k] == m.user_id@;
                    assert(views(reminded@)[n0 + k] == rest[k]);
                }
                if views(reminded@).contains(m.user_id@) {
                    let k = choose|k: int| 0 <= k < views(reminded@).len() && views(reminded@)[k] == m.user_id@;
                    if k < n0 {
                        assert(skip[k] == m.user_id@);
                    } else {
                        assert(rest[k - n0] == m.user_id@);
                    }
                }
            }
        }
        let ghost before = reminded@;
        if m.status == MemberStatus::Active && !contains_id(predicted, m.id.as_str())
            && !was_reminded(done, m.user_id.as_str(), pool_id) && !seen {
            r.push(ReminderRecipient { user_id: m.user_id.clone(), pool_id: String::from_str(pool_id) });
            reminded.push(m.user_id.clone());
            proof {
                assert(views(reminded@) =~= views(before).push(m.user_id@));
                assert(views(reminded@) =~= skip + rest.push(m.user_id@));
            }
        }
        i = i + 1;
    }
    assert(members@.take(members.len() as int) =~= members@);
    r
}

/// A pool of a match's tournament, with its members.
#[derive(Debug, Clone)]
pub struct PoolMembers {
    pub pool_id: String,
    pub members: Vec<PoolMember>,
}

/// The users of `rs`, in order.
pub open spec fn users_of(rs: Seq<(Seq<char>, Seq<char>)>) -> Seq<Seq<char>> {
    rs.map_values(|x: (Seq<char>, Seq<char>)| x.0)
}

/// The reminders for one match, as (user, pool) pairs: pool after pool,
/// each pool's `to_remind`, skipping the users in `skip` and those reminded
/// in an earlier pool.
pub open spec fn match_reminders(
    pools: Seq<PoolMembers>,
    predicted: Seq<String>,
    done: Seq<RemindedRecipient>,
    skip: Seq<Seq<char>>,
) -> Seq<(Seq<char>, Seq<char>)>
    decreases pools.len(),
{
    if pools.len() == 0 {
        Seq::empty()
    } else {
        let before = match_reminders(pools.drop_last(), predicted, done, skip);
        let p = pools.last();
        let chosen = to_remind(p.members@, p.pool_id@, predicted, done, skip + users_of(before));
        before + chosen.map_values(|u: Seq<char>| (u, p.pool_id@))
    }
}

/// A run of the reminder job: the users reminded within the throttle window
/// before it started (`initial`), the users it reminded (`sent`), and how
/// many reminders it sent.
pub struct ReminderRun {
    reminded: Vec<String>,
    created: u32,
    initial: Ghost<Seq<Seq<char>>>,
    sent: Ghost<Seq<Seq<char>>>,
}

pub open spec fn distinct(s: Seq<Seq<char>>) -> bool {
    forall|i: int, j: int| 0 <= i < j < s.len() ==> s[i] != s[j]
}

impl ReminderRun {
    /// A run keeps every user it reminded once, and none reminded within the
    /// throttle window before it; its count is the number of reminders sent
    /// (at most `u32::MAX`).
    pub closed spec fn wf(self) -> bool {
        &&& views(self.reminded@) == self.initial@ + self.sent@
        &&& distinct(self.sent@)
        &&& forall|k: int| 0 <= k < self.sent@.len() ==> !self.initial@.contains(#[trigger] self.sent@[k])
        &&& self.created == if self.sent@.len() <= u32::MAX { self.sent@.len() as int } else { u32::MAX as int }
    }

    /// The users reminded within the throttle window before the run.
    pub closed spec fn initial_users(self) -> Seq<Seq<char>> {
        self.initial@
    }

    /// The users the run reminded, in order.
    pub closed spec fn sent_users(self) -> Seq<Seq<char>> {
        self.sent@
    }

    /// The users the run skips from now on.
    pub closed spec fn skip(self) -> Seq<Seq<char>> {
        views(self.reminded@)
    }

    /// A run that has sent nothing yet, after the users reminded within the
    /// throttle window.
    pub fn start(reminded_since: Vec<String>) -> (r: ReminderRun)
        ensures
            r.wf(),
            r.initial_users() == views(reminded_since@),
            r.sent_users() == Seq::<Seq<char>>::empty(),
            r.skip() == views(reminded_since@),
    {
        let r = ReminderRun {
            reminded: reminded_since,
            created: 0,
            initial: Ghost(views(reminded_since@)),
            sent: Ghost(Seq::empty()),
        };
        assert(r.initial@ + r.sent@ =~= r.initial@);
        r
    }

    /// How many reminders the run sent.
    pub fn created(&self) -> (r: u32)
        requires
            self.wf(),
        ensures
            r == if self.sent_users().len() <= u32::MAX { self.sent_users().len() as int } else { u32::MAX as int },
    {
        self.created
    }

    /// The reminders about one match: for each pool that takes reminders for
    /// it, `to_remind` its members, skipping whoever this run or the throttle
    /// window already covers. The users chosen join those the run reminded.
    pub fn remind_match(
        &mut self,
        pools: &Vec<PoolMembers>,
        predicted: &Vec<String>,
        done: &Vec<RemindedRecipient>,
    ) -> (r: Vec<ReminderRecipient>)
        requires
            old(self).wf(),
        ensures
            final(self).wf(),
            final(self).initial_users() == old(self).initial_users(),
            ({
                let rm = match_reminders(pools@, predicted@, done@, old(self).skip());
                &&& r.len() == rm.len()
                &&& forall|k: int|
                    0 <= k < r.len() ==> (#[trigger] r@[k]).user_id@ == rm[k].0 && r@[k].pool_id@
                        == rm[k].1
                &&& final(self).sent_users() == old(self).sent_users() + users_of(rm)
                &&& final(self).skip() == old(self).skip() + users_of(rm)
            }),
    {
        let ghost skip0 = self.skip();
        let ghost sent0 = self.sent@;
        let mut out: Vec<ReminderRecipient> = Vec::new();
        let mut i: usize = 0;
        while i < pools.len()
            invariant
                i <= pools.len(),
                self.initial == old(self).initial,
                skip0 == old(self).skip(),
                sent0 == old(self).sent@,
                self.created == old(self).created,
                ({
                    let rm = match_reminders(pools@.take(i as int), predicted@, done@, skip0);
                    &&& out.len() == rm.len()
                    &&& forall|k: int|
                        0 <= k < out.len() ==> (#[trigger] out@[k]).user_id@ == rm[k].0 && out@[k].pool_id@
                            == rm[k].1
                    &&& views(self.reminded@) == skip0 + users_of(rm)
                }),
            decreases pools.len() - i,
        {
            let ghost rm0 = match_reminders(pools@.take(i as int), predicted@, done@, skip0);
            assert(pools@.take(i + 1).drop_last() =~= pools@.take(i as int));
            let ghost n = out.len();
            let mut chosen = pool_reminder_recipients(
                pools[i].pool_id.as_str(),
                &pools[i].members,
                predicted,
                done,
                &mut self.reminded,
            );
            let ghost ch = to_remind(pools@[i as int].members@, pools@[i as int].pool_id@, predicted@, done@, skip0 + users_of(rm0));
            let ghost rm1 = match_reminders(pools@.take(i + 1), predicted@, done@, skip0);
            assert(rm1 == rm0 + ch.map_values(|u: Seq<char>| (u, pools@[i as int].pool_id@)));
            let ghost added = chosen@;
            out.append(&mut chosen);
            proof {
                assert(users_of(rm1) =~= users_of(rm0) + ch);
                assert(views(self.reminded@) =~= skip0 + users_of(rm1));
                assert forall|k: int| 0 <= k < out.len() implies (#[trigger] out@[k]).user_id@ == rm1[k].0
                    && out@[k].pool_id@ == rm1[k].1 by {
                    if k >= n {
                        assert(out@[k] == added[k - n]);
                    }
                }
            }
            i = i + 1;
        }
        let ghost rm = match_reminders(pools@, predicted@, done@, skip0);
        assert(pools@.take(pools.len() as int) =~= pools@);
        proof {
            lemma_match_reminders_fresh(pools@, predicted@, done@, skip0);
            self.sent = Ghost(sent0 + users_of(rm));
            assert(self.initial@ + self.sent@ =~= skip0 + users_of(rm));
            assert forall|a: int, b: int| 0 <= a < b < self.sent@.len() implies self.sent@[a] != self.sent@[b] by {
                if b >= sent0.len() {
                    assert(self.sent@[b] == users_of(rm)[b - sent0.len()]);
                    assert(!skip0.contains(users_of(rm)[b - sent0.len()]));
                    if a < sent0.len() {
                        assert(skip0[old(self).initial@.len() + a] == sent0[a]);
                    } else {
                        assert(self.sent@[a] == users_of(rm)[a - sent0.len()]);
                    }
                }
            }
            assert forall|k: int| 0 <= k < self.sent@.len() implies !self.initial@.contains(
                #[trigger] self.sent@[k],
            ) by {
                if k >= sent0.len() {
                    assert(self.sent@[k] == users_of(rm)[k - sent0.len()]);
                    if self.initial@.contains(self.sent@[k]) {
                        let q = choose|q: int| 0 <= q < self.initial@.len() && self.initial@[q] == self.sent@[k];
                        assert(skip0[q] == self.initial@[q]);
                    }
                }
            }
        }
        let total = (self.created as u64).saturating_add(out.len() as u64);
        self.created = if total <= 4294967295u64 {
            total as u32
        } else {
            4294967295u32
        };
        out
    }
}

/// The reminders for one match name each user at most once, and none of
/// those to skip.
proof fn lemma_match_reminders_fresh(
    pools: Seq<PoolMembers>,
    predicted: Seq<String>,
    done: Seq<RemindedRecipient>,
    skip: Seq<Seq<char>>,
)
    ensures
        distinct(users_of(match_reminders(pools, predicted, done, skip))),
        forall|k: int|
            0 <= k < users_of(match_reminders(pools, predicted, done, skip)).len() ==> !skip.contains(
                #[trigger] users_of(match_reminders(pools, predicted, done, skip))[k],
            ),
    decreases pools.len(),
{
    if pools.len() > 0 {
        lemma_match_reminders_fresh(pools.drop_last(), predicted, done, skip);
        let before = match_reminders(pools.drop_last(), predicted, done, skip);
        let p = pools.last();
        let s2 = skip + users_of(before);
        let chosen = to_remind(p.members@, p.pool_id@, predicted, done, s2);
        law_each_user_reminded_once(p.members@, p.pool_id@, predicted, done, s2);
        let all = match_reminders(pools, predicted, done, skip);
        assert(users_of(all) =~= users_of(before) + chosen);
        let ub = users_of(before);
        assert forall|k: int| 0 <= k < chosen.len() implies !s2.contains(#[trigger] chosen[k]) by {}
        assert forall|k: int| 0 <= k < users_of(all).len() implies !skip.contains(#[trigger] users_of(all)[k]) by {
            if k >= ub.len() {
                let c = chosen[k - ub.len()];
                assert(!s2.contains(c));
                if skip.contains(c) {
                    let q = choose|q: int| 0 <= q < skip.len() && skip[q] == c;
                    assert(s2[q] == c);
                }
            }
        }
        assert forall|a: int, b: int| 0 <= a < b < users_of(all).len() implies users_of(all)[a] != users_of(all)[b] by {
            if b >= ub.len() {
                let c = chosen[b - ub.len()];
                assert(!s2.contains(c));
                if a < ub.len() {
                    assert(s2[skip.len() + a] == ub[a]);
                }
            }
        }
    }
}

/// Every run reminds each user at most once, and never a user reminded
/// within the throttle window before it started.
pub proof fn law_run_reminds_each_user_once(run: ReminderRun)
    requires
        run.wf(),
    ensures
        distinct(run.sent_users()),
        forall|k: int|
            0 <= k < run.sent_users().len() ==> !run.initial_users().contains(#[trigger] run.sent_users()[k]),
{
}

/// What a delivery attempt records in the queue.
#[derive(Debug, Clone)]
pub enum Delivery {
    /// Sent: the message is marked delivered and counted.
    Delivered,
    /// Not sent: a failed attempt is recorded with this error, the message
    /// stays queued for another attempt, and the run goes on.
    Failed(String),
}

/// What the outcome of sending a queued message records.
pub fn delivery_of(sent: &Result<(), AppError>) -> (r: Delivery)
    ensures
        match sent {
            Ok(_) => r is Delivered,
            Err(e) => r matches Delivery::Failed(m) && m@ == message_of(*e),
        },
{
    match sent {
        Ok(_) => Delivery::Delivered,
        Err(e) => Delivery::Failed(e.client_message()),
    }
}

/// Which sender delivers a queued message: the first one for its channel.
pub fn sender_for(channels: &Vec<Channel>, channel: Channel) -> (r: Option<usize>)
    ensures
        r matches Some(k) ==> k < channels.len() && channels@[k as int] == channel && forall|j: int|
            0 <= j < k ==> channels@[j] != channel,
        r is None ==> forall|j: int| 0 <= j < channels.len() ==> channels@[j] != channel,
{
    let mut k: usize = 0;
    while k < channels.len()
        invariant
            k <= channels.len(),
            forall|j: int| 0 <= j < k ==> channels@[j] != channel,
        decreases channels.len() - k,
    {
        if channels[k] == channel {
            return Some(k);
        }
        k = k + 1;
    }
    None
}

} // verus!
