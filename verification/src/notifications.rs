//! Notification preferences and the fan-out of notifications to users.

use vstd::prelude::*;

use crate::domain::entities::{Notification, NotificationPreference, PoolMember};
use crate::domain::kinds::{
    channel_from_text, channel_text, notification_type_from_text, notification_type_text,
    Channel, MemberStatus, NotificationType, PoolRole,
};
use crate::domain::policy::role_manages_members;
use crate::error::{is_coded, is_not_found, is_validation, AppError, CodedKind};
use crate::ids::new_id;
use crate::text::str_eq;

verus! {

#[derive(Debug, Clone)]
pub struct PreferenceInput {
    pub notification_type: String,
    pub channel: String,
    pub enabled: bool,
}

#[derive(Debug, Clone)]
pub struct UpdatePreferences {
    pub items: Vec<PreferenceInput>,
}

#[derive(Debug, Clone)]
pub struct NewNotificationRecord {
    pub id: String,
    pub user_id: String,
    pub pool_id: Option<String>,
    pub notification_type: String,
    pub title: String,
    pub body: String,
    pub related_match_id: Option<String>,
}

#[derive(Debug, Clone)]
pub struct NewPreferenceRecord {
    pub id: String,
    pub user_id: String,
    pub pool_id: Option<String>,
    pub notification_type: String,
    pub channel: String,
    pub enabled: bool,
}

/// A message waiting in the outbox for delivery on an external channel.
#[derive(Debug, Clone)]
pub struct NewOutboxRecord {
    pub id: String,
    pub channel: String,
    pub notification_type: String,
    pub user_id: String,
    pub title: String,
    pub body: String,
    pub related_match_id: Option<String>,
    pub pool_id: Option<String>,
}

#[derive(Debug, Clone)]
pub struct NewDeviceToken {
    pub id: String,
    pub user_id: String,
    pub token: String,
    pub platform: String,
}

/// A user to notify, and the pool the notification concerns.
#[derive(Debug, Clone)]
pub struct Recipient {
    pub user_id: String,
    pub pool_id: String,
}

/// Entry point of notification handling; holds the repositories and the
/// clock the caller drives.
pub struct NotificationUseCases<N, P, PoolR, MemberR, O, C> {
    pub notifications: N,
    pub preferences: P,
    pub pools: PoolR,
    pub members: MemberR,
    pub outbox: O,
    pub clock: C,
}

impl<N, P, PoolR, MemberR, O, C> NotificationUseCases<N, P, PoolR, MemberR, O, C> {
    pub fn new(
        notifications: N,
        preferences: P,
        pools: PoolR,
        members: MemberR,
        outbox: O,
        clock: C,
    ) -> (r: Self)
        ensures
            r.notifications == notifications,
            r.preferences == preferences,
            r.pools == pools,
            r.members == members,
            r.outbox == outbox,
            r.clock == clock,
    {
        NotificationUseCases { notifications, preferences, pools, members, outbox, clock }
    }
}

/// The enabled flag of the first preference for this type and channel that
/// satisfies `scoped`: set for the pool when `pool` is `Some`, global otherwise.
pub open spec fn first_preference(
    prefs: Seq<NotificationPreference>,
    pool: Option<Seq<char>>,
    t: NotificationType,
    c: Channel,
) -> Option<bool>
    decreases prefs.len(),
{
    if prefs.len() == 0 {
        None
    } else {
        let p = prefs[0];
        let scope_ok = match pool {
            Some(id) => p.pool_id matches Some(x) && x@ == id,
            None => p.pool_id is None,
        };
        if p.notification_type == t && p.channel == c && scope_ok {
            Some(p.enabled)
        } else {
            first_preference(prefs.drop_first(), pool, t, c)
        }
    }
}

/// Whether a user gets a notification: the pool's own preference decides,
/// else the global one, else it is on.
pub open spec fn enabled_for(
    prefs: Seq<NotificationPreference>,
    pool_id: Seq<char>,
    t: NotificationType,
    c: Channel,
) -> bool {
    match first_preference(prefs, Some(pool_id), t, c) {
        Some(b) => b,
        None => match first_preference(prefs, None, t, c) {
            Some(b) => b,
            None => true,
        },
    }
}

fn find_preference(
    prefs: &Vec<NotificationPreference>,
    pool: Option<&str>,
    t: NotificationType,
    c: Channel,
) -> (r: Option<bool>)
    ensures
        r == first_preference(
            prefs@,
            match pool {
                Some(s) => Some(s@),
                None => None,
            },
            t,
            c,
        ),
{
    let ghost scope = match pool {
        Some(s) => Some(s@),
        None => None,
    };
    let mut i: usize = 0;
    assert(prefs@.skip(0) =~= prefs@);
    while i < prefs.len()
        invariant
            i <= prefs.len(),
            scope == match pool {
                Some(s) => Some(s@),
                None => None,
            },
            first_preference(prefs@, scope, t, c) == first_preference(prefs@.skip(i as int), scope, t, c),
        decreases prefs.len() - i,
    {
        let p = &prefs[i];
        let scope_ok = match (pool, &p.pool_id) {
            (Some(id), Some(x)) => str_eq(x.as_str(), id),
            (None, None) => true,
            _ => false,
        };
        assert(prefs@.skip(i as int)[0] == prefs@[i as int]);
        if p.notification_type == t && p.channel == c && scope_ok {
            return Some(p.enabled);
        }
        assert(prefs@.skip(i as int).drop_first() =~= prefs@.skip(i + 1));
        i = i + 1;
    }
    None
}

pub fn resolve_enabled(
    prefs: &Vec<NotificationPreference>,
    pool_id: &str,
    notification_type: NotificationType,
    channel: Channel,
) -> (r: bool)
    ensures
        r == enabled_for(prefs@, pool_id@, notification_type, channel),
{
    proof {
        assert(prefs@.skip(0) =~= prefs@);
    }
    match find_preference(prefs, Some(pool_id), notification_type, channel) {
        Some(b) => b,
        None => match find_preference(prefs, None, notification_type, channel) {
            Some(b) => b,
            None => true,
        },
    }
}

pub open spec fn copy_title(t: NotificationType) -> Seq<char> {
    match t {
        NotificationType::NewMatch => "Nova partida marcada"@,
        NotificationType::MatchResult => "Resultado disponível"@,
        NotificationType::RankingUpdate => "Ranking atualizado"@,
        NotificationType::MemberJoined => "Novo participante"@,
        NotificationType::PredictionReminder => "Lembrete de palpite"@,
        NotificationType::Invite => "Convite para bolão"@,
    }
}

pub open spec fn copy_body(t: NotificationType) -> Seq<char> {
    match t {
        NotificationType::NewMatch => "Uma nova partida foi adicionada ao seu bolão."@,
        NotificationType::MatchResult => "Uma partida em que você palpitou já tem resultado final."@,
        NotificationType::RankingUpdate => "O ranking do seu bolão mudou."@,
        NotificationType::MemberJoined => "Um novo participante entrou no seu bolão."@,
        NotificationType::PredictionReminder => "Você ainda tem partidas esperando o seu palpite."@,
        NotificationType::Invite => "Você foi convidado para um bolão."@,
    }
}

/// Title and body of each type of notification.
pub fn copy_for(notification_type: NotificationType) -> (r: (&'static str, &'static str))
    ensures
        r.0@ == copy_title(notification_type),
        r.1@ == copy_body(notification_type),
{
    match notification_type {
        NotificationType::NewMatch => (
            "Nova partida marcada",
            "Uma nova partida foi adicionada ao seu bolão.",
        ),
        NotificationType::MatchResult => (
            "Resultado disponível",
            "Uma partida em que você palpitou já tem resultado final.",
        ),
        NotificationType::RankingUpdate => ("Ranking atualizado", "O ranking do seu bolão mudou."),
        NotificationType::MemberJoined => (
            "Novo participante",
            "Um novo participante entrou no seu bolão.",
        ),
        NotificationType::PredictionReminder => (
            "Lembrete de palpite",
            "Você ainda tem partidas esperando o seu palpite.",
        ),
        NotificationType::Invite => ("Convite para bolão", "Você foi convidado para um bolão."),
    }
}

/// The users among the first `n` recipients, each once, in order of first appearance.
pub open spec fn first_users(recipients: Seq<Recipient>, n: int) -> Seq<Seq<char>>
    decreases n,
{
    if n <= 0 {
        Seq::empty()
    } else {
        let rest = first_users(recipients, n - 1);
        let u = recipients[n - 1].user_id@;
        if rest.contains(u) {
            rest
        } else {
            rest.push(u)
        }
    }
}

/// Whether any of the first `n` recipients that is `user` wants the
/// notification on `c` (its preferences are at the same index in `prefs`).
pub open spec fn any_enabled(
    recipients: Seq<Recipient>,
    prefs: Seq<Vec<NotificationPreference>>,
    n: int,
    user: Seq<char>,
    t: NotificationType,
    c: Channel,
) -> bool
    decreases n,
{
    if n <= 0 {
        false
    } else {
        any_enabled(recipients, prefs, n - 1, user, t, c) || (recipients[n - 1].user_id@ == user
            && enabled_for(prefs[n - 1]@, recipients[n - 1].pool_id@, t, c))
    }
}

/// The users of `users` that want the notification on `c`, in order.
pub open spec fn users_wanting(
    users: Seq<Seq<char>>,
    recipients: Seq<Recipient>,
    prefs: Seq<Vec<NotificationPreference>>,
    t: NotificationType,
    c: Channel,
) -> Seq<Seq<char>>
    decreases users.len(),
{
    if users.len() == 0 {
        Seq::empty()
    } else {
        let rest = users_wanting(users.drop_last(), recipients, prefs, t, c);
        if any_enabled(recipients, prefs, recipients.len() as int, users.last(), t, c) {
            rest.push(users.last())
        } else {
            rest
        }
    }
}

proof fn lemma_enabled_means_listed(
    recipients: Seq<Recipient>,
    prefs: Seq<Vec<NotificationPreference>>,
    n: int,
    user: Seq<char>,
    t: NotificationType,
    c: Channel,
)
    requires
        0 <= n <= recipients.len(),
    ensures
        any_enabled(recipients, prefs, n, user, t, c) ==> first_users(recipients, n).contains(user),
    decreases n,
{
    if n > 0 {
        lemma_enabled_means_listed(recipients, prefs, n - 1, user, t, c);
        let rest = first_users(recipients, n - 1);
        let u = recipients[n - 1].user_id@;
        if !rest.contains(u) {
            assert(rest.push(u).last() == u);
            if rest.contains(user) {
                let k = choose|k: int| 0 <= k < rest.len() && rest[k] == user;
                assert(rest.push(u)[k] == user);
            }
        }
    }
}

/// The in-app notifications to create for one type.
pub open spec fn in_app_matches(
    r: NewNotificationRecord,
    user: Seq<char>,
    t: NotificationType,
    related: Option<Seq<char>>,
) -> bool {
    &&& r.user_id@ == user
    &&& r.pool_id is None
    &&& r.notification_type@ == notification_type_text(t)
    &&& r.title@ == copy_title(t)
    &&& r.body@ == copy_body(t)
    &&& match related {
        Some(m) => r.related_match_id matches Some(x) && x@ == m,
        None => r.related_match_id is None,
    }
}

pub open spec fn outbox_matches(
    r: NewOutboxRecord,
    user: Seq<char>,
    t: NotificationType,
    related: Option<Seq<char>>,
) -> bool {
    &&& r.user_id@ == user
    &&& r.pool_id is None
    &&& r.channel@ == channel_text(Channel::Push)
    &&& r.notification_type@ == notification_type_text(t)
    &&& r.title@ == copy_title(t)
    &&& r.body@ == copy_body(t)
    &&& match related {
        Some(m) => r.related_match_id matches Some(x) && x@ == m,
        None => r.related_match_id is None,
    }
}

fn opt_str_to_string(v: Option<&str>) -> (r: Option<String>)
    ensures
        match v {
            Some(s) => r matches Some(x) && x@ == s@,
            None => r is None,
        },
{
    match v {
        Some(s) => Some(String::from_str(s)),
        None => None,
    }
}

/// Fans one notification out to its recipients: each user once, in order of
/// first appearance; an in-app notification for those who want one in any of
/// the pools they were listed for, and a push message in the outbox likewise.
pub fn plan_dispatch(
    recipients: &Vec<Recipient>,
    prefs: &Vec<Vec<NotificationPreference>>,
    notification_type: NotificationType,
    related_match_id: Option<&str>,
) -> (r: (Vec<NewNotificationRecord>, Vec<NewOutboxRecord>))
    requires
        prefs.len() == recipients.len(),
    ensures
        ({
            let users = first_users(recipients@, recipients.len() as int);
            let in_app = users_wanting(users, recipients@, prefs@, notification_type, Channel::InApp);
            let push = users_wanting(users, recipients@, prefs@, notification_type, Channel::Push);
            let related = match related_match_id {
                Some(s) => Some(s@),
                None => None,
            };
            &&& r.0.len() == in_app.len()
            &&& forall|k: int|
                0 <= k < in_app.len() ==> in_app_matches(
                    #[trigger] r.0@[k],
                    in_app[k],
                    notification_type,
                    related,
                )
            &&& r.1.len() == push.len()
            &&& forall|k: int|
                0 <= k < push.len() ==> outbox_matches(
                    #[trigger] r.1@[k],
                    push[k],
                    notification_type,
                    related,
                )
        }),
{
    let (title, body) = copy_for(notification_type);
    let mut order: Vec<String> = Vec::new();
    let mut in_app: Vec<bool> = Vec::new();
    let mut push: Vec<bool> = Vec::new();
    let ghost rs = recipients@;
    let ghost ps = prefs@;
    let mut i: usize = 0;
    while i < recipients.len()
        invariant
            i <= recipients.len(),
            prefs.len() == recipients.len(),
            rs == recipients@,
            ps == prefs@,
            order@.map_values(|s: String| s@) == first_users(rs, i as int),
            in_app.len() == order.len(),
            push.len() == order.len(),
            forall|j: int, l: int| 0 <= j < l < order.len() ==> #[trigger] order@[j]@ != #[trigger] order@[l]@,
            forall|k: int|
                0 <= k < order.len() ==> #[trigger] in_app@[k] == any_enabled(
                    rs,
                    ps,
                    i as int,
                    order@[k]@,
                    notification_type,
                    Channel::InApp,
                ),
            forall|k: int|
                0 <= k < order.len() ==> #[trigger] push@[k] == any_enabled(
                    rs,
                    ps,
                    i as int,
                    order@[k]@,
                    notification_type,
                    Channel::Push,
                ),
        decreases recipients.len() - i,
    {
        let rec = &recipients[i];
        let e1 = resolve_enabled(&prefs[i], rec.pool_id.as_str(), notification_type, Channel::InApp);
        let e2 = resolve_enabled(&prefs[i], rec.pool_id.as_str(), notification_type, Channel::Push);
        let ghost old_order = order@;
        let ghost old_in = in_app@;
        let ghost old_push = push@;
        let ghost u = rec.user_id@;
        let mut k: usize = 0;
        while k < order.len() && !str_eq(order[k].as_str(), rec.user_id.as_str())
            invariant
                k <= order.len(),
                forall|j: int| 0 <= j < k ==> order@[j]@ != rec.user_id@,
            decreases order.len() - k,
        {
            k = k + 1;
        }
        if k < order.len() {
            let a = in_app[k] || e1;
            let b = push[k] || e2;
            in_app.set(k, a);
            push.set(k, b);
            proof {
                assert forall|j: int| 0 <= j < order.len() implies #[trigger] in_app@[j] == any_enabled(
                    rs,
                    ps,
                    i + 1,
                    order@[j]@,
                    notification_type,
                    Channel::InApp,
                ) by {
                    if j != k {
                        assert(order@[j]@ != u);
                    }
                }
                assert forall|j: int| 0 <= j < order.len() implies #[trigger] push@[j] == any_enabled(
                    rs,
                    ps,
                    i + 1,
                    order@[j]@,
                    notification_type,
                    Channel::Push,
                ) by {
                    if j != k {
                        assert(order@[j]@ != u);
                    }
                }
                assert(old_order.map_values(|s: String| s@)[k as int] == u);
                assert(first_users(rs, i as int).contains(u));
            }
        } else {
            order.push(rec.user_id.clone());
            in_app.push(e1);
            push.push(e2);
            proof {
                assert(!first_users(rs, i as int).contains(u)) by {
                    if first_users(rs, i as int).contains(u) {
                        let j = choose|j: int|
                            0 <= j < first_users(rs, i as int).len() && first_users(
                                rs,
                                i as int,
                            )[j] == u;
                        assert(old_order.map_values(|s: String| s@)[j] == old_order[j]@);
                    }
                }
                lemma_enabled_means_listed(rs, ps, i as int, u, notification_type, Channel::InApp);
                lemma_enabled_means_listed(rs, ps, i as int, u, notification_type, Channel::Push);
                assert forall|j: int| 0 <= j < old_order.len() implies old_order[j]@ != u by {
                    assert(old_order.map_values(|s: String| s@)[j] == old_order[j]@);
                }
                assert forall|j: int| 0 <= j < order.len() implies #[trigger] in_app@[j] == any_enabled(
                    rs,
                    ps,
                    i + 1,
                    order@[j]@,
                    notification_type,
                    Channel::InApp,
                ) by {
                    if j < old_order.len() {
                        assert(order@[j] == old_order[j]);
                    }
                }
                assert forall|j: int| 0 <= j < order.len() implies #[trigger] push@[j] == any_enabled(
                    rs,
                    ps,
                    i + 1,
                    order@[j]@,
                    notification_type,
                    Channel::Push,
                ) by {
                    if j < old_order.len() {
                        assert(order@[j] == old_order[j]);
                    }
                }
                assert(order@.map_values(|s: String| s@) =~= old_order.map_values(|s: String| s@).push(
                    u,
                ));
            }
        }
        i = i + 1;
    }
    let ghost users = first_users(rs, recipients.len() as int);
    let mut records: Vec<NewNotificationRecord> = Vec::new();
    let mut outbox: Vec<NewOutboxRecord> = Vec::new();
    let mut k: usize = 0;
    while k < order.len()
        invariant
            k <= order.len(),
            rs == recipients@,
            ps == prefs@,
            users == first_users(rs, rs.len() as int),
            order@.map_values(|s: String| s@) == users,
            in_app.len() == order.len(),
            push.len() == order.len(),
            title@ == copy_title(notification_type),
            body@ == copy_body(notification_type),
            forall|j: int|
                0 <= j < order.len() ==> #[trigger] in_app@[j] == any_enabled(
                    rs,
                    ps,
                    rs.len() as int,
                    order@[j]@,
                    notification_type,
                    Channel::InApp,
                ),
            forall|j: int|
                0 <= j < order.len() ==> #[trigger] push@[j] == any_enabled(
                    rs,
                    ps,
                    rs.len() as int,
                    order@[j]@,
                    notification_type,
                    Channel::Push,
                ),
            records.len() == users_wanting(
                users.take(k as int),
                rs,
                ps,
                notification_type,
                Channel::InApp,
            ).len(),
            forall|j: int|
                0 <= j < records.len() ==> in_app_matches(
                    #[trigger] records@[j],
                    users_wanting(users.take(k as int), rs, ps, notification_type, Channel::InApp)[j],
                    notification_type,
                    match related_match_id {
                        Some(s) => Some(s@),
                        None => None,
                    },
                ),
            outbox.len() == users_wanting(
                users.take(k as int),
                rs,
                ps,
                notification_type,
                Channel::Push,
            ).len(),
            forall|j: int|
                0 <= j < outbox.len() ==> outbox_matches(
                    #[trigger] outbox@[j],
                    users_wanting(users.take(k as int), rs, ps, notification_type, Channel::Push)[j],
                    notification_type,
                    match related_match_id {
                        Some(s) => Some(s@),
                        None => None,
                    },
                ),
        decreases order.len() - k,
    {
        let user_id = &order[k];
        proof {
            assert(users.take(k + 1).drop_last() =~= users.take(k as int));
            assert(users[k as int] == order@[k as int]@);
        }
        if in_app[k] {
            records.push(
                NewNotificationRecord {
                    id: new_id(),
                    user_id: user_id.clone(),
                    pool_id: None,
                    notification_type: String::from_str(notification_type.as_str()),
                    title: String::from_str(title),
                    body: String::from_str(body),
                    related_match_id: opt_str_to_string(related_match_id),
                },
            );
        }
        if push[k] {
            outbox.push(
                NewOutboxRecord {
                    id: new_id(),
                    channel: String::from_str(Channel::Push.as_str()),
                    notification_type: String::from_str(notification_type.as_str()),
                    user_id: user_id.clone(),
                    title: String::from_str(title),
                    body: String::from_str(body),
                    related_match_id: opt_str_to_string(related_match_id),
                    pool_id: None,
                },
            );
        }
        k = k + 1;
    }
    assert(users.take(order.len() as int) =~= users);
    (records, outbox)
}

/// A pool-specific preference always wins over a global one, and a user
/// without any preference for a type and channel gets the notification.
pub proof fn law_preference_resolution(
    prefs: Seq<NotificationPreference>,
    pool_id: Seq<char>,
    t: NotificationType,
    c: Channel,
)
    ensures
        first_preference(prefs, Some(pool_id), t, c) matches Some(b) ==> enabled_for(
            prefs,
            pool_id,
            t,
            c,
        ) == b,
        first_preference(prefs, Some(pool_id), t, c) is None && first_preference(
            prefs,
            None,
            t,
            c,
        ) is None ==> enabled_for(prefs, pool_id, t, c),
{
}

/// Every user appears at most once in a fan-out.
pub proof fn law_each_user_once(recipients: Seq<Recipient>, n: int)
    requires
        0 <= n <= recipients.len(),
    ensures
        forall|j: int, l: int|
            0 <= j < l < first_users(recipients, n).len() ==> #[trigger] first_users(recipients, n)[j]
                != #[trigger] first_users(recipients, n)[l],
    decreases n,
{
    if n > 0 {
        law_each_user_once(recipients, n - 1);
        let rest = first_users(recipients, n - 1);
        let u = recipients[n - 1].user_id@;
        if !rest.contains(u) {
            let all = rest.push(u);
            assert forall|j: int, l: int| 0 <= j < l < all.len() implies #[trigger] all[j]
                != #[trigger] all[l] by {
                if l == all.len() - 1 {
                    assert(all[j] == rest[j]);
                }
            }
        }
    }
}

/// One item of a preferences update, checked.
pub open spec fn preference_item_ok(item: PreferenceInput) -> bool {
    &&& notification_type_from_text(item.notification_type@) matches Some(t)
    &&& t != NotificationType::Invite
    &&& channel_from_text(item.channel@) is Some
}

pub open spec fn preference_record_matches(
    r: NewPreferenceRecord,
    item: PreferenceInput,
    user_id: Seq<char>,
    pool_id: Option<Seq<char>>,
) -> bool {
    &&& r.user_id@ == user_id
    &&& match pool_id {
        Some(p) => r.pool_id matches Some(x) && x@ == p,
        None => r.pool_id is None,
    }
    &&& r.notification_type@ == item.notification_type@
    &&& r.channel@ == item.channel@
    &&& r.enabled == item.enabled
}

/// The error that refuses one item of a preferences update, if it is not
/// acceptable: an unknown type, the invitation type, or an unknown channel.
pub open spec fn preference_item_error(e: AppError, item: PreferenceInput) -> bool {
    match notification_type_from_text(item.notification_type@) {
        None => is_validation(e, "invalid notification type"@),
        Some(t) => if t == NotificationType::Invite {
            is_coded(
                e,
                CodedKind::Validation,
                "notification_type_not_preferenceable"@,
                "this notification type has no configurable preference"@,
            )
        } else {
            is_validation(e, "invalid notification channel"@)
        },
    }
}

/// Records for a preferences update, for one pool (`pool_id` set) or global.
/// The first item that names an unknown type, a type without preferences or
/// an unknown channel refuses the whole update.
pub fn preference_records(
    user_id: &str,
    pool_id: Option<&str>,
    command: &UpdatePreferences,
) -> (r: Result<Vec<NewPreferenceRecord>, AppError>)
    ensures
        r is Ok <==> forall|k: int|
            0 <= k < command.items.len() ==> preference_item_ok(#[trigger] command.items@[k]),
        r matches Ok(v) ==> v.len() == command.items.len() && forall|k: int|
            0 <= k < v.len() ==> preference_record_matches(
                #[trigger] v@[k],
                command.items@[k],
                user_id@,
                match pool_id {
                    Some(s) => Some(s@),
                    None => None,
                },
            ),
        r matches Err(e) ==> exists|k: int|
            0 <= k < command.items.len() && !preference_item_ok(#[trigger] command.items@[k])
                && (forall|j: int| 0 <= j < k ==> preference_item_ok(command.items@[j]))
                && preference_item_error(e, command.items@[k]),
{
    let items = &command.items;
    let mut records: Vec<NewPreferenceRecord> = Vec::new();
    let mut i: usize = 0;
    while i < items.len()
        invariant
            i <= items.len(),
            items@ == command.items@,
            forall|k: int| 0 <= k < i ==> preference_item_ok(#[trigger] items@[k]),
            records.len() == i,
            forall|k: int|
                0 <= k < i ==> preference_record_matches(
                    #[trigger] records@[k],
                    items@[k],
                    user_id@,
                    match pool_id {
                        Some(s) => Some(s@),
                        None => None,
                    },
                ),
        decreases items.len() - i,
    {
        let item = &items[i];
        let t = match NotificationType::parse(item.notification_type.as_str()) {
            Ok(t) => t,
            Err(e) => {
                assert(!preference_item_ok(command.items@[i as int]));
                return Err(e);
            },
        };
        if !t.is_preferenceable() {
            assert(!preference_item_ok(command.items@[i as int]));
            return Err(
                AppError::validation_code(
                    "notification_type_not_preferenceable",
                    "this notification type has no configurable preference",
                ),
            );
        }
        let c = match Channel::parse(item.channel.as_str()) {
            Ok(c) => c,
            Err(e) => {
                assert(!preference_item_ok(command.items@[i as int]));
                return Err(e);
            },
        };
        proof {
            crate::domain::kinds::lemma_notification_type_round_trip(t);
            crate::domain::kinds::lemma_channel_round_trip(c);
            assert(item.notification_type@ == notification_type_text(t)) by {
                assert(notification_type_from_text(item.notification_type@) == Some(t));
            }
        }
        records.push(
            NewPreferenceRecord {
                id: new_id(),
                user_id: String::from_str(user_id),
                pool_id: opt_str_to_string(pool_id),
                notification_type: String::from_str(t.as_str()),
                channel: String::from_str(c.as_str()),
                enabled: item.enabled,
            },
        );
        i = i + 1;
    }
    Ok(records)
}

/// A notification looked up by id must belong to the caller.
pub fn owned_notification(found: Option<Notification>, user_id: &str) -> (r: Result<Notification, AppError>)
    ensures
        (found matches Some(n) && n.user_id@ == user_id@) ==> r == Ok::<Notification, AppError>(
            found->0,
        ),
        !(found matches Some(n) && n.user_id@ == user_id@) ==> (r matches Err(e) && is_not_found(
            e,
            "notification was not found"@,
        )),
{
    match found {
        Some(n) => {
            if str_eq(n.user_id.as_str(), user_id) {
                return Ok(n);
            }
            Err(AppError::not_found("notification was not found"))
        },
        None => Err(AppError::not_found("notification was not found")),
    }
}

/// Members that receive a pool notification: the active ones.
pub open spec fn active_recipient_users(members: Seq<PoolMember>) -> Seq<Seq<char>>
    decreases members.len(),
{
    if members.len() == 0 {
        Seq::empty()
    } else {
        let rest = active_recipient_users(members.drop_last());
        if members.last().status == MemberStatus::Active {
            rest.push(members.last().user_id@)
        } else {
            rest
        }
    }
}

/// Members told that someone joined: the active owners and admins, but not
/// the one who joined.
pub open spec fn join_watchers(members: Seq<PoolMember>, joined: Seq<char>) -> Seq<Seq<char>>
    decreases members.len(),
{
    if members.len() == 0 {
        Seq::empty()
    } else {
        let rest = join_watchers(members.drop_last(), joined);
        let m = members.last();
        if m.status == MemberStatus::Active && role_manages_members(m.role) && m.user_id@ != joined {
            rest.push(m.user_id@)
        } else {
            rest
        }
    }
}

/// Everyone who can manage the pool hears that someone joined: every active
/// owner or admin other than the one who joined is told, and nobody else is.
pub proof fn law_managers_hear_of_joins(members: Seq<PoolMember>, joined: Seq<char>)
    ensures
        forall|k: int|
            0 <= k < members.len() && (#[trigger] members[k]).status == MemberStatus::Active && (
            members[k].role == PoolRole::Owner || members[k].role == PoolRole::Admin)
                && members[k].user_id@ != joined ==> join_watchers(members, joined).contains(
                members[k].user_id@,
            ),
        forall|x: Seq<char>|
            join_watchers(members, joined).contains(x) ==> exists|k: int|
                0 <= k < members.len() && (#[trigger] members[k]).user_id@ == x && members[k].status
                    == MemberStatus::Active && (members[k].role == PoolRole::Owner || members[k].role
                    == PoolRole::Admin) && x != joined,
    decreases members.len(),
{
    if members.len() > 0 {
        let init = members.drop_last();
        let n = members.len() - 1;
        let m = members.last();
        assert(members[n] == m);
        law_managers_hear_of_joins(init, joined);
        let a = join_watchers(init, joined);
        let takes = m.status == MemberStatus::Active && (m.role == PoolRole::Owner || m.role
            == PoolRole::Admin) && m.user_id@ != joined;
        assert(role_manages_members(m.role) <==> (m.role == PoolRole::Owner || m.role == PoolRole::Admin));
        assert forall|k: int|
            0 <= k < members.len() && (#[trigger] members[k]).status == MemberStatus::Active && (
            members[k].role == PoolRole::Owner || members[k].role == PoolRole::Admin)
                && members[k].user_id@ != joined implies join_watchers(members, joined).contains(
                members[k].user_id@,
            ) by {
            if k < n {
                assert(members[k] == init[k]);
                assert(a.contains(init[k].user_id@));
                let q = choose|q: int| 0 <= q < a.len() && a[q] == init[k].user_id@;
                if takes {
                    assert(a.push(m.user_id@)[q] == init[k].user_id@);
                }
            } else {
                assert(a.push(m.user_id@)[a.len() as int] == m.user_id@);
            }
        }
        assert forall|x: Seq<char>| join_watchers(members, joined).contains(x) implies exists|k: int|
            0 <= k < members.len() && (#[trigger] members[k]).user_id@ == x && members[k].status
                == MemberStatus::Active && (members[k].role == PoolRole::Owner || members[k].role
                == PoolRole::Admin) && x != joined by {
            if a.contains(x) {
                let k = choose|k: int|
                    0 <= k < init.len() && (#[trigger] init[k]).user_id@ == x && init[k].status
                        == MemberStatus::Active && (init[k].role == PoolRole::Owner || init[k].role
                        == PoolRole::Admin) && x != joined;
                assert(members[k] == init[k]);
            } else if takes {
                let q = choose|q: int| 0 <= q < a.push(m.user_id@).len() && a.push(m.user_id@)[q] == x;
                if q < a.len() {
                    assert(a.contains(x));
                }
            }
        }
    }
}

pub open spec fn recipients_are(r: Seq<Recipient>, users: Seq<Seq<char>>, pool_id: Seq<char>) -> bool {
    &&& r.len() == users.len()
    &&& forall|k: int|
        0 <= k < r.len() ==> (#[trigger] r[k]).user_id@ == users[k] && r[k].pool_id@ == pool_id
}

pub fn active_recipients(pool_id: &str, members: &Vec<PoolMember>) -> (r: Vec<Recipient>)
    ensures
        recipients_are(r@, active_recipient_users(members@), pool_id@),
{
    let mut r: Vec<Recipient> = Vec::new();
    let mut i: usize = 0;
    while i < members.len()
        invariant
            i <= members.len(),
            recipients_are(r@, active_recipient_users(members@.take(i as int)), pool_id@),
        decreases members.len() - i,
    {
        assert(members@.take(i + 1).drop_last() =~= members@.take(i as int));
        let m = &members[i];
        if m.status == MemberStatus::Active {
            r.push(Recipient { user_id: m.user_id.clone(), pool_id: String::from_str(pool_id) });
        }
        i = i + 1;
    }
    assert(members@.take(members.len() as int) =~= members@);
    r
}

pub fn member_joined_recipients(pool_id: &str, members: &Vec<PoolMember>, joined_user_id: &str) -> (r: Vec<Recipient>)
    ensures
        recipients_are(r@, join_watchers(members@, joined_user_id@), pool_id@),
{
    let mut r: Vec<Recipient> = Vec::new();
    let mut i: usize = 0;
    while i < members.len()
        invariant
            i <= members.len(),
            recipients_are(r@, join_watchers(members@.take(i as int), joined_user_id@), pool_id@),
        decreases members.len() - i,
    {
        assert(members@.take(i + 1).drop_last() =~= members@.take(i as int));
        let m = &members[i];
        if m.status == MemberStatus::Active && m.role.can_manage_members() && !str_eq(
            m.user_id.as_str(),
            joined_user_id,
        ) {
            r.push(Recipient { user_id: m.user_id.clone(), pool_id: String::from_str(pool_id) });
        }
        i = i + 1;
    }
    assert(members@.take(members.len() as int) =~= members@);
    r
}

} // verus!
