use vstd::prelude::*;

use crate::domain::entities::{Notification, NotificationPreference};
use crate::domain::kinds::{channel_text, notification_type_text};
use crate::error::{is_coded, AppError, CodedKind};
use crate::notifications::{NewDeviceToken, PreferenceInput, UpdatePreferences};
use crate::text::{clone_opt, trim, trimmed};

verus! {

#[derive(Debug, Clone)]
pub struct NotificationFilterQuery {
    pub unread: Option<bool>,
}
#[derive(Debug, Clone)]
pub struct NotificationResponse {
    pub id: String,
    pub pool_id: Option<String>,
    pub notification_type: String,
    pub title: String,
    pub body: String,
    pub related_match_id: Option<String>,
    pub read_at: Option<String>,
    pub created_at: String,
}
/// The fields of a `NotificationResponse` taken from a `Notification`.
pub open spec fn notificationresponse_of(r: NotificationResponse, value: Notification) -> bool {
    &&& r.id == value.id
    &&& r.pool_id == value.pool_id
    &&& r.notification_type@ == notification_type_text(value.notification_type)
    &&& r.title == value.title
    &&& r.body == value.body
    &&& r.related_match_id == value.related_match_id
    &&& r.read_at == value.read_at
    &&& r.created_at == value.created_at
}

impl NotificationResponse {
    pub fn from_notification(value: &Notification) -> (r: Self)
        ensures
            notificationresponse_of(r, *value),
    {
        NotificationResponse {
            id: value.id.clone(),
            pool_id: clone_opt(&value.pool_id),
            notification_type: String::from_str(value.notification_type.as_str()),
            title: value.title.clone(),
            body: value.body.clone(),
            related_match_id: clone_opt(&value.related_match_id),
            read_at: clone_opt(&value.read_at),
            created_at: value.created_at.clone(),
        }
    }
}
#[derive(Debug, Clone)]
pub struct NotificationsListResponse {
    pub notifications: Vec<NotificationResponse>,
}
#[derive(Debug, Clone)]
pub struct NotificationPreferenceResponse {
    pub id: String,
    pub pool_id: Option<String>,
    pub notification_type: String,
    pub channel: String,
    pub enabled: bool,
}
/// The fields of a `NotificationPreferenceResponse` taken from a `NotificationPreference`.
pub open spec fn notificationpreferenceresponse_of(r: NotificationPreferenceResponse, value: NotificationPreference) -> bool {
    &&& r.id == value.id
    &&& r.pool_id == value.pool_id
    &&& r.notification_type@ == notification_type_text(value.notification_type)
    &&& r.channel@ == channel_text(value.channel)
    &&& r.enabled == value.enabled
}

impl NotificationPreferenceResponse {
    pub fn from_preference(value: &NotificationPreference) -> (r: Self)
        ensures
            notificationpreferenceresponse_of(r, *value),
    {
        NotificationPreferenceResponse {
            id: value.id.clone(),
            pool_id: clone_opt(&value.pool_id),
            notification_type: String::from_str(value.notification_type.as_str()),
            channel: String::from_str(value.channel.as_str()),
            enabled: value.enabled,
        }
    }
}
#[derive(Debug, Clone)]
pub struct NotificationPreferencesListResponse {
    pub preferences: Vec<NotificationPreferenceResponse>,
}
#[derive(Debug, Clone)]
pub struct PreferenceItemRequest {
    pub notification_type: String,
    pub channel: String,
    pub enabled: bool,
}
#[derive(Debug, Clone)]
pub struct UpdatePreferencesRequest {
    pub preferences: Vec<PreferenceItemRequest>,
}
/// An item of the update, as the use case takes it.
pub open spec fn preference_input_of(r: PreferenceInput, item: PreferenceItemRequest) -> bool {
    &&& r.notification_type == item.notification_type
    &&& r.channel == item.channel
    &&& r.enabled == item.enabled
}

impl UpdatePreferencesRequest {
    /// The update as the use case takes it: one input per requested item, in order.
    pub fn into_command(&self) -> (r: UpdatePreferences)
        ensures
            r.items.len() == self.preferences.len(),
            forall|k: int|
                0 <= k < r.items.len() ==> preference_input_of(
                    #[trigger] r.items@[k],
                    self.preferences@[k],
                ),
    {
        let mut items: Vec<PreferenceInput> = Vec::new();
        let mut i: usize = 0;
        while i < self.preferences.len()
            invariant
                i <= self.preferences.len(),
                items.len() == i,
                forall|k: int|
                    0 <= k < i ==> preference_input_of(#[trigger] items@[k], self.preferences@[k]),
            decreases self.preferences.len() - i,
        {
            let item = &self.preferences[i];
            items.push(
                PreferenceInput {
                    notification_type: item.notification_type.clone(),
                    channel: item.channel.clone(),
                    enabled: item.enabled,
                },
            );
            i = i + 1;
        }
        UpdatePreferences { items }
    }
}

#[derive(Debug, Clone)]
pub struct RegisterDeviceRequest {
    pub token: String,
    pub platform: Option<String>,
}
/// The platform a device registers under: the given one, trimmed, or `web`
/// where none or only blanks were given.
pub open spec fn device_platform(platform: Option<String>) -> Seq<char> {
    match platform {
        Some(p) => if trimmed(p@).len() > 0 {
            trimmed(p@)
        } else {
            "web"@
        },
        None => "web"@,
    }
}

/// The record that registers a device for `user_id` under the identifier `id`.
/// A token that is empty once trimmed is refused.
pub fn device_token_record(
    id: String,
    user_id: &str,
    request: &RegisterDeviceRequest,
) -> (r: Result<NewDeviceToken, AppError>)
    ensures
        r is Err <==> trimmed(request.token@).len() == 0,
        r matches Err(e) ==> is_coded(
            e,
            CodedKind::Validation,
            "device_token_required"@,
            "a device token is required"@,
        ),
        r matches Ok(t) ==> {
            &&& t.id == id
            &&& t.user_id@ == user_id@
            &&& t.token@ == trimmed(request.token@)
            &&& t.platform@ == device_platform(request.platform)
        },
{
    proof {
        reveal_strlit("web");
    }
    let token = trim(request.token.as_str());
    if token.unicode_len() == 0 {
        return Err(AppError::validation_code("device_token_required", "a device token is required"));
    }
    let platform = match &request.platform {
        Some(p) => {
            let t = trim(p.as_str());
            if t.unicode_len() > 0 {
                t
            } else {
                String::from_str("web")
            }
        },
        None => String::from_str("web"),
    };
    Ok(NewDeviceToken { id, user_id: String::from_str(user_id), token, platform })
}


} // verus!
