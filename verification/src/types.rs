//! The closed set of recognized gateway event kinds, the
//! case-insensitive mapping from an event-name string to a kind, and the
//! wire payload schema: the record shapes the remote service's events and
//! HTTP calls are made of.  The records are plain data; the codec carries
//! event payloads opaquely and callers that want a typed view decode into
//! these shapes.

use std::collections::HashMap;

use vstd::prelude::*;

use crate::ascii::{seq_icase_eq, str_icase_eq};

verus! {

/// One kind of named gateway event.  Every dispatch event carried by the
/// wire names exactly one of these; anything else is unknown.
#[derive(Clone, Copy, Debug, PartialEq, Eq, Structural)]
pub enum GatewayEventType {
    Ready,
    Resumed,
    ApplicationCommandPermissionsUpdate,
    AutoModerationRuleCreate,
    AutoModerationRuleUpdate,
    AutoModerationRuleDelete,
    AutoModerationActionExecution,
    ChannelCreate,
    ChannelUpdate,
    ChannelDelete,
    ChannelPinsUpdate,
    ThreadCreate,
    ThreadUpdate,
    ThreadDelete,
    ThreadListSync,
    ThreadMemberUpdate,
    ThreadMembersUpdate,
    EntitlementCreate,
    EntitlementUpdate,
    EntitlementDelete,
    GuildCreate,
    GuildUpdate,
    GuildDelete,
    GuildAuditLogEntryCreate,
    GuildBanAdd,
    GuildBanRemove,
    GuildEmojisUpdate,
    GuildStickersUpdate,
    GuildIntegrationsUpdate,
    GuildMemberAdd,
    GuildMemberRemove,
    GuildMemberUpdate,
    GuildMembersChunk,
    GuildRoleCreate,
    GuildRoleUpdate,
    GuildRoleDelete,
    GuildScheduledEventCreate,
    GuildScheduledEventUpdate,
    GuildScheduledEventDelete,
    GuildScheduledEventUserAdd,
    GuildScheduledEventUserRemove,
    IntegrationCreate,
    IntegrationUpdate,
    IntegrationDelete,
    InteractionCreate,
    InviteCreate,
    InviteDelete,
    MessageCreate,
    MessageUpdate,
    MessageDelete,
    MessageDeleteBulk,
    MessageReactionAdd,
    MessageReactionRemove,
    MessageReactionRemoveAll,
    MessageReactionRemoveEmoji,
    PresenceUpdate,
    StageInstanceCreate,
    StageInstanceUpdate,
    StageInstanceDelete,
    TypingStart,
    UserUpdate,
    VoiceStateUpdate,
    VoiceServerUpdate,
    WebhooksUpdate,
}

/// Handshake opener payload: the negotiated heartbeat interval in
/// milliseconds.
#[derive(Clone, Copy, Debug, PartialEq, Eq, Structural)]
pub struct Hello {
    pub heartbeat_interval: u64,
}

/// The kind an event-name string selects, compared without regard to ASCII
/// case.  `None` means the name is not one of the recognized kinds.
pub open spec fn spec_kind_for(s: Seq<char>) -> Option<GatewayEventType> {
    if seq_icase_eq(s, "READY"@) {
        Some(GatewayEventType::Ready)
    } else if seq_icase_eq(s, "APPLICATION_COMMAND_PERMISSIONS_UPDATE"@) {
        Some(GatewayEventType::ApplicationCommandPermissionsUpdate)
    } else if seq_icase_eq(s, "AUTOMODERATION_RULE_CREATE"@) {
        Some(GatewayEventType::AutoModerationRuleCreate)
    } else if seq_icase_eq(s, "AUTOMODERATION_RULE_UPDATE"@) {
        Some(GatewayEventType::AutoModerationRuleUpdate)
    } else if seq_icase_eq(s, "AUTOMODERATION_RULE_DELETE"@) {
        Some(GatewayEventType::AutoModerationRuleDelete)
    } else if seq_icase_eq(s, "AUTOMODERATION_ACTION_EXECUTION"@) {
        Some(GatewayEventType::AutoModerationActionExecution)
    } else if seq_icase_eq(s, "CHANNEL_CREATE"@) {
        Some(GatewayEventType::ChannelCreate)
    } else if seq_icase_eq(s, "CHANNEL_UPDATE"@) {
        Some(GatewayEventType::ChannelUpdate)
    } else if seq_icase_eq(s, "CHANNEL_DELETE"@) {
        Some(GatewayEventType::ChannelDelete)
    } else if seq_icase_eq(s, "CHANNEL_PINS_UPDATE"@) {
        Some(GatewayEventType::ChannelPinsUpdate)
    } else if seq_icase_eq(s, "THREAD_CREATE"@) {
        Some(GatewayEventType::ThreadCreate)
    } else if seq_icase_eq(s, "THREAD_UPDATE"@) {
        Some(GatewayEventType::ThreadUpdate)
    } else if seq_icase_eq(s, "THREAD_DELETE"@) {
        Some(GatewayEventType::ThreadDelete)
    } else if seq_icase_eq(s, "THREAD_LIST_SYNC"@) {
        Some(GatewayEventType::ThreadListSync)
    } else if seq_icase_eq(s, "THREAD_MEMBER_UPDATE"@) {
        Some(GatewayEventType::ThreadMemberUpdate)
    } else if seq_icase_eq(s, "THREAD_MEMBERS_UPDATE"@) {
        Some(GatewayEventType::ThreadMembersUpdate)
    } else if seq_icase_eq(s, "ENTITLEMENT_CREATE"@) {
        Some(GatewayEventType::EntitlementCreate)
    } else if seq_icase_eq(s, "ENTITLEMENT_UPDATE"@) {
        Some(GatewayEventType::EntitlementUpdate)
    } else if seq_icase_eq(s, "ENTITLEMENT_DELETE"@) {
        Some(GatewayEventType::EntitlementDelete)
    } else if seq_icase_eq(s, "GUILD_CREATE"@) {
        Some(GatewayEventType::GuildCreate)
    } else if seq_icase_eq(s, "GUILD_UPDATE"@) {
        Some(GatewayEventType::GuildUpdate)
    } else if seq_icase_eq(s, "GUILD_DELETE"@) {
        Some(GatewayEventType::GuildDelete)
    } else if seq_icase_eq(s, "GUILD_AUDIT_LOG_ENTRY_CREATE"@) {
        Some(GatewayEventType::GuildAuditLogEntryCreate)
    } else if seq_icase_eq(s, "GUILD_BAN_ADD"@) {
        Some(GatewayEventType::GuildBanAdd)
    } else if seq_icase_eq(s, "GUILD_BAN_REMOVE"@) {
        Some(GatewayEventType::GuildBanRemove)
    } else if seq_icase_eq(s, "GUILD_EMOJIS_UPDATE"@) {
        Some(GatewayEventType::GuildEmojisUpdate)
    } else if seq_icase_eq(s, "GUILD_STICKERS_UPDATE"@) {
        Some(GatewayEventType::GuildStickersUpdate)
    } else if seq_icase_eq(s, "GUILD_INTEGRATIONS_UPDATE"@) {
        Some(GatewayEventType::GuildIntegrationsUpdate)
    } else if seq_icase_eq(s, "GUILD_MEMBER_ADD"@) {
        Some(GatewayEventType::GuildMemberAdd)
    } else if seq_icase_eq(s, "GUILD_MEMBER_REMOVE"@) {
        Some(GatewayEventType::GuildMemberRemove)
    } else if seq_icase_eq(s, "GUILD_MEMBER_UPDATE"@) {
        Some(GatewayEventType::GuildMemberUpdate)
    } else if seq_icase_eq(s, "GUILD_MEMBERS_CHUNK"@) {
        Some(GatewayEventType::GuildMembersChunk)
    } else if seq_icase_eq(s, "GUILD_ROLE_CREATE"@) {
        Some(GatewayEventType::GuildRoleCreate)
    } else if seq_icase_eq(s, "GUILD_ROLE_UPDATE"@) {
        Some(GatewayEventType::GuildRoleUpdate)
    } else if seq_icase_eq(s, "GUILD_ROLE_DELETE"@) {
        Some(GatewayEventType::GuildRoleDelete)
    } else if seq_icase_eq(s, "GUILD_SCHEDULED_EVENT_CREATE"@) {
        Some(GatewayEventType::GuildScheduledEventCreate)
    } else if seq_icase_eq(s, "GUILD_SCHEDULED_EVENT_UPDATE"@) {
        Some(GatewayEventType::GuildScheduledEventUpdate)
    } else if seq_icase_eq(s, "GUILD_SCHEDULED_EVENT_DELETE"@) {
        Some(GatewayEventType::GuildScheduledEventDelete)
    } else if seq_icase_eq(s, "GUILD_SCHEDULED_EVENT_USER_ADD"@) {
        Some(GatewayEventType::GuildScheduledEventUserAdd)
    } else if seq_icase_eq(s, "GUILD_SCHEDULED_EVENT_USER_REMOVE"@) {
        Some(GatewayEventType::GuildScheduledEventUserRemove)
    } else if seq_icase_eq(s, "INTEGRATION_CREATE"@) {
        Some(GatewayEventType::IntegrationCreate)
    } else if seq_icase_eq(s, "INTEGRATION_UPDATE"@) {
        Some(GatewayEventType::IntegrationUpdate)
    } else if seq_icase_eq(s, "INTEGRATION_DELETE"@) {
        Some(GatewayEventType::IntegrationDelete)
    } else if seq_icase_eq(s, "INTERACTION_CREATE"@) {
        Some(GatewayEventType::InteractionCreate)
    } else if seq_icase_eq(s, "INVITE_CREATE"@) {
        Some(GatewayEventType::InviteCreate)
    } else if seq_icase_eq(s, "INVITE_DELETE"@) {
        Some(GatewayEventType::InviteDelete)
    } else if seq_icase_eq(s, "MESSAGE_CREATE"@) {
        Some(GatewayEventType::MessageCreate)
    } else if seq_icase_eq(s, "MESSAGE_UPDATE"@) {
        Some(GatewayEventType::MessageUpdate)
    } else if seq_icase_eq(s, "MESSAGE_DELETE"@) {
        Some(GatewayEventType::MessageDelete)
    } else if seq_icase_eq(s, "MESSAGE_DELETE_BULK"@) {
        Some(GatewayEventType::MessageDeleteBulk)
    } else if seq_icase_eq(s, "MESSAGE_REACTION_ADD"@) {
        Some(GatewayEventType::MessageReactionAdd)
    } else if seq_icase_eq(s, "MESSAGE_REACTION_REMOVE"@) {
        Some(GatewayEventType::MessageReactionRemove)
    } else if seq_icase_eq(s, "MESSAGE_REACTION_REMOVE_ALL"@) {
        Some(GatewayEventType::MessageReactionRemoveAll)
    } else if seq_icase_eq(s, "MESSAGE_REACTION_REMOVE_EMOJI"@) {
        Some(GatewayEventType::MessageReactionRemoveEmoji)
    } else if seq_icase_eq(s, "PRESENCE_UPDATE"@) {
        Some(GatewayEventType::PresenceUpdate)
    } else if seq_icase_eq(s, "STAGE_INSTANCE_CREATE"@) {
        Some(GatewayEventType::StageInstanceCreate)
    } else if seq_icase_eq(s, "STAGE_INSTANCE_UPDATE"@) {
        Some(GatewayEventType::StageInstanceUpdate)
    } else if seq_icase_eq(s, "STAGE_INSTANCE_DELETE"@) {
        Some(GatewayEventType::StageInstanceDelete)
    } else if seq_icase_eq(s, "TYPING_START"@) {
        Some(GatewayEventType::TypingStart)
    } else if seq_icase_eq(s, "USER_UPDATE"@) {
        Some(GatewayEventType::UserUpdate)
    } else if seq_icase_eq(s, "VOICE_STATE_UPDATE"@) {
        Some(GatewayEventType::VoiceStateUpdate)
    } else if seq_icase_eq(s, "VOICE_SERVER_UPDATE"@) {
        Some(GatewayEventType::VoiceServerUpdate)
    } else if seq_icase_eq(s, "WEBHOOKS_UPDATE"@) {
        Some(GatewayEventType::WebhooksUpdate)
    } else {
        None
    }
}

impl GatewayEventType {
    /// Maps an event-name string to its kind, ignoring ASCII case.
    /// Unrecognized names map to `None`.  Folding is deliberately
    /// ASCII-only: every recognized name is ASCII, so any spelling of one
    /// in ASCII letters matches, while a name written with non-ASCII
    /// letterforms is not recognized.
    pub fn from_str(s: &str) -> (r: Option<Self>)
        ensures
            r == spec_kind_for(s@),
    {
        if str_icase_eq(s, "READY") {
            Some(Self::Ready)
        } else if str_icase_eq(s, "APPLICATION_COMMAND_PERMISSIONS_UPDATE") {
            Some(Self::ApplicationCommandPermissionsUpdate)
        } else if str_icase_eq(s, "AUTOMODERATION_RULE_CREATE") {
            Some(Self::AutoModerationRuleCreate)
        } else if str_icase_eq(s, "AUTOMODERATION_RULE_UPDATE") {
            Some(Self::AutoModerationRuleUpdate)
        } else if str_icase_eq(s, "AUTOMODERATION_RULE_DELETE") {
            Some(Self::AutoModerationRuleDelete)
        } else if str_icase_eq(s, "AUTOMODERATION_ACTION_EXECUTION") {
            Some(Self::AutoModerationActionExecution)
        } else if str_icase_eq(s, "CHANNEL_CREATE") {
            Some(Self::ChannelCreate)
        } else if str_icase_eq(s, "CHANNEL_UPDATE") {
            Some(Self::ChannelUpdate)
        } else if str_icase_eq(s, "CHANNEL_DELETE") {
            Some(Self::ChannelDelete)
        } else if str_icase_eq(s, "CHANNEL_PINS_UPDATE") {
            Some(Self::ChannelPinsUpdate)
        } else if str_icase_eq(s, "THREAD_CREATE") {
            Some(Self::ThreadCreate)
        } else if str_icase_eq(s, "THREAD_UPDATE") {
            Some(Self::ThreadUpdate)
        } else if str_icase_eq(s, "THREAD_DELETE") {
            Some(Self::ThreadDelete)
        } else if str_icase_eq(s, "THREAD_LIST_SYNC") {
            Some(Self::ThreadListSync)
        } else if str_icase_eq(s, "THREAD_MEMBER_UPDATE") {
            Some(Self::ThreadMemberUpdate)
        } else if str_icase_eq(s, "THREAD_MEMBERS_UPDATE") {
            Some(Self::ThreadMembersUpdate)
        } else if str_icase_eq(s, "ENTITLEMENT_CREATE") {
            Some(Self::EntitlementCreate)
        } else if str_icase_eq(s, "ENTITLEMENT_UPDATE") {
            Some(Self::EntitlementUpdate)
        } else if str_icase_eq(s, "ENTITLEMENT_DELETE") {
            Some(Self::EntitlementDelete)
        } else if str_icase_eq(s, "GUILD_CREATE") {
            Some(Self::GuildCreate)
        } else if str_icase_eq(s, "GUILD_UPDATE") {
            Some(Self::GuildUpdate)
        } else if str_icase_eq(s, "GUILD_DELETE") {
            Some(Self::GuildDelete)
        } else if str_icase_eq(s, "GUILD_AUDIT_LOG_ENTRY_CREATE") {
            Some(Self::GuildAuditLogEntryCreate)
        } else if str_icase_eq(s, "GUILD_BAN_ADD") {
            Some(Self::GuildBanAdd)
        } else if str_icase_eq(s, "GUILD_BAN_REMOVE") {
            Some(Self::GuildBanRemove)
        } else if str_icase_eq(s, "GUILD_EMOJIS_UPDATE") {
            Some(Self::GuildEmojisUpdate)
        } else if str_icase_eq(s, "GUILD_STICKERS_UPDATE") {
            Some(Self::GuildStickersUpdate)
        } else if str_icase_eq(s, "GUILD_INTEGRATIONS_UPDATE") {
            Some(Self::GuildIntegrationsUpdate)
        } else if str_icase_eq(s, "GUILD_MEMBER_ADD") {
            Some(Self::GuildMemberAdd)
        } else if str_icase_eq(s, "GUILD_MEMBER_REMOVE") {
            Some(Self::GuildMemberRemove)
        } else if str_icase_eq(s, "GUILD_MEMBER_UPDATE") {
            Some(Self::GuildMemberUpdate)
        } else if str_icase_eq(s, "GUILD_MEMBERS_CHUNK") {
            Some(Self::GuildMembersChunk)
        } else if str_icase_eq(s, "GUILD_ROLE_CREATE") {
            Some(Self::GuildRoleCreate)
        } else if str_icase_eq(s, "GUILD_ROLE_UPDATE") {
            Some(Self::GuildRoleUpdate)
        } else if str_icase_eq(s, "GUILD_ROLE_DELETE") {
            Some(Self::GuildRoleDelete)
        } else if str_icase_eq(s, "GUILD_SCHEDULED_EVENT_CREATE") {
            Some(Self::GuildScheduledEventCreate)
        } else if str_icase_eq(s, "GUILD_SCHEDULED_EVENT_UPDATE") {
            Some(Self::GuildScheduledEventUpdate)
        } else if str_icase_eq(s, "GUILD_SCHEDULED_EVENT_DELETE") {
            Some(Self::GuildScheduledEventDelete)
        } else if str_icase_eq(s, "GUILD_SCHEDULED_EVENT_USER_ADD") {
            Some(Self::GuildScheduledEventUserAdd)
        } else if str_icase_eq(s, "GUILD_SCHEDULED_EVENT_USER_REMOVE") {
            Some(Self::GuildScheduledEventUserRemove)
        } else if str_icase_eq(s, "INTEGRATION_CREATE") {
            Some(Self::IntegrationCreate)
        } else if str_icase_eq(s, "INTEGRATION_UPDATE") {
            Some(Self::IntegrationUpdate)
        } else if str_icase_eq(s, "INTEGRATION_DELETE") {
            Some(Self::IntegrationDelete)
        } else if str_icase_eq(s, "INTERACTION_CREATE") {
            Some(Self::InteractionCreate)
        } else if str_icase_eq(s, "INVITE_CREATE") {
            Some(Self::InviteCreate)
        } else if str_icase_eq(s, "INVITE_DELETE") {
            Some(Self::InviteDelete)
        } else if str_icase_eq(s, "MESSAGE_CREATE") {
            Some(Self::MessageCreate)
        } else if str_icase_eq(s, "MESSAGE_UPDATE") {
            Some(Self::MessageUpdate)
        } else if str_icase_eq(s, "MESSAGE_DELETE") {
            Some(Self::MessageDelete)
        } else if str_icase_eq(s, "MESSAGE_DELETE_BULK") {
            Some(Self::MessageDeleteBulk)
        } else if str_icase_eq(s, "MESSAGE_REACTION_ADD") {
            Some(Self::MessageReactionAdd)
        } else if str_icase_eq(s, "MESSAGE_REACTION_REMOVE") {
            Some(Self::MessageReactionRemove)
        } else if str_icase_eq(s, "MESSAGE_REACTION_REMOVE_ALL") {
            Some(Self::MessageReactionRemoveAll)
        } else if str_icase_eq(s, "MESSAGE_REACTION_REMOVE_EMOJI") {
            Some(Self::MessageReactionRemoveEmoji)
        } else if str_icase_eq(s, "PRESENCE_UPDATE") {
            Some(Self::PresenceUpdate)
        } else if str_icase_eq(s, "STAGE_INSTANCE_CREATE") {
            Some(Self::StageInstanceCreate)
        } else if str_icase_eq(s, "STAGE_INSTANCE_UPDATE") {
            Some(Self::StageInstanceUpdate)
        } else if str_icase_eq(s, "STAGE_INSTANCE_DELETE") {
            Some(Self::StageInstanceDelete)
        } else if str_icase_eq(s, "TYPING_START") {
            Some(Self::TypingStart)
        } else if str_icase_eq(s, "USER_UPDATE") {
            Some(Self::UserUpdate)
        } else if str_icase_eq(s, "VOICE_STATE_UPDATE") {
            Some(Self::VoiceStateUpdate)
        } else if str_icase_eq(s, "VOICE_SERVER_UPDATE") {
            Some(Self::VoiceServerUpdate)
        } else if str_icase_eq(s, "WEBHOOKS_UPDATE") {
            Some(Self::WebhooksUpdate)
        } else {
            None
        }
    }
}

#[derive(Debug, Clone)]
pub struct Account {
    pub id: String,
    pub name: String,
}

#[derive(Debug, Clone)]
pub struct Activity {
    pub name: String,
    pub activity_type: u32,
    pub url: Option<String>,
    pub created_at: u64,
    pub timestamps: Option<ActivityTimestamps>,
    pub application_id: Option<String>,
    pub details: Option<String>,
    pub state: Option<String>,
    pub emoji: Option<ActivityEmoji>,
    pub party: Option<ActivityParty>,
    pub assets: Option<ActivityAssets>,
    pub secrets: Option<ActivitySecrets>,
    pub instance: Option<bool>,
    pub flags: Option<u64>,
}

#[derive(Debug, Clone)]
pub struct ActivityAssets {
    pub large_image: Option<String>,
    pub large_text: Option<String>,
    pub small_image: Option<String>,
    pub small_text: Option<String>,
}

#[derive(Debug, Clone)]
pub struct ActivityEmoji {
    pub name: String,
    pub id: Option<u64>,
    pub animated: Option<bool>,
}

#[derive(Debug, Clone)]
pub struct ActivityParty {
    pub id: Option<String>,
    pub size: Option<[u64; 2]>,
}

#[derive(Debug, Clone)]
pub struct ActivitySecrets {
    pub join: Option<String>,
    pub spectate: Option<String>,
    pub match_: Option<String>,
}

#[derive(Debug, Clone)]
pub struct ActivityTimestamps {
    pub start: Option<u64>,
    pub end: Option<u64>,
}

#[derive(Debug, Clone)]
pub struct AllowedMention {
    pub parse: Vec<String>,
    pub roles: Vec<String>,
    pub users: Vec<String>,
    pub replied_user: bool,
}

#[derive(Debug, Clone)]
pub struct Application {
    pub id: String,
    pub name: String,
    pub icon: Option<String>,
    pub description: String,
    pub rpc_origins: Option<Vec<String>>,
    pub bot_public: Option<bool>,
    pub bot_require_code_grant: Option<bool>,
    pub terms_of_service_url: Option<String>,
    pub privacy_policy_url: Option<String>,
    pub owner: Option<User>,
    pub summary: String,
    pub verify_key: String,
    pub team: Option<Team>,
    pub guild_id: Option<String>,
    pub primary_sku_id: Option<String>,
    pub slug: Option<String>,
    pub cover_image: Option<String>,
    pub flags: Option<u64>,
}

#[derive(Debug, Clone)]
pub struct ApplicationCommandOption {
    pub option_type: u32,
    pub name: String,
    pub description: String,
    pub name_localizations: Option<HashMap<String, String>>,
    pub description_localizations: Option<HashMap<String, String>>,
    pub required: Option<bool>,
}

#[derive(Debug, Clone)]
pub struct ApplicationCommandPermission {
    pub id: String,
    pub permission_type: PermissionType,
    pub permission: bool,
}

#[derive(Debug, Clone)]
pub struct ApplicationCommandPermissions {
    pub id: String,
    pub permission_type: u32,
    pub permission: bool,
}

#[derive(Debug, Clone)]
pub struct ApplicationCommandPermissionsUpdate {
    pub id: String,
    pub application_id: String,
    pub guild_id: String,
    pub permissions: Vec<ApplicationCommandPermissions>,
}

#[derive(Debug, Clone)]
pub struct ApplicationRoleConnectionsMetadata {
    pub application_role_connections_metadata_type: PermissionType,
    pub key: String,
    pub name: String,
    pub description: String,
    pub name_localizations: HashMap<String, String>,
    pub description_localizations: HashMap<String, String>,
}

#[derive(Debug, Clone)]
pub struct ApplicationUpdate {
    pub application_id: String,
    pub description: Option<String>,
    pub icon: Option<String>,
    pub cover_image: Option<String>,
    pub team_id: Option<String>,
    pub flags: Option<i64>,
    pub interactions_endpoint_url: Option<String>,
    pub max_participants: Option<i64>,
    pub application_type: Option<String>,
    pub tags: Vec<String>,
    pub custom_install_url: Option<String>,
    pub install_params: Option<String>,
    pub role_connections_verification_url: Option<String>,
}

#[derive(Debug, Clone)]
pub struct AuditLogChange {
    pub key: String,
    pub new_value: Option<String>,
    pub old_value: Option<String>,
}

#[derive(Debug, Clone)]
pub struct AuditLogEntry {
    pub id: String,
    pub target_id: Option<String>,
    pub changes: Option<Vec<AuditLogChange>>,
    pub user_id: Option<String>,
    pub action_type: u32,
    pub options: Option<OptionalAuditEntryInfo>,
    pub reason: Option<String>,
}

#[derive(Debug, Clone)]
pub struct AutoModerationAction {
    pub action_type: u32,
    pub reason: Option<String>,
}

#[derive(Debug, Clone)]
pub struct AutoModerationActionExecution {
    pub guild_id: String,
    pub rule_id: String,
    pub action: AutoModerationAction,
    pub user_id: String,
    pub reason: Option<String>,
    pub rule_trigger_type: u32,
    pub channel_id: Option<String>,
    pub message_id: Option<String>,
    pub alert_system_message_id: Option<String>,
    pub content: Option<String>,
    pub matched_keyword: Option<String>,
    pub matched_content: Option<String>,
}

#[derive(Debug, Clone)]
pub struct AutoModerationCondition {
    pub condition_type: u32,
    pub match_: u32,
    pub match_parameters: Vec<String>,
}

#[derive(Debug, Clone)]
pub struct AutoModerationRule {
    pub id: String,
    pub name: String,
    pub enabled: bool,
    pub actions: Vec<AutoModerationAction>,
    pub conditions: Vec<AutoModerationCondition>,
}

#[derive(Debug, Clone)]
pub struct AutoModerationRuleCreate {
    pub guild_id: String,
    pub rule: AutoModerationRule,
}

#[derive(Debug, Clone)]
pub struct AutoModerationRuleDelete {
    pub guild_id: String,
    pub rule_id: String,
}

#[derive(Debug, Clone)]
pub struct AutoModerationRuleUpdate {
    pub guild_id: String,
    pub rule: AutoModerationRule,
}

#[derive(Debug, Clone)]
pub struct Channel {
    pub id: String,
    pub channel_type: u32,
    pub guild_id: Option<String>,
    pub position: Option<u64>,
    pub permission_overwrites: Option<Vec<PermissionOverwrite>>,
    pub name: Option<String>,
    pub topic: Option<String>,
    pub nsfw: Option<bool>,
    pub last_message_id: Option<String>,
    pub bitrate: Option<u64>,
    pub user_limit: Option<u64>,
    pub rate_limit_per_user: Option<u64>,
    pub recipients: Option<Vec<User>>,
    pub icon: Option<String>,
    pub owner_id: Option<String>,
    pub application_id: Option<String>,
    pub parent_id: Option<String>,
    pub last_pin_timestamp: Option<String>,
    pub rtc_region: Option<String>,
    pub video_quality_mode: Option<u32>,
    pub message_count: Option<u64>,
    pub member_count: Option<u64>,
    pub thread_metadata: Option<ThreadMetadata>,
    pub member: Option<ThreadMember>,
    pub default_auto_archive_duration: Option<u64>,
    pub permissions: Option<String>,
}

#[derive(Debug, Clone)]
pub struct ChannelPinsUpdate {
    pub guild_id: Option<String>,
    pub channel_id: String,
    pub last_pin_timestamp: Option<String>,
}

#[derive(Debug, Clone)]
pub struct ClientStatus {
    pub desktop: Option<String>,
    pub mobile: Option<String>,
    pub web: Option<String>,
}

#[derive(Debug, Clone)]
pub struct ConnectGateway {
    pub bot_token: String,
    pub intents: u128,
}

#[derive(Debug, Clone)]
pub struct Embed {
    pub title: Option<String>,
    pub embed_type: Option<String>,
    pub description: Option<String>,
    pub url: Option<String>,
    pub timestamp: Option<String>,
    pub color: Option<u32>,
    pub footer: Option<EmbedFooter>,
    pub image: Option<EmbedImage>,
    pub thumbnail: Option<EmbedThumbnail>,
    pub video: Option<EmbedVideo>,
    pub provider: Option<EmbedProvider>,
    pub author: Option<EmbedAuthor>,
    pub fields: Option<Vec<EmbedField>>,
}

#[derive(Debug, Clone)]
pub struct EmbedAuthor {
    pub name: String,
    pub url: Option<String>,
    pub icon_url: Option<String>,
    pub proxy_icon_url: Option<String>,
}

#[derive(Debug, Clone)]
pub struct EmbedField {
    pub name: String,
    pub value: String,
    pub inline: Option<bool>,
}

#[derive(Debug, Clone)]
pub struct EmbedFooter {
    pub text: String,
    pub icon_url: Option<String>,
    pub proxy_icon_url: Option<String>,
}

#[derive(Debug, Clone)]
pub struct EmbedImage {
    pub url: String,
    pub proxy_url: Option<String>,
    pub height: Option<u64>,
    pub width: Option<u64>,
}

#[derive(Debug, Clone)]
pub struct EmbedProvider {
    pub name: Option<String>,
    pub url: Option<String>,
}

#[derive(Debug, Clone)]
pub struct EmbedThumbnail {
    pub url: String,
    pub proxy_url: Option<String>,
    pub height: Option<u64>,
    pub width: Option<u64>,
}

#[derive(Debug, Clone)]
pub struct EmbedVideo {
    pub url: Option<String>,
    pub proxy_url: Option<String>,
    pub height: Option<u64>,
    pub width: Option<u64>,
}

#[derive(Debug, Clone)]
pub struct Emoji {
    pub id: Option<String>,
    pub name: Option<String>,
    pub roles: Option<Vec<String>>,
    pub user: Option<User>,
    pub require_colons: Option<bool>,
    pub managed: Option<bool>,
    pub animated: Option<bool>,
    pub available: Option<bool>,
}

#[derive(Debug, Clone)]
pub struct Entitlement {
    pub id: String,
    pub sku_id: String,
    pub application_id: String,
    pub user_id: Option<String>,
    pub entitlement_type: u32,
    pub deleted: bool,
    pub starts_at: Option<String>,
    pub ends_at: Option<String>,
    pub guild_id: String,
}

#[derive(Debug, Clone)]
pub struct EntityMetadata {
    pub location: Option<String>,
}

#[derive(Debug, Clone)]
pub struct Guild {
    pub id: String,
    pub name: String,
    pub icon: Option<String>,
    pub icon_hash: Option<String>,
    pub splash: Option<String>,
    pub discovery_splash: Option<String>,
    pub owner: Option<bool>,
    pub owner_id: String,
    pub permissions: Option<u64>,
    pub region: String,
    pub afk_channel_id: Option<String>,
    pub afk_timeout: u64,
    pub widget_enabled: Option<bool>,
    pub widget_channel_id: Option<String>,
    pub verification_level: u32,
    pub default_message_notifications: u32,
    pub explicit_content_filter: u32,
    pub roles: Vec<Role>,
    pub emojis: Vec<Emoji>,
    pub features: Vec<String>,
    pub mfa_level: u32,
    pub application_id: Option<String>,
    pub system_channel_id: Option<String>,
    pub system_channel_flags: u32,
    pub rules_channel_id: Option<String>,
    pub max_presences: Option<u64>,
    pub max_members: Option<u64>,
    pub vanity_url_code: Option<String>,
    pub description: Option<String>,
    pub banner: Option<String>,
    pub premium_tier: u32,
    pub premium_subscription_count: Option<u64>,
    pub preferred_locale: String,
    pub public_updates_channel_id: Option<String>,
    pub max_video_channel_users: Option<u64>,
    pub approximate_member_count: Option<u64>,
    pub approximate_presence_count: Option<u64>,
    pub welcome_screen: Option<WelcomeScreen>,
    pub nsfw_level: u32,
    pub joined_at: Option<String>,
    pub large: Option<bool>,
    pub unavailable: Option<bool>,
    pub member_count: Option<u64>,
    pub voice_states: Option<Vec<VoiceState>>,
    pub members: Option<Vec<GuildMember>>,
    pub channels: Option<Vec<Channel>>,
    pub threads: Option<Vec<Channel>>,
    pub presences: Option<Vec<PresenceUpdate>>,
    pub stage_instances: Option<Vec<StageInstance>>,
    pub guild_scheduled_events: Option<Vec<GuildScheduledEvent>>,
}

#[derive(Debug, Clone)]
pub struct GuildApplicationCommand {
    pub application_id: String,
    pub guild_id: String,
    pub command_id: String,
    pub name: String,
    pub name_localizations: Option<HashMap<String, String>>,
    pub description: Option<String>,
    pub description_localizations: Option<HashMap<String, String>>,
    pub default_member_permissions: Option<u32>,
    pub dm_permission: Option<bool>,
    pub options: Vec<ApplicationCommandOption>,
}

#[derive(Debug, Clone)]
pub struct GuildBanAdd {
    pub guild_id: String,
    pub user: User,
}

#[derive(Debug, Clone)]
pub struct GuildBanRemove {
    pub guild_id: String,
    pub user: User,
}

#[derive(Debug, Clone)]
pub struct GuildChannel {
    pub name: String,
    pub channel_type: Option<String>,
    pub position: Option<i32>,
    pub topic: Option<String>,
    pub bitrate: Option<i32>,
    pub user_limit: Option<i32>,
    pub nsfw: Option<bool>,
    pub rate_limit_per_user: Option<i32>,
    pub parent_id: Option<String>,
    pub permission_overwrites: Vec<PermissionOverwrite>,
    pub rtc_region: Option<String>,
    pub video_quality_mode: Option<String>,
    pub default_auto_archive_duration: Option<String>,
    pub default_reaction_emoji: Option<String>,
    pub default_sort_order: Option<String>,
    pub default_forum_layout: Option<String>,
    pub available_tags: Option<Vec<Option<String>>>,
}

#[derive(Debug, Clone)]
pub struct GuildChannelUpdate {
    pub id: String,
    pub position: Option<u32>,
    pub parent_id: Option<String>,
    pub lock_permissions: Option<bool>,
}

#[derive(Debug, Clone)]
pub struct GuildEmojisUpdate {
    pub guild_id: String,
    pub emojis: Vec<Emoji>,
}

#[derive(Debug, Clone)]
pub struct GuildIntegrationsUpdate {
    pub guild_id: String,
}

#[derive(Debug, Clone)]
pub struct GuildMember {
    pub user: Option<User>,
    pub nick: Option<String>,
    pub avatar: Option<String>,
    pub roles: Vec<String>,
    pub joined_at: String,
    pub premium_since: Option<String>,
    pub deaf: bool,
    pub mute: bool,
    pub flags: u64,
    pub pending: Option<bool>,
    pub permissions: Option<String>,
    pub guild_id: Option<String>,
    pub communication_disabled_until: Option<String>,
}

#[derive(Debug, Clone)]
pub struct GuildMemberRemove {
    pub guild_id: String,
    pub user: User,
}

#[derive(Debug, Clone)]
pub struct GuildMemberUpdate {
    pub guild_id: String,
    pub roles: Vec<String>,
    pub user: User,
    pub nick: Option<String>,
    pub avatar: Option<String>,
    pub joined_at: Option<String>,
    pub premium_since: Option<String>,
    pub deaf: Option<bool>,
    pub mute: Option<bool>,
    pub pending: Option<bool>,
    pub communication_disabled_until: Option<String>,
}

#[derive(Debug, Clone)]
pub struct GuildMembersChunk {
    pub guild_id: String,
    pub members: Vec<GuildMember>,
    pub chunk_index: u64,
    pub chunk_count: u64,
    pub not_found: Option<Vec<String>>,
    pub presences: Option<Vec<PresenceUpdate>>,
    pub nonce: Option<String>,
}

#[derive(Debug, Clone)]
pub struct GuildRole {
    pub id: String,
    pub name: Option<String>,
    pub color: Option<u32>,
    pub permissions: Option<u32>,
    pub hoist: Option<bool>,
    pub mentionable: Option<bool>,
    pub unicode_emoji: Option<String>,
}

#[derive(Debug, Clone)]
pub struct GuildRoleCreate {
    pub guild_id: String,
    pub role: Role,
}

#[derive(Debug, Clone)]
pub struct GuildRoleDelete {
    pub guild_id: String,
    pub role_id: String,
}

#[derive(Debug, Clone)]
pub struct GuildRoleUpdate {
    pub guild_id: String,
    pub role: Role,
}

#[derive(Debug, Clone)]
pub struct GuildScheduledEvent {
    pub id: String,
    pub guild_id: String,
    pub channel_id: Option<String>,
    pub creator_id: Option<String>,
    pub name: String,
    pub description: Option<String>,
    pub scheduled_start_time: String,
    pub scheduled_end_time: Option<String>,
    pub privacy_level: u32,
    pub status: u32,
    pub entity_type: u32,
    pub entity_id: Option<String>,
    pub entity_metadata: Option<EntityMetadata>,
    pub creator: Option<User>,
    pub user_count: Option<u64>,
    pub image: Option<String>,
}

#[derive(Debug, Clone)]
pub struct GuildScheduledEventUser {
    pub guild_scheduled_event_id: String,
    pub user_id: String,
    pub guild_id: String,
}

#[derive(Debug, Clone)]
pub struct GuildStickersUpdate {
    pub guild_id: String,
    pub stickers: Vec<Sticker>,
}

#[derive(Debug, Clone)]
pub struct HttpGuildRoleUpdate {
    pub id: Option<String>,
    pub position: Option<String>,
}

#[derive(Debug, Clone)]
pub struct HttpStageInstance {
    pub topic: String,
    pub channel_id: String,
    pub privacy_level: Option<u32>,
    pub guild_scheduled_event_id: Option<String>,
    pub send_start_notification: Option<bool>,
}

#[derive(Debug, Clone)]
pub struct Integration {
    pub id: String,
    pub name: String,
    pub integration_type: String,
    pub enabled: bool,
    pub syncing: Option<bool>,
    pub role_id: Option<String>,
    pub enable_emoticons: Option<bool>,
    pub expire_behavior: Option<u32>,
    pub expire_grace_period: Option<u64>,
    pub user: Option<User>,
    pub account: Option<Account>,
    pub synced_at: Option<String>,
    pub subscriber_count: Option<u64>,
    pub revoked: Option<bool>,
    pub application: Option<Application>,
    pub scopes: Option<Vec<String>>,
    pub guild_id: Option<String>,
}

#[derive(Debug, Clone)]
pub struct IntegrationDelete {
    pub id: String,
    pub guild_id: String,
    pub application_id: Option<String>,
}

#[derive(Debug, Clone)]
pub struct InviteCreate {
    pub channel_id: String,
    pub code: String,
    pub created_at: String,
    pub guild_id: Option<String>,
    pub inviter: Option<User>,
    pub max_age: Option<u64>,
    pub max_uses: Option<u64>,
    pub target_type: Option<u32>,
    pub target_user: Option<User>,
    pub target_application: Option<Application>,
    pub temporary: Option<bool>,
    pub uses: Option<u64>,
}

#[derive(Debug, Clone)]
pub struct InviteDelete {
    pub channel_id: String,
    pub guild_id: Option<String>,
    pub code: String,
}

#[derive(Debug, Clone)]
pub struct MessageActivity {
    pub activity_type: u32,
    pub party_id: Option<String>,
}

#[derive(Debug, Clone)]
pub struct MessageDelete {
    pub id: String,
    pub channel_id: String,
    pub guild_id: Option<String>,
}

#[derive(Debug, Clone)]
pub struct MessageDeleteBulk {
    pub ids: Vec<String>,
    pub channel_id: String,
    pub guild_id: Option<String>,
}

#[derive(Debug, Clone)]
pub struct MessageReactionAdd {
    pub user_id: String,
    pub channel_id: String,
    pub message_id: String,
    pub guild_id: Option<String>,
    pub member: Option<GuildMember>,
    pub emoji: Emoji,
    pub message_author_id: Option<String>,
}

#[derive(Debug, Clone)]
pub struct MessageReactionRemove {
    pub user_id: String,
    pub channel_id: String,
    pub message_id: String,
    pub guild_id: Option<String>,
    pub emoji: Emoji,
}

#[derive(Debug, Clone)]
pub struct MessageReactionRemoveAll {
    pub channel_id: String,
    pub message_id: String,
    pub guild_id: Option<String>,
}

#[derive(Debug, Clone)]
pub struct MessageReactionRemoveEmoji {
    pub channel_id: String,
    pub guild_id: Option<String>,
    pub message_id: String,
    pub emoji: Emoji,
}

#[derive(Debug, Clone)]
pub struct MessageReference {
    pub message_id: Option<String>,
    pub channel_id: String,
    pub guild_id: Option<String>,
    pub fail_if_not_exists: Option<bool>,
}

#[derive(Debug, Clone)]
pub struct NewGuild {
    pub name: String,
    pub description: Option<String>,
    pub region: Option<String>,
    pub icon: Option<String>,
    pub verification_level: Option<u32>,
    pub default_message_notifications: Option<u32>,
    pub explicit_content_filter: Option<u32>,
    pub preferred_locale: Option<String>,
    pub afk_timeout: Option<u32>,
    pub roles: Vec<GuildRole>,
    pub channels: Option<Vec<GuildChannel>>,
    pub afk_channel_id: Option<String>,
    pub system_channel_id: Option<String>,
    pub system_channel_flags: Option<u32>,
}

#[derive(Debug, Clone)]
pub struct OptionalAuditEntryInfo {
    pub delete_member_days: Option<String>,
    pub members_removed: Option<String>,
    pub channel_id: Option<String>,
    pub message_id: Option<String>,
    pub count: Option<String>,
    pub id: Option<String>,
    pub audit_type: Option<String>,
    pub role_name: Option<String>,
}

#[derive(Debug, Clone)]
pub struct PartialApplication {
    pub id: String,
    pub flags: Option<u64>,
}

#[derive(Debug, Clone)]
pub struct PermissionOverwrite {
    pub id: String,
    pub overwrite_type: u32,
    pub allow: Option<u32>,
    pub deny: Option<u32>,
}

#[derive(Debug, Clone)]
pub struct PermissionType {
    pub title: String,
    pub permission_const: u32,
    pub description: Option<String>,
}

#[derive(Debug, Clone)]
pub struct PresenceUpdate {
    pub user: User,
    pub guild_id: String,
    pub status: String,
    pub activities: Option<Vec<Activity>>,
    pub client_status: ClientStatus,
    pub premium_since: Option<String>,
    pub nick: Option<String>,
    pub roles: Option<Vec<String>>,
    pub guild_member: Option<GuildMember>,
}

#[derive(Debug, Clone)]
pub struct Reaction {
    pub count: u64,
    pub count_details: u64,
    pub me: bool,
    pub me_burst: bool,
    pub emoji: Emoji,
    pub burst_colors: Vec<String>,
}

#[derive(Debug, Clone)]
pub struct Role {
    pub id: String,
    pub name: String,
    pub color: u32,
    pub hoist: bool,
    pub icon: Option<String>,
    pub unicode_emoji: Option<String>,
    pub position: u64,
    pub permissions: String,
    pub managed: bool,
    pub mentionable: bool,
    pub tags: Option<RoleTags>,
    pub flags: u64,
}

#[derive(Debug, Clone)]
pub struct RoleSubscriptionData {
    pub role_subscription_listing_id: String,
    pub tier_name: String,
    pub total_months_subscribed: u64,
    pub is_renewal: bool,
}

#[derive(Debug, Clone)]
pub struct RoleTags {
    pub bot_id: Option<String>,
    pub integration_id: Option<String>,
    pub subscription_listing_id: Option<String>,
    pub premium_subscriber: Option<bool>, // will need to figure out how to handle,
    pub available_for_purchase: Option<bool>, // will need to figure out how to handle,
    pub guild_connections: Option<bool>, // will need to figure out how to handle,
}

#[derive(Debug, Clone)]
pub struct StageInstance {
    pub id: String,
    pub guild_id: String,
    pub channel_id: String,
    pub topic: String,
    pub privacy_level: u32,
    pub discoverable_disabled: bool,
    pub guild_scheduled_event_id: Option<String>,
}

#[derive(Debug, Clone)]
pub struct Sticker {
    pub id: String,
    pub pack_id: Option<String>,
    pub name: String,
    pub description: String,
    pub tags: Option<String>,
    pub asset: String,
    pub preview_asset: Option<String>,
    pub format_type: u32,
}

#[derive(Debug, Clone)]
pub struct StickerItem {
    pub id: String,
    pub name: String,
    pub format_type: u32,
}

#[derive(Debug, Clone)]
pub struct Team {
    pub id: String,
    pub icon: Option<String>,
    pub members: Vec<TeamMember>,
    pub owner_user_id: String,
}

#[derive(Debug, Clone)]
pub struct TeamMember {
    pub membership_state: u32,
    pub permissions: Vec<String>,
    pub team_id: String,
    pub user: User,
}

#[derive(Debug, Clone)]
pub struct ThreadDelete {
    pub id: String,
    pub guild_id: Option<String>,
    pub parent_id: Option<String>,
    pub channel_type: u32,
}

#[derive(Debug, Clone)]
pub struct ThreadListSync {
    pub guild_id: String,
    pub channel_ids: Vec<String>,
    pub threads: Vec<Channel>,
    pub members: Vec<ThreadMember>,
}

#[derive(Debug, Clone)]
pub struct ThreadMember {
    pub id: String,
    pub user_id: String,
    pub join_timestamp: String,
    pub flags: u32,
    pub guild_id: Option<String>,
}

#[derive(Debug, Clone)]
pub struct ThreadMembersUpdate {
    pub id: String,
    pub guild_id: Option<String>,
    pub member_count: u64,
    pub added_members: Vec<ThreadMember>,
    pub removed_member_ids: Vec<String>,
}

#[derive(Debug, Clone)]
pub struct ThreadMetadata {
    pub archived: bool,
    pub auto_archive_duration: u64,
    pub archive_timestamp: String,
    pub locked: Option<bool>,
}

#[derive(Debug, Clone)]
pub struct TypingStart {
    pub channel_id: String,
    pub guild_id: Option<String>,
    pub user_id: String,
    pub timestamp: u64,
    pub member: Option<GuildMember>,
}

#[derive(Debug, Clone)]
pub struct UnavailableGuild {
    pub id: String,
    pub unavailable: bool,
}

#[derive(Debug, Clone)]
pub struct UpdateGuild {
    pub name: Option<String>,
    pub description: Option<String>,
    pub region: Option<String>,
    pub icon: Option<String>,
    pub verification_level: Option<String>,
    pub default_message_notifications: Option<String>,
    pub explicit_content_filter: Option<String>,
    pub preferred_locale: Option<String>,
    pub afk_timeout: Option<String>,
    pub afk_channel_id: Option<String>,
    pub system_channel_id: Option<String>,
    pub owner_id: Option<String>,
    pub splash: Option<String>,
    pub banner: Option<String>,
    pub system_channel_flags: Option<String>,
    pub features: Option<Vec<String>>,
    pub discovery_splash: Option<String>,
    pub home_header: Option<String>,
    pub rules_channel_id: Option<String>,
    pub safety_alerts_channel_id: Option<String>,
    pub public_updates_channel_id: Option<String>,
    pub premium_progress_bar_enabled: Option<String>,
}

#[derive(Debug, Clone)]
pub struct User {
    pub id: String,
    pub username: String,
    pub discriminator: Option<String>,
    pub avatar: Option<String>,
    pub bot: Option<bool>,
    pub system: Option<bool>,
    pub mfa_enabled: Option<bool>,
    pub locale: Option<String>,
    pub verified: Option<bool>,
    pub email: Option<String>,
    pub flags: Option<u64>,
    pub premium_type: Option<u32>,
    pub public_flags: Option<u64>,
    pub global_name: Option<String>,
}

#[derive(Debug, Clone)]
pub struct VoiceServerUpdate {
    pub token: String,
    pub guild_id: String,
    pub endpoint: Option<String>,
}

#[derive(Debug, Clone)]
pub struct VoiceState {
    pub guild_id: Option<String>,
    pub channel_id: Option<String>,
    pub user_id: String,
    pub member: Option<GuildMember>,
    pub session_id: String,
    pub deaf: bool,
    pub mute: bool,
    pub self_deaf: bool,
    pub self_mute: bool,
    pub self_stream: Option<bool>,
    pub self_video: bool,
    pub suppress: bool,
    pub request_to_speak_timestamp: Option<String>,
}

#[derive(Debug, Clone)]
pub struct WebhooksUpdate {
    pub guild_id: String,
    pub channel_id: String,
}

#[derive(Debug, Clone)]
pub struct WelcomeScreen {
    pub enabled: Option<bool>,
    pub description: Option<String>,
    pub welcome_channels: Vec<WelcomeScreenChannel>,
}

#[derive(Debug, Clone)]
pub struct WelcomeScreenChannel {
    pub channel_id: String,
    pub description: String,
    pub emoji_id: Option<String>,
    pub emoji_name: Option<String>,
}

} // verus!
