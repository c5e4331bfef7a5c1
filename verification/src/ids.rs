//! The snowflake identifiers Discord gives to its objects.

use vstd::prelude::*;

use crate::text::{decimal, u64_to_string};

verus! {

/// Milliseconds from the Unix epoch to the first second of 2015, where snowflakes start counting.
pub const DISCORD_EPOCH: u64 = 1_420_070_400_000;

/// The millisecond timestamp that a snowflake encodes in its upper 42 bits.
pub open spec fn snowflake_millis(raw: u64) -> int {
    (raw >> 22u64) as int + DISCORD_EPOCH as int
}

/// The snowflake whose timestamp is `millis` (all other bits zero).
pub open spec fn snowflake_from_millis(millis: u64) -> u64
    recommends
        millis >= DISCORD_EPOCH,
{
    ((millis - DISCORD_EPOCH) as u64) << 22u64
}

/// Milliseconds since the Unix epoch at which the snowflake was made.
pub fn snowflake_timestamp_millis(raw: u64) -> (millis: u64)
    ensures
        millis == snowflake_millis(raw),
{
    assert(raw >> 22u64 <= 0x3ff_ffff_ffffu64) by (bit_vector);
    (raw >> 22) + DISCORD_EPOCH
}

/// The snowflake that starts at `millis` milliseconds after the Unix epoch.
pub fn snowflake_at_millis(millis: u64) -> (raw: u64)
    requires
        millis >= DISCORD_EPOCH,
    ensures
        raw == snowflake_from_millis(millis),
{
    (millis - DISCORD_EPOCH) << 22
}

/// Making a snowflake from a timestamp and reading its timestamp back gives the same
/// timestamp, for every timestamp from the Discord epoch that fits in the 42 timestamp bits.
pub proof fn lemma_snowflake_timestamp_round_trip(millis: u64)
    requires
        DISCORD_EPOCH <= millis,
        millis - DISCORD_EPOCH < 0x400_0000_0000,
    ensures
        snowflake_millis(snowflake_from_millis(millis)) == millis,
{
    let x: u64 = (millis - DISCORD_EPOCH) as u64;
    assert(x < 0x400_0000_0000u64 ==> (x << 22u64) >> 22u64 == x) by (bit_vector);
}

/// A Discord identifier type.
pub trait IsId: Copy {
    /// The raw snowflake.
    spec fn snowflake(&self) -> u64;

    /// The raw snowflake.
    fn value(&self) -> (v: u64)
        ensures
            v == self.snowflake();
}

/// Something identified by a snowflake of type `Self::Id`.
pub trait Id {
    type Id: IsId;

    /// The identifier of this value.
    spec fn spec_id(&self) -> Self::Id;

    /// The identifier of this value.
    fn id(&self) -> (i: Self::Id)
        ensures
            i == self.spec_id();
}

/// A Discord snowflake.
#[derive(Debug, Clone, Copy, PartialEq, Eq, Hash, Structural)]
pub struct GuildId(pub u64);

impl GuildId {
    /// Milliseconds since the Unix epoch at which this id was made.
    pub fn timestamp_millis(&self) -> (millis: u64)
        ensures
            millis == snowflake_millis(self.0),
    {
        snowflake_timestamp_millis(self.0)
    }

    /// The first id made at `millis` milliseconds after the Unix epoch.
    pub fn from_timestamp_millis(millis: u64) -> (id: Self)
        requires
            millis >= DISCORD_EPOCH,
        ensures
            id.0 == snowflake_from_millis(millis),
    {
        GuildId(snowflake_at_millis(millis))
    }

    /// The id in decimal, as Discord displays it.
    pub fn to_string(&self) -> (s: String)
        ensures
            s@ == decimal(self.0 as nat),
    {
        u64_to_string(self.0)
    }
}

impl IsId for GuildId {
    open spec fn snowflake(&self) -> u64 {
        self.0
    }

    fn value(&self) -> (v: u64) {
        self.0
    }
}

impl Id for GuildId {
    type Id = GuildId;

    open spec fn spec_id(&self) -> GuildId {
        *self
    }

    fn id(&self) -> (i: GuildId) {
        *self
    }
}

/// A Discord snowflake.
#[derive(Debug, Clone, Copy, PartialEq, Eq, Hash, Structural)]
pub struct ChannelId(pub u64);

impl ChannelId {
    /// Milliseconds since the Unix epoch at which this id was made.
    pub fn timestamp_millis(&self) -> (millis: u64)
        ensures
            millis == snowflake_millis(self.0),
    {
        snowflake_timestamp_millis(self.0)
    }

    /// The first id made at `millis` milliseconds after the Unix epoch.
    pub fn from_timestamp_millis(millis: u64) -> (id: Self)
        requires
            millis >= DISCORD_EPOCH,
        ensures
            id.0 == snowflake_from_millis(millis),
    {
        ChannelId(snowflake_at_millis(millis))
    }

    /// The id in decimal, as Discord displays it.
    pub fn to_string(&self) -> (s: String)
        ensures
            s@ == decimal(self.0 as nat),
    {
        u64_to_string(self.0)
    }
}

impl IsId for ChannelId {
    open spec fn snowflake(&self) -> u64 {
        self.0
    }

    fn value(&self) -> (v: u64) {
        self.0
    }
}

impl Id for ChannelId {
    type Id = ChannelId;

    open spec fn spec_id(&self) -> ChannelId {
        *self
    }

    fn id(&self) -> (i: ChannelId) {
        *self
    }
}

/// A Discord snowflake.
#[derive(Debug, Clone, Copy, PartialEq, Eq, Hash, Structural)]
pub struct UserId(pub u64);

impl UserId {
    /// Milliseconds since the Unix epoch at which this id was made.
    pub fn timestamp_millis(&self) -> (millis: u64)
        ensures
            millis == snowflake_millis(self.0),
    {
        snowflake_timestamp_millis(self.0)
    }

    /// The first id made at `millis` milliseconds after the Unix epoch.
    pub fn from_timestamp_millis(millis: u64) -> (id: Self)
        requires
            millis >= DISCORD_EPOCH,
        ensures
            id.0 == snowflake_from_millis(millis),
    {
        UserId(snowflake_at_millis(millis))
    }

    /// The id in decimal, as Discord displays it.
    pub fn to_string(&self) -> (s: String)
        ensures
            s@ == decimal(self.0 as nat),
    {
        u64_to_string(self.0)
    }
}

impl IsId for UserId {
    open spec fn snowflake(&self) -> u64 {
        self.0
    }

    fn value(&self) -> (v: u64) {
        self.0
    }
}

impl Id for UserId {
    type Id = UserId;

    open spec fn spec_id(&self) -> UserId {
        *self
    }

    fn id(&self) -> (i: UserId) {
        *self
    }
}

/// A Discord snowflake.
#[derive(Debug, Clone, Copy, PartialEq, Eq, Hash, Structural)]
pub struct MessageId(pub u64);

impl MessageId {
    /// Milliseconds since the Unix epoch at which this id was made.
    pub fn timestamp_millis(&self) -> (millis: u64)
        ensures
            millis == snowflake_millis(self.0),
    {
        snowflake_timestamp_millis(self.0)
    }

    /// The first id made at `millis` milliseconds after the Unix epoch.
    pub fn from_timestamp_millis(millis: u64) -> (id: Self)
        requires
            millis >= DISCORD_EPOCH,
        ensures
            id.0 == snowflake_from_millis(millis),
    {
        MessageId(snowflake_at_millis(millis))
    }

    /// The id in decimal, as Discord displays it.
    pub fn to_string(&self) -> (s: String)
        ensures
            s@ == decimal(self.0 as nat),
    {
        u64_to_string(self.0)
    }
}

impl IsId for MessageId {
    open spec fn snowflake(&self) -> u64 {
        self.0
    }

    fn value(&self) -> (v: u64) {
        self.0
    }
}

impl Id for MessageId {
    type Id = MessageId;

    open spec fn spec_id(&self) -> MessageId {
        *self
    }

    fn id(&self) -> (i: MessageId) {
        *self
    }
}

/// A Discord snowflake.
#[derive(Debug, Clone, Copy, PartialEq, Eq, Hash, Structural)]
pub struct AttachmentId(pub u64);

impl AttachmentId {
    /// Milliseconds since the Unix epoch at which this id was made.
    pub fn timestamp_millis(&self) -> (millis: u64)
        ensures
            millis == snowflake_millis(self.0),
    {
        snowflake_timestamp_millis(self.0)
    }

    /// The first id made at `millis` milliseconds after the Unix epoch.
    pub fn from_timestamp_millis(millis: u64) -> (id: Self)
        requires
            millis >= DISCORD_EPOCH,
        ensures
            id.0 == snowflake_from_millis(millis),
    {
        AttachmentId(snowflake_at_millis(millis))
    }

    /// The id in decimal, as Discord displays it.
    pub fn to_string(&self) -> (s: String)
        ensures
            s@ == decimal(self.0 as nat),
    {
        u64_to_string(self.0)
    }
}

impl IsId for AttachmentId {
    open spec fn snowflake(&self) -> u64 {
        self.0
    }

    fn value(&self) -> (v: u64) {
        self.0
    }
}

impl Id for AttachmentId {
    type Id = AttachmentId;

    open spec fn spec_id(&self) -> AttachmentId {
        *self
    }

    fn id(&self) -> (i: AttachmentId) {
        *self
    }
}

/// A Discord snowflake.
#[derive(Debug, Clone, Copy, PartialEq, Eq, Hash, Structural)]
pub struct ApplicationId(pub u64);

impl ApplicationId {
    /// Milliseconds since the Unix epoch at which this id was made.
    pub fn timestamp_millis(&self) -> (millis: u64)
        ensures
            millis == snowflake_millis(self.0),
    {
        snowflake_timestamp_millis(self.0)
    }

    /// The first id made at `millis` milliseconds after the Unix epoch.
    pub fn from_timestamp_millis(millis: u64) -> (id: Self)
        requires
            millis >= DISCORD_EPOCH,
        ensures
            id.0 == snowflake_from_millis(millis),
    {
        ApplicationId(snowflake_at_millis(millis))
    }

    /// The id in decimal, as Discord displays it.
    pub fn to_string(&self) -> (s: String)
        ensures
            s@ == decimal(self.0 as nat),
    {
        u64_to_string(self.0)
    }
}

impl IsId for ApplicationId {
    open spec fn snowflake(&self) -> u64 {
        self.0
    }

    fn value(&self) -> (v: u64) {
        self.0
    }
}

impl Id for ApplicationId {
    type Id = ApplicationId;

    open spec fn spec_id(&self) -> ApplicationId {
        *self
    }

    fn id(&self) -> (i: ApplicationId) {
        *self
    }
}

/// A Discord snowflake.
#[derive(Debug, Clone, Copy, PartialEq, Eq, Hash, Structural)]
pub struct WebhookId(pub u64);

impl WebhookId {
    /// Milliseconds since the Unix epoch at which this id was made.
    pub fn timestamp_millis(&self) -> (millis: u64)
        ensures
            millis == snowflake_millis(self.0),
    {
        snowflake_timestamp_millis(self.0)
    }

    /// The first id made at `millis` milliseconds after the Unix epoch.
    pub fn from_timestamp_millis(millis: u64) -> (id: Self)
        requires
            millis >= DISCORD_EPOCH,
        ensures
            id.0 == snowflake_from_millis(millis),
    {
        WebhookId(snowflake_at_millis(millis))
    }

    /// The id in decimal, as Discord displays it.
    pub fn to_string(&self) -> (s: String)
        ensures
            s@ == decimal(self.0 as nat),
    {
        u64_to_string(self.0)
    }
}

impl IsId for WebhookId {
    open spec fn snowflake(&self) -> u64 {
        self.0
    }

    fn value(&self) -> (v: u64) {
        self.0
    }
}

impl Id for WebhookId {
    type Id = WebhookId;

    open spec fn spec_id(&self) -> WebhookId {
        *self
    }

    fn id(&self) -> (i: WebhookId) {
        *self
    }
}

/// A Discord snowflake.
#[derive(Debug, Clone, Copy, PartialEq, Eq, Hash, Structural)]
pub struct EmojiId(pub u64);

impl EmojiId {
    /// Milliseconds since the Unix epoch at which this id was made.
    pub fn timestamp_millis(&self) -> (millis: u64)
        ensures
            millis == snowflake_millis(self.0),
    {
        snowflake_timestamp_millis(self.0)
    }

    /// The first id made at `millis` milliseconds after the Unix epoch.
    pub fn from_timestamp_millis(millis: u64) -> (id: Self)
        requires
            millis >= DISCORD_EPOCH,
        ensures
            id.0 == snowflake_from_millis(millis),
    {
        EmojiId(snowflake_at_millis(millis))
    }

    /// The id in decimal, as Discord displays it.
    pub fn to_string(&self) -> (s: String)
        ensures
            s@ == decimal(self.0 as nat),
    {
        u64_to_string(self.0)
    }
}

impl IsId for EmojiId {
    open spec fn snowflake(&self) -> u64 {
        self.0
    }

    fn value(&self) -> (v: u64) {
        self.0
    }
}

impl Id for EmojiId {
    type Id = EmojiId;

    open spec fn spec_id(&self) -> EmojiId {
        *self
    }

    fn id(&self) -> (i: EmojiId) {
        *self
    }
}

/// A Discord snowflake.
#[derive(Debug, Clone, Copy, PartialEq, Eq, Hash, Structural)]
pub struct RoleId(pub u64);

impl RoleId {
    /// Milliseconds since the Unix epoch at which this id was made.
    pub fn timestamp_millis(&self) -> (millis: u64)
        ensures
            millis == snowflake_millis(self.0),
    {
        snowflake_timestamp_millis(self.0)
    }

    /// The first id made at `millis` milliseconds after the Unix epoch.
    pub fn from_timestamp_millis(millis: u64) -> (id: Self)
        requires
            millis >= DISCORD_EPOCH,
        ensures
            id.0 == snowflake_from_millis(millis),
    {
        RoleId(snowflake_at_millis(millis))
    }

    /// The id in decimal, as Discord displays it.
    pub fn to_string(&self) -> (s: String)
        ensures
            s@ == decimal(self.0 as nat),
    {
        u64_to_string(self.0)
    }
}

impl IsId for RoleId {
    open spec fn snowflake(&self) -> u64 {
        self.0
    }

    fn value(&self) -> (v: u64) {
        self.0
    }
}

impl Id for RoleId {
    type Id = RoleId;

    open spec fn spec_id(&self) -> RoleId {
        *self
    }

    fn id(&self) -> (i: RoleId) {
        *self
    }
}

/// A Discord snowflake.
#[derive(Debug, Clone, Copy, PartialEq, Eq, Hash, Structural)]
pub struct IntegrationId(pub u64);

impl IntegrationId {
    /// Milliseconds since the Unix epoch at which this id was made.
    pub fn timestamp_millis(&self) -> (millis: u64)
        ensures
            millis == snowflake_millis(self.0),
    {
        snowflake_timestamp_millis(self.0)
    }

    /// The first id made at `millis` milliseconds after the Unix epoch.
    pub fn from_timestamp_millis(millis: u64) -> (id: Self)
        requires
            millis >= DISCORD_EPOCH,
        ensures
            id.0 == snowflake_from_millis(millis),
    {
        IntegrationId(snowflake_at_millis(millis))
    }

    /// The id in decimal, as Discord displays it.
    pub fn to_string(&self) -> (s: String)
        ensures
            s@ == decimal(self.0 as nat),
    {
        u64_to_string(self.0)
    }
}

impl IsId for IntegrationId {
    open spec fn snowflake(&self) -> u64 {
        self.0
    }

    fn value(&self) -> (v: u64) {
        self.0
    }
}

impl Id for IntegrationId {
    type Id = IntegrationId;

    open spec fn spec_id(&self) -> IntegrationId {
        *self
    }

    fn id(&self) -> (i: IntegrationId) {
        *self
    }
}

/// A Discord snowflake.
#[derive(Debug, Clone, Copy, PartialEq, Eq, Hash, Structural)]
pub struct StickerId(pub u64);

impl StickerId {
    /// Milliseconds since the Unix epoch at which this id was made.
    pub fn timestamp_millis(&self) -> (millis: u64)
        ensures
            millis == snowflake_millis(self.0),
    {
        snowflake_timestamp_millis(self.0)
    }

    /// The first id made at `millis` milliseconds after the Unix epoch.
    pub fn from_timestamp_millis(millis: u64) -> (id: Self)
        requires
            millis >= DISCORD_EPOCH,
        ensures
            id.0 == snowflake_from_millis(millis),
    {
        StickerId(snowflake_at_millis(millis))
    }

    /// The id in decimal, as Discord displays it.
    pub fn to_string(&self) -> (s: String)
        ensures
            s@ == decimal(self.0 as nat),
    {
        u64_to_string(self.0)
    }
}

impl IsId for StickerId {
    open spec fn snowflake(&self) -> u64 {
        self.0
    }

    fn value(&self) -> (v: u64) {
        self.0
    }
}

impl Id for StickerId {
    type Id = StickerId;

    open spec fn spec_id(&self) -> StickerId {
        *self
    }

    fn id(&self) -> (i: StickerId) {
        *self
    }
}

/// A Discord snowflake.
#[derive(Debug, Clone, Copy, PartialEq, Eq, Hash, Structural)]
pub struct StickerPackId(pub u64);

impl StickerPackId {
    /// Milliseconds since the Unix epoch at which this id was made.
    pub fn timestamp_millis(&self) -> (millis: u64)
        ensures
            millis == snowflake_millis(self.0),
    {
        snowflake_timestamp_millis(self.0)
    }

    /// The first id made at `millis` milliseconds after the Unix epoch.
    pub fn from_timestamp_millis(millis: u64) -> (id: Self)
        requires
            millis >= DISCORD_EPOCH,
        ensures
            id.0 == snowflake_from_millis(millis),
    {
        StickerPackId(snowflake_at_millis(millis))
    }

    /// The id in decimal, as Discord displays it.
    pub fn to_string(&self) -> (s: String)
        ensures
            s@ == decimal(self.0 as nat),
    {
        u64_to_string(self.0)
    }
}

impl IsId for StickerPackId {
    open spec fn snowflake(&self) -> u64 {
        self.0
    }

    fn value(&self) -> (v: u64) {
        self.0
    }
}

impl Id for StickerPackId {
    type Id = StickerPackId;

    open spec fn spec_id(&self) -> StickerPackId {
        *self
    }

    fn id(&self) -> (i: StickerPackId) {
        *self
    }
}

/// A Discord snowflake.
#[derive(Debug, Clone, Copy, PartialEq, Eq, Hash, Structural)]
pub struct CommandId(pub u64);

impl CommandId {
    /// Milliseconds since the Unix epoch at which this id was made.
    pub fn timestamp_millis(&self) -> (millis: u64)
        ensures
            millis == snowflake_millis(self.0),
    {
        snowflake_timestamp_millis(self.0)
    }

    /// The first id made at `millis` milliseconds after the Unix epoch.
    pub fn from_timestamp_millis(millis: u64) -> (id: Self)
        requires
            millis >= DISCORD_EPOCH,
        ensures
            id.0 == snowflake_from_millis(millis),
    {
        CommandId(snowflake_at_millis(millis))
    }

    /// The id in decimal, as Discord displays it.
    pub fn to_string(&self) -> (s: String)
        ensures
            s@ == decimal(self.0 as nat),
    {
        u64_to_string(self.0)
    }
}

impl IsId for CommandId {
    open spec fn snowflake(&self) -> u64 {
        self.0
    }

    fn value(&self) -> (v: u64) {
        self.0
    }
}

impl Id for CommandId {
    type Id = CommandId;

    open spec fn spec_id(&self) -> CommandId {
        *self
    }

    fn id(&self) -> (i: CommandId) {
        *self
    }
}

/// A Discord snowflake.
#[derive(Debug, Clone, Copy, PartialEq, Eq, Hash, Structural)]
pub struct InteractionId(pub u64);

impl InteractionId {
    /// Milliseconds since the Unix epoch at which this id was made.
    pub fn timestamp_millis(&self) -> (millis: u64)
        ensures
            millis == snowflake_millis(self.0),
    {
        snowflake_timestamp_millis(self.0)
    }

    /// The first id made at `millis` milliseconds after the Unix epoch.
    pub fn from_timestamp_millis(millis: u64) -> (id: Self)
        requires
            millis >= DISCORD_EPOCH,
        ensures
            id.0 == snowflake_from_millis(millis),
    {
        InteractionId(snowflake_at_millis(millis))
    }

    /// The id in decimal, as Discord displays it.
    pub fn to_string(&self) -> (s: String)
        ensures
            s@ == decimal(self.0 as nat),
    {
        u64_to_string(self.0)
    }
}

impl IsId for InteractionId {
    open spec fn snowflake(&self) -> u64 {
        self.0
    }

    fn value(&self) -> (v: u64) {
        self.0
    }
}

impl Id for InteractionId {
    type Id = InteractionId;

    open spec fn spec_id(&self) -> InteractionId {
        *self
    }

    fn id(&self) -> (i: InteractionId) {
        *self
    }
}

/// A Discord snowflake.
#[derive(Debug, Clone, Copy, PartialEq, Eq, Hash, Structural)]
pub struct SkuId(pub u64);

impl SkuId {
    /// Milliseconds since the Unix epoch at which this id was made.
    pub fn timestamp_millis(&self) -> (millis: u64)
        ensures
            millis == snowflake_millis(self.0),
    {
        snowflake_timestamp_millis(self.0)
    }

    /// The first id made at `millis` milliseconds after the Unix epoch.
    pub fn from_timestamp_millis(millis: u64) -> (id: Self)
        requires
            millis >= DISCORD_EPOCH,
        ensures
            id.0 == snowflake_from_millis(millis),
    {
        SkuId(snowflake_at_millis(millis))
    }

    /// The id in decimal, as Discord displays it.
    pub fn to_string(&self) -> (s: String)
        ensures
            s@ == decimal(self.0 as nat),
    {
        u64_to_string(self.0)
    }
}

impl IsId for SkuId {
    open spec fn snowflake(&self) -> u64 {
        self.0
    }

    fn value(&self) -> (v: u64) {
        self.0
    }
}

impl Id for SkuId {
    type Id = SkuId;

    open spec fn spec_id(&self) -> SkuId {
        *self
    }

    fn id(&self) -> (i: SkuId) {
        *self
    }
}

/// A Discord snowflake.
#[derive(Debug, Clone, Copy, PartialEq, Eq, Hash, Structural)]
pub struct TeamId(pub u64);

impl TeamId {
    /// Milliseconds since the Unix epoch at which this id was made.
    pub fn timestamp_millis(&self) -> (millis: u64)
        ensures
            millis == snowflake_millis(self.0),
    {
        snowflake_timestamp_millis(self.0)
    }

    /// The first id made at `millis` milliseconds after the Unix epoch.
    pub fn from_timestamp_millis(millis: u64) -> (id: Self)
        requires
            millis >= DISCORD_EPOCH,
        ensures
            id.0 == snowflake_from_millis(millis),
    {
        TeamId(snowflake_at_millis(millis))
    }

    /// The id in decimal, as Discord displays it.
    pub fn to_string(&self) -> (s: String)
        ensures
            s@ == decimal(self.0 as nat),
    {
        u64_to_string(self.0)
    }
}

impl IsId for TeamId {
    open spec fn snowflake(&self) -> u64 {
        self.0
    }

    fn value(&self) -> (v: u64) {
        self.0
    }
}

impl Id for TeamId {
    type Id = TeamId;

    open spec fn spec_id(&self) -> TeamId {
        *self
    }

    fn id(&self) -> (i: TeamId) {
        *self
    }
}

} // verus!
