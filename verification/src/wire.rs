//! Plain-value vocabulary of the wire protocol: identifiers, positions and
//! the closed enumerations that decoded packets carry.

use vstd::prelude::*;

verus! {

#[derive(Debug, Clone, Copy, PartialEq, Eq, Hash, Structural)]
pub struct AccountId(pub u32);

impl AccountId {
    pub fn new(value: u32) -> (id: Self)
        ensures
            id == AccountId(value),
    {
        AccountId(value)
    }
}

#[derive(Debug, Clone, Copy, PartialEq, Eq, Hash, Structural)]
pub struct CharacterId(pub u32);

#[derive(Debug, Clone, Copy, PartialEq, Eq, Hash, Structural)]
pub struct EntityId(pub u32);

#[derive(Debug, Clone, Copy, PartialEq, Eq, Hash, Structural)]
pub struct SkillId(pub u16);

#[derive(Debug, Clone, Copy, PartialEq, Eq, Hash, Structural)]
pub struct SkillLevel(pub u16);

#[derive(Debug, Clone, Copy, PartialEq, Eq, Hash, Structural)]
pub struct ItemId(pub u32);

#[derive(Debug, Clone, Copy, PartialEq, Eq, Hash, Structural)]
pub struct ShopId(pub u32);

#[derive(Debug, Clone, Copy, PartialEq, Eq, Hash, Structural)]
pub struct UnitId(pub u8);

#[derive(Debug, Clone, Copy, PartialEq, Eq, Hash, Structural)]
pub struct InventoryIndex(pub u16);

#[derive(Debug, Clone, Copy, PartialEq, Eq, Hash, Structural)]
pub struct HotbarTab(pub u16);

#[derive(Debug, Clone, Copy, PartialEq, Eq, Hash, Structural)]
pub struct HotbarSlot(pub u16);

#[derive(Debug, Clone, Copy, PartialEq, Eq, Hash, Structural)]
pub struct Price(pub u32);

#[derive(Debug, Clone, Copy, PartialEq, Eq, Hash, Structural)]
pub struct ClientTick(pub u32);

/// An IPv4 address as the four bytes the servers send.
#[derive(Debug, Clone, Copy, PartialEq, Eq, Hash)]
pub struct ServerAddress(pub [u8; 4]);

impl ServerAddress {
    pub fn new(octets: [u8; 4]) -> (address: Self)
        ensures
            address.0 == octets,
    {
        ServerAddress(octets)
    }
}

/// Where a phase's server listens.
#[derive(Debug, Clone, Copy, PartialEq, Eq, Hash)]
pub struct ServerEndpoint {
    pub address: ServerAddress,
    pub port: u16,
}

#[derive(Debug, Clone, Copy, PartialEq, Eq, Hash, Structural)]
pub enum Sex {
    Female,
    Male,
    Both,
    Server,
}

#[derive(Debug, Clone, Copy, PartialEq, Eq, Hash, Structural)]
pub enum Direction {
    N,
    NE,
    E,
    SE,
    S,
    SW,
    W,
    NW,
}

#[derive(Debug, Clone, Copy, PartialEq, Eq, Hash, Structural)]
pub struct TilePosition {
    pub x: u16,
    pub y: u16,
}

#[derive(Debug, Clone, Copy, PartialEq, Eq, Hash, Structural)]
pub struct WorldPosition {
    pub x: usize,
    pub y: usize,
    pub direction: Direction,
}

#[derive(Debug, Clone, Copy, PartialEq, Eq, Hash, Structural)]
pub struct ColorRGBA {
    pub red: u8,
    pub green: u8,
    pub blue: u8,
    pub alpha: u8,
}

/// Set of equipment locations, one bit each.
#[derive(Debug, Clone, Copy, PartialEq, Eq, Hash, Structural)]
pub struct EquipPosition {
    pub bits: u32,
}

impl EquipPosition {
    pub open spec fn spec_is_empty(self) -> bool {
        self.bits == 0
    }

    /// The set without any location.
    pub fn empty() -> (position: Self)
        ensures
            position == (EquipPosition { bits: 0 }),
    {
        EquipPosition { bits: 0 }
    }

    /// Whether no location is set.
    #[verifier::when_used_as_spec(spec_is_empty)]
    pub fn is_empty(self) -> (empty: bool)
        ensures
            empty == self.spec_is_empty(),
    {
        self.bits == 0
    }
}

/// Flags of an item that stacks.
#[derive(Debug, Clone, Copy, PartialEq, Eq, Hash, Structural)]
pub struct RegularItemFlags {
    pub identified: bool,
    pub in_etc_tab: bool,
}

/// Flags of an item that can be worn.
#[derive(Debug, Clone, Copy, PartialEq, Eq, Hash, Structural)]
pub struct EquippableItemFlags {
    pub identified: bool,
    pub is_broken: bool,
    pub in_etc_tab: bool,
}

#[derive(Debug, Clone, Copy, PartialEq, Eq, Hash, Structural)]
pub struct ItemOptions {
    pub index: u16,
    pub value: u16,
    pub parameter: u8,
}

/// What a hotbar slot is bound to on the server.
#[derive(Debug, Clone, Copy, PartialEq, Eq, Hash, Structural)]
pub struct HotkeyData {
    pub is_skill: u8,
    pub skill_id: u32,
    pub quantity_or_skill_level: SkillLevel,
}

impl HotkeyData {
    /// The value the server sends for a slot that holds nothing.
    pub open spec fn spec_unbound() -> HotkeyData {
        HotkeyData { is_skill: 0, skill_id: 0, quantity_or_skill_level: SkillLevel(0) }
    }

    #[verifier::when_used_as_spec(spec_unbound)]
    pub fn unbound() -> (data: Self)
        ensures
            data == HotkeyData::spec_unbound(),
    {
        HotkeyData { is_skill: 0, skill_id: 0, quantity_or_skill_level: SkillLevel(0) }
    }
}

/// Failure reasons of the first login-failure packet.
#[derive(Debug, Clone, Copy, PartialEq, Eq, Hash, Structural)]
pub enum LoginFailedReason {
    ServerClosed,
    AlreadyLoggedIn,
    AlreadyOnline,
}

/// Failure reasons of the second login-failure packet.
#[derive(Debug, Clone, Copy, PartialEq, Eq, Hash, Structural)]
pub enum LoginFailedReason2 {
    UnregisteredId,
    IncorrectPassword,
    IdExpired,
    RejectedFromServer,
    BlockedByGMTeam,
    GameOutdated,
    LoginProhibitedUntil,
    ServerFull,
    CompanyAccountLimitReached,
}

#[derive(Debug, Clone, Copy, PartialEq, Eq, Hash, Structural)]
pub enum CharacterSelectionFailedReason {
    RejectedFromServer,
}

#[derive(Debug, Clone, Copy, PartialEq, Eq, Hash, Structural)]
pub enum CharacterCreationFailedReason {
    CharacterNameAlreadyUsed,
    NotOldEnough,
    NotAllowedToUseSlot,
    CharacterCerationFailed,
}

#[derive(Debug, Clone, Copy, PartialEq, Eq, Hash, Structural)]
pub enum CharacterDeletionFailedReason {
    NotAllowed,
    CharacterNotFound,
    NotEligible,
}

#[derive(Debug, Clone, Copy, PartialEq, Eq, Hash, Structural)]
pub enum SwitchCharacterSlotResponseStatus {
    Success,
    Error,
}

#[derive(Debug, Clone, Copy, PartialEq, Eq, Hash, Structural)]
pub enum DisappearanceReason {
    OutOfSight,
    Died,
    LoggedOut,
    Teleported,
    TrickDead,
}

#[derive(Debug, Clone, Copy, PartialEq, Eq, Hash, Structural)]
pub enum SpriteChangeType {
    Base,
    Hair,
    Weapon,
    HeadBottom,
    HeadTop,
    HeadMiddle,
    HairColor,
    ClothesColor,
    Shield,
    Shoes,
    Body,
    ResetCostumes,
    Robe,
    Body2,
}

#[derive(Debug, Clone, Copy, PartialEq, Eq, Hash, Structural)]
pub enum SkillType {
    Passive,
    Attack,
    Ground,
    SelfCast,
    Support,
    Trap,
}

#[derive(Debug, Clone, Copy, PartialEq, Eq, Hash, Structural)]
pub enum VisualEffect {
    BaseLevelUp,
    JobLevelUp,
    RefineFailure,
    RefineSuccess,
    GameOver,
    PharmacySuccess,
    PharmacyFailure,
    BaseLevelUpSuperNovice,
    JobLevelUpSuperNovice,
    BaseLevelUpTaekwon,
}

#[derive(Debug, Clone, Copy, PartialEq, Eq, Hash, Structural)]
pub enum QuestEffect {
    Quest,
    Quest2,
    Job,
    Job2,
    Event,
    Event2,
    ClickMe,
    DailyQuest,
    Event3,
    JobQuest,
    JumpingPoring,
    NoEffect,
}

#[derive(Debug, Clone, Copy, PartialEq, Eq, Hash, Structural)]
pub enum QuestColor {
    Yellow,
    Orange,
    Green,
    Purple,
}

#[derive(Debug, Clone, Copy, PartialEq, Eq, Hash, Structural)]
pub enum ItemPickupResult {
    Success,
    Invalid,
    Overweight,
    Unknown0,
    NoInventorySpace,
    MaximumOfItem,
    Unknown1,
    StackLimitation,
}

#[derive(Debug, Clone, Copy, PartialEq, Eq, Hash, Structural)]
pub enum RemoveItemReason {
    Normal,
    ItemUsedForSkill,
    RefinementFailed,
    MaterialChanged,
    MovedToStorage,
    MovedToCart,
    ItemSold,
    ConsumedByFourSpiritAnalysis,
}

#[derive(Debug, Clone, Copy, PartialEq, Eq, Hash, Structural)]
pub enum DamageType {
    Damage,
    PickUpItem,
    SitDown,
    StandUp,
    DamageEndure,
    Splash,
    Skill,
    RepeatDamage,
    MultiHitDamage,
    MultiHitDamageEndure,
    CriticalHit,
    LuckyDodge,
    TouchSkill,
    CriticalMultiHit,
}

#[derive(Debug, Clone, Copy, PartialEq, Eq, Hash, Structural)]
pub enum RequestEquipItemStatus {
    Success,
    Failed,
    FailedDueToLevelRequirement,
}

#[derive(Debug, Clone, Copy, PartialEq, Eq, Hash, Structural)]
pub enum RequestUnequipItemStatus {
    Success,
    Failed,
}

#[derive(Debug, Clone, Copy, PartialEq, Eq, Hash, Structural)]
pub enum RestartResponseStatus {
    Nothing,
    Accepted,
}

#[derive(Debug, Clone, Copy, PartialEq, Eq, Hash, Structural)]
pub enum DisconnectResponseStatus {
    Accepted,
    Wait10Seconds,
}

#[derive(Debug, Clone, Copy, PartialEq, Eq, Hash, Structural)]
pub enum FriendRequestResult {
    Accepted,
    Rejected,
    OwnFriendListFull,
    OtherFriendListFull,
}

#[derive(Debug, Clone, Copy, PartialEq, Eq, Hash, Structural)]
pub enum BuyOrSellOption {
    Buy,
    Sell,
}

#[derive(Debug, Clone, Copy, PartialEq, Eq, Hash, Structural)]
pub enum BuyShopItemsResult {
    Success,
    Error,
}

#[derive(Debug, Clone, Copy, PartialEq, Eq, Hash, Structural)]
pub enum SellItemsResult {
    Success,
    Error,
}

#[derive(Debug, Clone, Copy, PartialEq, Eq, Hash, Structural)]
pub enum StatUpType {
    Strength,
    Agility,
    Vitality,
    Intelligence,
    Dexterity,
    Luck,
}

/// A status value of the player as the map server reports it.
#[derive(Debug, Clone, Copy, PartialEq, Eq, Hash, Structural)]
pub enum StatType {
    Weight(u32),
    MaximumWeight(u32),
    MovementSpeed(u32),
    BaseLevel(u32),
    JobLevel(u32),
    Karma(u32),
    Manner(u32),
    StatPoints(u32),
    SkillPoints(u32),
    Hit(u32),
    Flee1(u32),
    Flee2(u32),
    MaximumHealthPoints(u32),
    MaximumSpellPoints(u32),
    HealthPoints(u32),
    SpellPoints(u32),
    AttackSpeed(u32),
    Attack1(u32),
    Defense1(u32),
    MagicDefense1(u32),
    Attack2(u32),
    Defense2(u32),
    MagicDefense2(u32),
    Critical(u32),
    MagicAttack1(u32),
    MagicAttack2(u32),
    Zeny(u32),
    BaseExperience(u64),
    JobExperience(u64),
    NextBaseExperience(u64),
    NextJobExperience(u64),
    SpUsed(u8, u8),
    Strength(u32, u32),
    Agility(u32, u32),
    Vitality(u32, u32),
    Intelligence(u32, u32),
    Dexterity(u32, u32),
    Luck(u32, u32),
    CartInfo(u16, u32, u32),
    ActivityPoints(u32),
}

/// One character server offered after login.
#[derive(Debug, Clone, PartialEq, Eq)]
pub struct CharacterServerInformation {
    pub server_ip: ServerAddress,
    pub server_port: u16,
    pub server_name: String,
    pub user_count: u16,
    pub server_type: u16,
    pub display_new: u16,
}

impl CharacterServerInformation {
    pub fn new(
        server_ip: ServerAddress,
        server_port: u16,
        server_name: String,
        user_count: u16,
        server_type: u16,
        display_new: u16,
    ) -> (information: Self)
        ensures
            information == (CharacterServerInformation {
                server_ip,
                server_port,
                server_name,
                user_count,
                server_type,
                display_new,
            }),
    {
        CharacterServerInformation { server_ip, server_port, server_name, user_count, server_type, display_new }
    }
}

/// One character of the account as the character server lists it.
#[derive(Debug, Clone, PartialEq, Eq)]
pub struct CharacterInformation {
    pub character_id: CharacterId,
    pub experience: i64,
    pub money: i32,
    pub job_experience: i64,
    pub job_level: i32,
    pub body_state: i32,
    pub health_state: i32,
    pub effect_state: i32,
    pub virtue: i32,
    pub honor: i32,
    pub stat_points: i16,
    pub health_points: i64,
    pub maximum_health_points: i64,
    pub spell_points: i64,
    pub maximum_spell_points: i64,
    pub movement_speed: i16,
    pub job: i16,
    pub head: i16,
    pub body: i16,
    pub weapon: i16,
    pub base_level: i16,
    pub sp_point: i16,
    pub accessory: i16,
    pub shield: i16,
    pub accessory2: i16,
    pub accessory3: i16,
    pub head_palette: i16,
    pub body_palette: i16,
    pub name: String,
    pub strength: u8,
    pub agility: u8,
    pub vitality: u8,
    pub intelligence: u8,
    pub dexterity: u8,
    pub luck: u8,
    pub character_number: u8,
    pub hair_color: u8,
    pub b_is_changed_char: i16,
    pub map_name: String,
    pub deletion_reverse_date: i32,
    pub robe_palette: i32,
    pub character_slot_change_count: i32,
    pub character_name_change_count: i32,
    pub sex: Sex,
}

#[derive(Debug, Clone, PartialEq, Eq)]
pub struct SkillInformation {
    pub skill_id: SkillId,
    pub skill_type: SkillType,
    pub skill_level: SkillLevel,
    pub spell_point_cost: u16,
    pub attack_range: u16,
    pub skill_name: String,
    pub upgraded: u8,
}

#[derive(Debug, Clone, PartialEq, Eq)]
pub struct Friend {
    pub account_id: AccountId,
    pub character_id: CharacterId,
    pub name: String,
}

/// An item that stacks, as an item-list packet carries it.
#[derive(Debug, Clone, Copy, PartialEq, Eq)]
pub struct RegularItemInformation {
    pub index: InventoryIndex,
    pub item_id: ItemId,
    pub item_type: u8,
    pub amount: u16,
    pub equipped_position: EquipPosition,
    pub slot: [u32; 4],
    pub hire_expiration_date: u32,
    pub flags: RegularItemFlags,
}

/// An item that can be worn, as an item-list packet carries it.
#[derive(Debug, Clone, Copy, PartialEq, Eq)]
pub struct EquippableItemInformation {
    pub index: InventoryIndex,
    pub item_id: ItemId,
    pub item_type: u8,
    pub equip_position: EquipPosition,
    pub equipped_position: EquipPosition,
    pub slot: [u32; 4],
    pub hire_expiration_date: u32,
    pub bind_on_equip_type: u16,
    pub w_item_sprite_number: u16,
    pub option_count: u8,
    pub option_data: [ItemOptions; 5],
    pub refinement_level: u8,
    pub enchantment_level: u8,
    pub flags: EquippableItemFlags,
}

#[derive(Debug, Clone, Copy, PartialEq, Eq, Structural)]
pub struct ShopItemInformation {
    pub item_id: ItemId,
    pub item_type: u8,
    pub price: Price,
    pub discount_price: Price,
    pub location: u32,
    pub view_id: u32,
}

#[derive(Debug, Clone, Copy, PartialEq, Eq, Structural)]
pub struct SellItemInformation {
    pub inventory_index: InventoryIndex,
    pub price: Price,
    pub overcharge_price: Price,
}

#[derive(Debug, Clone, Copy, PartialEq, Eq, Structural)]
pub struct SoldItemInformation {
    pub inventory_index: InventoryIndex,
    pub amount: u16,
}

#[derive(Debug, Clone, Copy, PartialEq, Eq, Structural)]
pub struct ShopItemPurchaseInformation {
    pub amount: u16,
    pub item_id: u16,
}

/// A marker over an entity's head, sent as one packet and handed on whole.
#[derive(Debug, Clone, Copy, PartialEq, Eq, Structural)]
pub struct QuestEffectPacket {
    pub entity_id: EntityId,
    pub position: TilePosition,
    pub effect: QuestEffect,
    pub color: QuestColor,
}

} // verus!
