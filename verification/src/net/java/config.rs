//! How a client is configured before it plays.

use vstd::prelude::*;
use vstd::string::*;
use vstd::utf8::*;

use crate::data::equipment::Hand;
use crate::data::nbt::{byte_of, put_under, NbtCompound, NbtTag, NbtValue};
use crate::data::rank::{Rank32, Rank64};
use crate::plan::{only_if, push_if};

verus! {

/// The beginning of the names of channels on which a client says what it is.
pub const BRAND_CHANNEL_LEN: usize = 15;

/// The namespace of uuids that are made from domain names.
pub const NAMESPACE_DNS: u128 = 0x6ba7b810_9dad_11d1_80b4_00c04fd430c8;

/// The number of the nether among the dimensions.
pub const NETHER_ID: u8 = 3;

/// What a client wants to see of what is said.
#[derive(Clone, Copy, Debug, PartialEq, Eq, Structural)]
pub enum ChatMode {
    Enabled,
    CommandsOnly,
    Hidden,
}

/// What a client says of itself.
pub struct ClientInformation {
    pub locale: String,
    pub view_distance: i8,
    pub chat_mode: i32,
    pub chat_colors: bool,
    pub skin_parts: u8,
    pub main_hand: i32,
    pub text_filtering: bool,
    pub server_listing: bool,
}

/// How a player wants to play.
pub struct PlayerConfig {
    pub locale: String,
    pub view_distance: u8,
    pub chat_mode: ChatMode,
    pub chat_colors: bool,
    pub skin_parts: u8,
    pub main_hand: Hand,
    pub text_filtering: bool,
    pub server_listing: bool,
}

/// What the server and a client are about.
#[derive(Clone, Copy, Debug, PartialEq, Eq, Structural)]
pub enum ConnectionState {
    Config,
    Play,
}

/// A client that is being configured.
pub struct JavaClient {
    pub connection_state: ConnectionState,
    pub config: Option<PlayerConfig>,
    pub brand: Option<String>,
    /// Whether the client still has to answer.
    pub wait_for_keep_alive: bool,
    /// What the client has to answer.
    pub keep_alive_id: i64,
}

/// The hand with the number.
pub open spec fn hand_of(number: i32) -> Option<Hand> {
    if number == 0 {
        Some(Hand::Left)
    } else if number == 1 {
        Some(Hand::Right)
    } else {
        None
    }
}

/// What a client wants to see, by its number.
pub open spec fn chat_mode_of(number: i32) -> Option<ChatMode> {
    if number == 0 {
        Some(ChatMode::Enabled)
    } else if number == 1 {
        Some(ChatMode::CommandsOnly)
    } else if number == 2 {
        Some(ChatMode::Hidden)
    } else {
        None
    }
}

/// The hand with the number.
fn read_hand(number: i32) -> (r: Option<Hand>)
    ensures
        r == hand_of(number),
{
    match number {
        0 => Some(Hand::Left),
        1 => Some(Hand::Right),
        _ => None,
    }
}

/// What a client wants to see, by its number.
fn read_chat_mode(number: i32) -> (r: Option<ChatMode>)
    ensures
        r == chat_mode_of(number),
{
    match number {
        0 => Some(ChatMode::Enabled),
        1 => Some(ChatMode::CommandsOnly),
        2 => Some(ChatMode::Hidden),
        _ => None,
    }
}

/// Why a client is turned away.
#[derive(Clone, Copy, Debug, PartialEq, Eq, Structural)]
pub enum InformationFault {
    /// "Cannot have zero or negative view distance!"
    ViewDistance,
    /// "Invalid hand or chat type"
    HandOrChat,
}

/// What is wrong with what a client says of itself, if anything.
pub open spec fn information_fault(information: ClientInformation) -> Option<InformationFault> {
    if information.view_distance <= 0 {
        Some(InformationFault::ViewDistance)
    } else if hand_of(information.main_hand) is None || chat_mode_of(
        information.chat_mode,
    ) is None {
        Some(InformationFault::HandOrChat)
    } else {
        None
    }
}

impl InformationFault {
    /// What a client is told that is turned away.
    pub fn message(self) -> (r: &'static str)
        ensures
            r@ == (match self {
                InformationFault::ViewDistance => "Cannot have zero or negative view distance!"@,
                InformationFault::HandOrChat => "Invalid hand or chat type"@,
            }),
    {
        match self {
            InformationFault::ViewDistance => "Cannot have zero or negative view distance!",
            InformationFault::HandOrChat => "Invalid hand or chat type",
        }
    }
}

impl JavaClient {
    /// Takes up what the client says of itself, or says why it is turned away.
    pub fn handle_client_information_config(&mut self, information: &ClientInformation) -> (r:
        Result<(), InformationFault>)
        ensures
            r == (match information_fault(*information) {
                Some(fault) => Err(fault),
                None => Ok(()),
            }),
            r is Err ==> *final(self) == *old(self),
            r is Ok ==> {
                &&& *final(self) == (JavaClient { config: final(self).config, ..*old(self) })
                &&& final(self).config matches Some(config) && {
                    &&& config.locale@ == information.locale@
                    &&& config.view_distance == information.view_distance
                    &&& Some(config.chat_mode) == chat_mode_of(information.chat_mode)
                    &&& config.chat_colors == information.chat_colors
                    &&& config.skin_parts == information.skin_parts
                    &&& Some(config.main_hand) == hand_of(information.main_hand)
                    &&& config.text_filtering == information.text_filtering
                    &&& config.server_listing == information.server_listing
                }
            },
    {
        if information.view_distance <= 0 {
            return Err(InformationFault::ViewDistance);
        }
        if let (Some(main_hand), Some(chat_mode)) = (
            read_hand(information.main_hand),
            read_chat_mode(information.chat_mode),
        ) {
            self.config = Some(
                PlayerConfig {
                    locale: information.locale.clone(),
                    view_distance: information.view_distance as u8,
                    chat_mode,
                    chat_colors: information.chat_colors,
                    skin_parts: information.skin_parts,
                    main_hand,
                    text_filtering: information.text_filtering,
                    server_listing: information.server_listing,
                },
            );
            Ok(())
        } else {
            Err(InformationFault::HandOrChat)
        }
    }

    /// Takes up what the client says on a channel: on one whose name begins as that of the
    /// brand it says what it is. What is not a text there is a reason to turn the client away,
    /// which is returned.
    pub fn handle_plugin_message(&mut self, channel: &str, data: &Vec<u8>) -> (r: Result<
        (),
        String,
    >)
        ensures
            *final(self) == (JavaClient { brand: final(self).brand, ..*old(self) }),
            if !is_brand_channel(channel@) {
                r is Ok && final(self).brand == old(self).brand
            } else if valid_utf8(data@) {
                r is Ok && (final(self).brand matches Some(brand) && brand@ == decode_utf8(data@))
            } else {
                &&& final(self).brand == old(self).brand
                &&& r matches Err(complaint) && complaint@ == utf8_complaint(data@)
            },
    {
        if !starts_as_brand(channel) {
            return Ok(());
        }
        match read_text(data) {
            Ok(brand) => {
                self.brand = Some(brand);
                Ok(())
            },
            Err(complaint) => Err(complaint),
        }
    }

    /// The client answers although it was not asked, or answers something else than it was
    /// asked.
    pub open spec fn spec_answers_badly(self, keep_alive_id: i64) -> bool {
        !self.wait_for_keep_alive || keep_alive_id != self.keep_alive_id
    }

    /// The client after an answer: after the right one it does not have to answer any more.
    pub open spec fn spec_answered(self, keep_alive_id: i64) -> Self {
        JavaClient {
            wait_for_keep_alive: self.wait_for_keep_alive && self.spec_answers_badly(keep_alive_id),
            ..self
        }
    }

    /// Takes up the answer of the client. Returns whether the client is turned away, because
    /// it was not asked or was asked something else.
    pub fn handle_config_keep_alive(&mut self, keep_alive_id: i64) -> (r: bool)
        ensures
            r == old(self).spec_answers_badly(keep_alive_id),
            *final(self) == old(self).spec_answered(keep_alive_id),
    {
        if self.wait_for_keep_alive && keep_alive_id == self.keep_alive_id {
            self.wait_for_keep_alive = false;
            false
        } else {
            true
        }
    }

    /// Ends the configuration. A client that has no profile, because it did not log in, is
    /// turned away, and so is one that may not join, for whatever reason. `refused` says
    /// whether the profile may not join; without a profile it does not count.
    pub fn handle_config_acknowledged(&mut self, has_profile: bool, refused: bool) -> (r:
        Acknowledged)
        ensures
            *final(self) == (JavaClient {
                connection_state: ConnectionState::Play,
                ..*old(self)
            }),
            r == (if !has_profile {
                Acknowledged::NoProfile
            } else if refused {
                Acknowledged::Refused
            } else {
                Acknowledged::ReadyToPlay { has_config: old(self).config is Some }
            }),
    {
        self.connection_state = ConnectionState::Play;
        if !has_profile {
            Acknowledged::NoProfile
        } else if refused {
            Acknowledged::Refused
        } else {
            Acknowledged::ReadyToPlay { has_config: self.config.is_some() }
        }
    }
}

/// Law: a client answers well once: after the right answer every other is one too many.
pub proof fn law_client_answers_once(client: JavaClient, first: i64, second: i64)
    requires
        !client.spec_answers_badly(first),
    ensures
        client.spec_answered(first).spec_answers_badly(second),
{
}

/// What becomes of a client whose configuration ends.
#[derive(Clone, Copy, Debug, PartialEq, Eq, Structural)]
pub enum Acknowledged {
    /// It is turned away for the order of what it sent.
    NoProfile,
    /// It is turned away because it may not join.
    Refused,
    /// It plays, as it wants where it has said so, and as players do by default otherwise.
    ReadyToPlay { has_config: bool },
}

/// The channel is one on which a client says what it is.
pub open spec fn is_brand_channel(channel: Seq<char>) -> bool {
    "minecraft:brand"@.is_prefix_of(channel)
}

/// Whether the channel is one on which a client says what it is.
fn starts_as_brand(channel: &str) -> (r: bool)
    ensures
        r == is_brand_channel(channel@),
{
    proof {
        reveal_strlit("minecraft:brand");
        assert("minecraft:brand"@.len() == BRAND_CHANNEL_LEN);
    }
    if channel.unicode_len() < BRAND_CHANNEL_LEN {
        return false;
    }
    let start: String = String::from_str(channel.substring_char(0, BRAND_CHANNEL_LEN));
    start == String::from_str("minecraft:brand")
}

/// What is said of bytes that are no text.
pub uninterp spec fn utf8_complaint(bytes: Seq<u8>) -> Seq<char>;

/// Calls `std::str::from_utf8` on the bytes, and `to_string` on the error where there is one.
/// Claims that bytes in the encoding of texts give the text that they encode, and that all
/// others give an error; what the error says depends on the bytes alone, and is not stated.
#[verifier::external_body]
fn read_text(bytes: &Vec<u8>) -> (r: Result<String, String>)
    ensures
        r is Ok <==> valid_utf8(bytes@),
        r matches Ok(text) ==> text@ == decode_utf8(bytes@),
        r matches Err(complaint) ==> complaint@ == utf8_complaint(bytes@),
{
    match std::str::from_utf8(bytes) {
        Ok(text) => Ok(text.to_string()),
        Err(error) => Err(error.to_string()),
    }
}

// ---------------------------------------------------------------------------
// Resource packs.
// ---------------------------------------------------------------------------

/// What a client says of the resource pack that it was sent.
#[derive(Clone, Copy, Debug, PartialEq, Eq, Structural)]
pub enum ResourcePackResponseResult {
    DownloadSuccess,
    Declined,
    DownloadFail,
    Accepted,
    Downloaded,
    InvalidUrl,
    ReloadFailed,
    Discarded,
    Unknown(i32),
}

/// The uuid that is made from a name in a namespace.
pub uninterp spec fn uuid_v3(namespace: u128, name: Seq<u8>) -> u128;

/// Calls `uuid::Uuid::new_v3` on the namespace and the name. Claims that the uuid depends on
/// these two alone; how it is made, by a digest, is not stated.
#[verifier::external_body]
fn name_based_uuid(namespace: u128, name: &[u8]) -> (r: u128)
    ensures
        r == uuid_v3(namespace, name@),
{
    uuid::Uuid::new_v3(&uuid::Uuid::from_u128(namespace), name).as_u128()
}

/// The configuration goes on after the answer, unless the client has only accepted the pack
/// that it was sent and will say more.
pub open spec fn goes_on(
    enabled: bool,
    answered: u128,
    expected: u128,
    result: ResourcePackResponseResult,
) -> bool {
    !(enabled && answered == expected && result == ResourcePackResponseResult::Accepted)
}

/// Whether the configuration goes on after the answer.
pub fn answer_goes_on(
    enabled: bool,
    answered: u128,
    expected: u128,
    result: ResourcePackResponseResult,
) -> (r: bool)
    ensures
        r == goes_on(enabled, answered, expected, result),
{
    if enabled {
        if answered == expected {
            match result {
                ResourcePackResponseResult::Accepted => false,
                _ => true,
            }
        } else {
            true
        }
    } else {
        true
    }
}

/// Takes up what the client says of a resource pack. Returns whether the configuration goes
/// on, with what packs the server knows. A pack is known by a uuid that is made from its url.
pub fn handle_resource_pack_response(
    enabled: bool,
    url: &str,
    answered: u128,
    result: ResourcePackResponseResult,
) -> (r: bool)
    ensures
        r == goes_on(enabled, answered, uuid_v3(NAMESPACE_DNS, encode_utf8(url@)), result),
{
    let expected: u128 = name_based_uuid(NAMESPACE_DNS, url.as_bytes());
    answer_goes_on(enabled, answered, expected, result)
}

// ---------------------------------------------------------------------------
// What a client is sent.
// ---------------------------------------------------------------------------

/// A registry whose tags a client is sent.
#[derive(Clone, Copy, Debug, PartialEq, Eq, Structural)]
pub enum RegistryKey {
    Block,
    Fluid,
    Enchantment,
    WorldgenBiome,
    Item,
    EntityType,
    Dialog,
    Timeline,
    DimensionType,
    DamageType,
    BannerPattern,
}

/// A dimension of which a client is told.
#[derive(Clone, Copy, Debug, PartialEq, Eq, Structural)]
pub enum DimensionKind {
    Overworld,
    OverworldCaves,
    TheEnd,
    TheNether,
}

/// What is known of the version of a client and of the tags for it.
#[derive(Clone, Copy, Debug, PartialEq, Eq, Structural)]
pub struct VersionView {
    /// The client is configured before it plays: its version is at least 1.20.2.
    pub is_configured: bool,
    /// The client knows timelines: its version is at least 1.21.11.
    pub knows_timelines: bool,
    pub has_timeline_tags: bool,
    pub has_dimension_type_tags: bool,
    pub has_damage_type_tags: bool,
    pub has_banner_pattern_tags: bool,
}

/// What a client is sent at the end of its configuration.
pub struct KnownPacks {
    /// The registries that are sent, by their places, in order.
    pub registries: Vec<usize>,
    /// The dimensions that are told of after them.
    pub dimensions: Vec<DimensionKind>,
    /// The registries whose tags are sent after that, in order.
    pub tags: Vec<RegistryKey>,
    /// The client does not answer: it plays at once.
    pub acknowledges_itself: bool,
}

/// One of the names is that of the registry of dimensions.
pub open spec fn names_dimension_types(registries: Seq<String>) -> bool {
    exists|i: int|
        0 <= i < registries.len() && (#[trigger] registries[i])@ == "minecraft:dimension_type"@
}

/// The registries whose tags are sent to every client.
pub open spec fn common_tags() -> Seq<RegistryKey> {
    seq![
        RegistryKey::Block,
        RegistryKey::Fluid,
        RegistryKey::Enchantment,
        RegistryKey::WorldgenBiome,
        RegistryKey::Item,
        RegistryKey::EntityType,
        RegistryKey::Dialog,
    ]
}

/// The registries whose tags a client is sent: some only where there are any, and those of
/// timelines only where the client knows them.
pub open spec fn tags_for(version: VersionView) -> Seq<RegistryKey> {
    common_tags() + only_if(
        version.knows_timelines && version.has_timeline_tags,
        RegistryKey::Timeline,
    ) + only_if(version.has_dimension_type_tags, RegistryKey::DimensionType)
        + only_if(version.has_damage_type_tags, RegistryKey::DamageType)
        + only_if(version.has_banner_pattern_tags, RegistryKey::BannerPattern)
}

/// The registries whose tags a client is sent.
fn choose_tags(version: VersionView) -> (r: Vec<RegistryKey>)
    ensures
        r@ == tags_for(version),
{
    let mut tags: Vec<RegistryKey> = Vec::new();
    tags.push(RegistryKey::Block);
    tags.push(RegistryKey::Fluid);
    tags.push(RegistryKey::Enchantment);
    tags.push(RegistryKey::WorldgenBiome);
    tags.push(RegistryKey::Item);
    tags.push(RegistryKey::EntityType);
    tags.push(RegistryKey::Dialog);
    assert(tags@ =~= common_tags());
    push_if(
        &mut tags,
        version.knows_timelines && version.has_timeline_tags,
        RegistryKey::Timeline,
    );
    push_if(&mut tags, version.has_dimension_type_tags, RegistryKey::DimensionType);
    push_if(&mut tags, version.has_damage_type_tags, RegistryKey::DamageType);
    push_if(&mut tags, version.has_banner_pattern_tags, RegistryKey::BannerPattern);
    tags
}

/// What a client is sent once it has said what packs it knows. A client that is configured
/// gets all registries, and the dimensions by themselves where no registry holds them; one
/// that is not plays at once.
pub fn handle_known_packs(version: VersionView, registries: &Vec<String>) -> (r: KnownPacks)
    ensures
        r.registries@ == (if version.is_configured {
            Seq::new(registries@.len(), |i: int| i as usize)
        } else {
            Seq::empty()
        }),
        r.dimensions@ == (if version.is_configured && !names_dimension_types(registries@) {
            seq![
                DimensionKind::Overworld,
                DimensionKind::OverworldCaves,
                DimensionKind::TheEnd,
                DimensionKind::TheNether,
            ]
        } else {
            Seq::empty()
        }),
        r.tags@ == tags_for(version),
        r.acknowledges_itself == !version.is_configured,
{
    let mut sent: Vec<usize> = Vec::new();
    let mut dimensions: Vec<DimensionKind> = Vec::new();
    if version.is_configured {
        let wanted: String = String::from_str("minecraft:dimension_type");
        let mut found: bool = false;
        let mut i: usize = 0;
        while i < registries.len()
            invariant
                i <= registries@.len(),
                wanted@ == "minecraft:dimension_type"@,
                sent@ == Seq::new(i as nat, |i: int| i as usize),
                found == names_dimension_types(registries@.take(i as int)),
            decreases registries.len() - i,
        {
            let ghost seen = registries@.take(i as int);
            let ghost with_this = registries@.take(i as int + 1);
            assert(forall|j: int| 0 <= j < i ==> #[trigger] with_this[j] == seen[j]);
            assert(with_this[i as int] == registries@[i as int]);
            if registries[i] == wanted {
                found = true;
                assert(with_this[i as int]@ == "minecraft:dimension_type"@);
            }
            proof {
                if names_dimension_types(seen) {
                    let j = choose|j: int|
                        0 <= j < seen.len() && (#[trigger] seen[j])@ == "minecraft:dimension_type"@;
                    assert(with_this[j]@ == "minecraft:dimension_type"@);
                }
                if names_dimension_types(with_this) {
                    let j = choose|j: int|
                        0 <= j < with_this.len() && (#[trigger] with_this[j])@
                            == "minecraft:dimension_type"@;
                    if j < i {
                        assert(seen[j]@ == "minecraft:dimension_type"@);
                    }
                }
            }
            sent.push(i);
            i = i + 1;
            assert(sent@ =~= Seq::new(i as nat, |i: int| i as usize));
        }
        assert(registries@.take(i as int) =~= registries@);
        if !found {
            dimensions.push(DimensionKind::Overworld);
            dimensions.push(DimensionKind::OverworldCaves);
            dimensions.push(DimensionKind::TheEnd);
            dimensions.push(DimensionKind::TheNether);
        }
        assert(dimensions@ =~= (if !names_dimension_types(registries@) {
            seq![
                DimensionKind::Overworld,
                DimensionKind::OverworldCaves,
                DimensionKind::TheEnd,
                DimensionKind::TheNether,
            ]
        } else {
            Seq::empty()
        }));
    }
    KnownPacks {
        registries: sent,
        dimensions,
        tags: choose_tags(version),
        acknowledges_itself: !version.is_configured,
    }
}

/// A dimension.
pub struct DimensionType {
    pub id: u8,
    pub minecraft_name: String,
    pub ambient_light: Rank32,
    pub height: i32,
    pub logical_height: i32,
    pub min_y: i32,
    pub infiniburn: String,
    pub monster_spawn_block_light_limit: u8,
    pub coordinate_scale: Rank64,
    pub has_skylight: bool,
    pub has_ceiling: bool,
}

/// The dimension with the number is the overworld, or that with caves only.
pub open spec fn is_like_overworld(id: u8) -> bool {
    id == 0 || id == 1
}

/// What a client is told of the light in which monsters come up in a dimension: it is drawn
/// evenly from 0 to 7.
pub open spec fn monster_light() -> NbtValue {
    let range = Map::empty().insert("min_inclusive"@, NbtValue::Int(0)).insert(
        "max_inclusive"@,
        NbtValue::Int(7),
    );
    NbtValue::Compound(
        Map::empty().insert("type"@, NbtValue::Text("minecraft:uniform"@)).insert(
            "value"@,
            NbtValue::Compound(range, None),
        ),
        None,
    )
}

/// What a client is told of a dimension under the name.
pub open spec fn told_of(dim: DimensionType, name: Seq<char>) -> Option<NbtValue> {
    if name == "ambient_light"@ {
        Some(NbtValue::Float(dim.ambient_light))
    } else if name == "height"@ {
        Some(NbtValue::Int(dim.height))
    } else if name == "logical_height"@ {
        Some(NbtValue::Int(dim.logical_height))
    } else if name == "min_y"@ {
        Some(NbtValue::Int(dim.min_y))
    } else if name == "infiniburn"@ {
        Some(NbtValue::Text(dim.infiniburn@))
    } else if name == "monster_spawn_block_light_limit"@ {
        Some(NbtValue::Int(dim.monster_spawn_block_light_limit as i32))
    } else if name == "coordinate_scale"@ {
        Some(NbtValue::Double(dim.coordinate_scale))
    } else if name == "has_skylight"@ {
        Some(NbtValue::Byte(byte_of(dim.has_skylight)))
    } else if name == "has_ceiling"@ {
        Some(NbtValue::Byte(byte_of(dim.has_ceiling)))
    } else if name == "ultrawarm"@ {
        Some(NbtValue::Byte(byte_of(dim.id == NETHER_ID)))
    } else if name == "natural"@ {
        Some(NbtValue::Byte(byte_of(is_like_overworld(dim.id))))
    } else if name == "piglin_safe"@ {
        Some(NbtValue::Byte(byte_of(dim.id == NETHER_ID)))
    } else if name == "respawn_anchor_works"@ {
        Some(NbtValue::Byte(byte_of(dim.id == NETHER_ID)))
    } else if name == "bed_works"@ {
        Some(NbtValue::Byte(byte_of(is_like_overworld(dim.id))))
    } else if name == "has_raids"@ {
        Some(NbtValue::Byte(byte_of(is_like_overworld(dim.id))))
    } else if name == "effects"@ {
        Some(NbtValue::Text(dim.minecraft_name@))
    } else if name == "monster_spawn_light_level"@ {
        Some(monster_light())
    } else {
        None
    }
}

/// What a client is told of the light in which monsters come up in a dimension.
fn build_monster_light() -> (r: NbtCompound)
    ensures
        NbtValue::Compound(r@, r.held) == monster_light(),
{
    let mut light: NbtCompound = NbtCompound::new();
    light.put_string("type", "minecraft:uniform");
    let mut value: NbtCompound = NbtCompound::new();
    value.put_int("min_inclusive", 0);
    value.put_int("max_inclusive", 7);
    proof {
        reveal(put_under);
        reveal_strlit("type");
        reveal_strlit("value");
        reveal_strlit("min_inclusive");
        reveal_strlit("max_inclusive");
        assert("type"@.len() == 4);
        assert("value"@.len() == 5);
        assert("min_inclusive"@[1] == 'i');
        assert("max_inclusive"@[1] == 'a');
    }
    light.put_compound("value", value);
    light
}

/// What a client is told of a dimension.
pub fn build_dimension_nbt(dim: &DimensionType) -> (r: NbtCompound)
    ensures
        forall|name: Seq<char>| #[trigger] r.spec_get(name) == told_of(*dim, name),
        r.held is None,
{
    let mut nbt: NbtCompound = NbtCompound::new();
    nbt.put("ambient_light", NbtTag::Float(dim.ambient_light));
    nbt.put_int("height", dim.height);
    nbt.put_int("logical_height", dim.logical_height);
    nbt.put_int("min_y", dim.min_y);
    nbt.put_string("infiniburn", dim.infiniburn.as_str());
    nbt.put_int("monster_spawn_block_light_limit", dim.monster_spawn_block_light_limit as i32);
    nbt.put("coordinate_scale", NbtTag::Double(dim.coordinate_scale));
    nbt.put_bool("has_skylight", dim.has_skylight);
    nbt.put_bool("has_ceiling", dim.has_ceiling);
    nbt.put_bool("ultrawarm", dim.id == NETHER_ID);
    nbt.put_bool("natural", dim.id == 0 || dim.id == 1);
    nbt.put_bool("piglin_safe", dim.id == NETHER_ID);
    nbt.put_bool("respawn_anchor_works", dim.id == NETHER_ID);
    nbt.put_bool("bed_works", dim.id == 0 || dim.id == 1);
    nbt.put_bool("has_raids", dim.id == 0 || dim.id == 1);
    nbt.put_string("effects", dim.minecraft_name.as_str());
    nbt.put_compound("monster_spawn_light_level", build_monster_light());
    nbt
}

/// Law: a client is taken up just where it sees something and its hand and its chat are known: the left
/// hand is 0 and the right 1, and of the chat it sees everything, commands only or nothing, from 0 to 2.
/// It then plays as it said; one that is turned away changes nothing, and one that sees nothing is told
/// of that first.
pub proof fn law_client_says_how_it_plays(
    client: &mut JavaClient,
    information: ClientInformation,
    r: Result<(), InformationFault>,
)
    requires
        call_ensures(
            JavaClient::handle_client_information_config,
            (client, &information),
            r,
        ),
    ensures
        r is Ok <==> information.view_distance > 0 && 0 <= information.main_hand <= 1 && 0
            <= information.chat_mode <= 2,
        information.view_distance <= 0 ==> r == Err::<(), _>(InformationFault::ViewDistance),
        information.view_distance > 0 && r is Err ==> r == Err::<(), _>(
            InformationFault::HandOrChat,
        ),
        r is Err ==> *final(client) == *old(client),
        r is Ok ==> {
            let config = final(client).config->0;
            &&& final(client).config is Some
            &&& config.locale@ == information.locale@
            &&& config.view_distance == information.view_distance
            &&& config.chat_colors == information.chat_colors
            &&& config.skin_parts == information.skin_parts
            &&& config.text_filtering == information.text_filtering
            &&& config.server_listing == information.server_listing
            &&& config.main_hand == Hand::Left <==> information.main_hand == 0
            &&& config.main_hand == Hand::Right <==> information.main_hand == 1
            &&& config.chat_mode == ChatMode::Enabled <==> information.chat_mode == 0
            &&& config.chat_mode == ChatMode::CommandsOnly <==> information.chat_mode == 1
            &&& config.chat_mode == ChatMode::Hidden <==> information.chat_mode == 2
        },
        final(client).connection_state == old(client).connection_state,
        final(client).brand == old(client).brand,
        final(client).keep_alive_id == old(client).keep_alive_id,
        final(client).wait_for_keep_alive == old(client).wait_for_keep_alive,
{
}

/// Law: what a client is told says why it is turned away.
pub proof fn law_faults_have_their_messages(view_distance: &'static str, hand_or_chat: &'static str)
    requires
        call_ensures(InformationFault::message, (InformationFault::ViewDistance,), view_distance),
        call_ensures(InformationFault::message, (InformationFault::HandOrChat,), hand_or_chat),
    ensures
        view_distance@ == "Cannot have zero or negative view distance!"@,
        hand_or_chat@ == "Invalid hand or chat type"@,
{
}

/// Law: an answer turns the client away just where it was not asked, or asked something else. Only the
/// right answer counts, and a second one turns the client away.
pub proof fn law_answers_are_held_to_the_question(client: &mut JavaClient, id: i64, r: bool)
    requires
        call_ensures(JavaClient::handle_config_keep_alive, (client, id), r),
    ensures
        r <==> !(old(client).wait_for_keep_alive && old(client).keep_alive_id == id),
        !r ==> !final(client).wait_for_keep_alive,
        r ==> *final(client) == *old(client),
        final(client).keep_alive_id == old(client).keep_alive_id,
        final(client).config == old(client).config,
        final(client).brand == old(client).brand,
        final(client).connection_state == old(client).connection_state,
{
}

/// Law: a client whose configuration ends plays from then on; whether it may is decided first by its
/// profile and then by what speaks against it.
pub proof fn law_configuration_ends_in_play(
    client: &mut JavaClient,
    has_profile: bool,
    refused: bool,
    r: Acknowledged,
)
    requires
        call_ensures(
            JavaClient::handle_config_acknowledged,
            (client, has_profile, refused),
            r,
        ),
    ensures
        final(client).connection_state == ConnectionState::Play,
        r == Acknowledged::NoProfile <==> !has_profile,
        r == Acknowledged::Refused <==> has_profile && refused,
        r is ReadyToPlay <==> has_profile && !refused,
        r is ReadyToPlay ==> (r->has_config <==> old(client).config is Some),
        final(client).config == old(client).config,
        final(client).brand == old(client).brand,
{
}

/// Law: on the channel of the brand, whatever follows its name, a text is taken up as the brand, and on
/// every other nothing is.
pub proof fn law_brand_is_taken_up(
    client: &mut JavaClient,
    channel: &str,
    data: Vec<u8>,
    r: Result<(), String>,
    text: Seq<char>,
)
    requires
        call_ensures(JavaClient::handle_plugin_message, (client, channel, &data), r),
    ensures
        "minecraft:brand"@.is_prefix_of(channel@) && data@ == encode_utf8(text) ==> r is Ok
            && final(client).brand is Some && final(client).brand->0@ == text,
        "minecraft:brand"@.is_prefix_of(channel@) && !valid_utf8(data@) ==> r is Err && final(client).brand == old(client).brand,
        !"minecraft:brand"@.is_prefix_of(channel@) ==> r is Ok && final(client).brand == old(client).brand,
        final(client).config == old(client).config,
        final(client).connection_state == old(client).connection_state,
{
    vstd::utf8::encode_utf8_valid_utf8(text);
    vstd::utf8::encode_utf8_decode_utf8(text);
}

/// Law: the configuration waits only for a client that has accepted the very pack it was sent; one that
/// is sent no pack, answers for another or says anything else is not waited for. The pack is known by
/// the uuid of its url in the namespace of domain names.
pub proof fn law_only_accepted_packs_are_waited_for(
    enabled: bool,
    url: &str,
    answered: u128,
    result: ResourcePackResponseResult,
    r: bool,
    expected: u128,
    given: bool,
)
    requires
        call_ensures(handle_resource_pack_response, (enabled, url, answered, result), r),
        call_ensures(answer_goes_on, (enabled, answered, expected, result), given),
    ensures
        result != ResourcePackResponseResult::Accepted ==> r && given,
        !enabled ==> r && given,
        enabled && result == ResourcePackResponseResult::Accepted ==> {
            &&& given <==> answered != expected
            &&& r <==> answered != uuid_v3(
                0x6ba7b8109dad11d180b400c04fd430c8u128,
                encode_utf8(url@),
            )
        },
{
}

/// Law: a client that is configured gets every registry once, in order, and is told of the dimensions
/// by themselves just where no registry names them; one that is not gets none of these and plays at
/// once. Everyone gets the tags of blocks, fluids, enchantments, biomes, items, entities and dialogs, in
/// this order, and after them those that there are; those of timelines only who knows them.
pub proof fn law_what_known_packs_are_answered(
    version: VersionView,
    registries: Vec<String>,
    r: KnownPacks,
    i: int,
)
    requires
        call_ensures(handle_known_packs, (version, &registries), r),
        registries@.len() <= usize::MAX,
    ensures
        r.acknowledges_itself <==> !version.is_configured,
        !version.is_configured ==> r.registries@.len() == 0 && r.dimensions@.len() == 0,
        version.is_configured ==> r.registries@.len() == registries@.len(),
        version.is_configured && 0 <= i < registries@.len() ==> r.registries@[i] == i,
        version.is_configured && 0 <= i < registries@.len() && registries@[i]@
            == "minecraft:dimension_type"@ ==> r.dimensions@.len() == 0,
        version.is_configured && (forall|j: int|
            0 <= j < registries@.len() ==> (#[trigger] registries@[j])@
                != "minecraft:dimension_type"@) ==> {
            &&& r.dimensions@.len() == 4
            &&& r.dimensions@[0] == DimensionKind::Overworld
            &&& r.dimensions@[1] == DimensionKind::OverworldCaves
            &&& r.dimensions@[2] == DimensionKind::TheEnd
            &&& r.dimensions@[3] == DimensionKind::TheNether
        },
        r.tags@.len() >= 7,
        r.tags@[0] == RegistryKey::Block,
        r.tags@[1] == RegistryKey::Fluid,
        r.tags@[2] == RegistryKey::Enchantment,
        r.tags@[3] == RegistryKey::WorldgenBiome,
        r.tags@[4] == RegistryKey::Item,
        r.tags@[5] == RegistryKey::EntityType,
        r.tags@[6] == RegistryKey::Dialog,
        r.tags@.contains(RegistryKey::Timeline) <==> version.knows_timelines
            && version.has_timeline_tags,
        r.tags@.contains(RegistryKey::DimensionType) <==> version.has_dimension_type_tags,
        r.tags@.contains(RegistryKey::DamageType) <==> version.has_damage_type_tags,
        r.tags@.contains(RegistryKey::BannerPattern) <==> version.has_banner_pattern_tags,
{
    broadcast use crate::plan::lemma_plan_contains;
    broadcast use crate::plan::lemma_only_if_contains;

    assert forall|tag: RegistryKey| #[trigger] common_tags().contains(tag) implies tag
        != RegistryKey::Timeline && tag != RegistryKey::DimensionType && tag
        != RegistryKey::DamageType && tag != RegistryKey::BannerPattern by {}
}

/// Law: a dimension is described by what it is, each under its name. Beds, raids and what is natural
/// belong to the overworld and its caves; piglins, anchors and the heat to the nether.
pub proof fn law_what_a_dimension_is_told_as(dim: DimensionType, r: NbtCompound)
    requires
        call_ensures(build_dimension_nbt, (&dim,), r),
    ensures
        r.spec_get("ambient_light"@) == Some(NbtValue::Float(dim.ambient_light)),
        r.spec_get("height"@) == Some(NbtValue::Int(dim.height)),
        r.spec_get("logical_height"@) == Some(NbtValue::Int(dim.logical_height)),
        r.spec_get("min_y"@) == Some(NbtValue::Int(dim.min_y)),
        r.spec_get("infiniburn"@) == Some(NbtValue::Text(dim.infiniburn@)),
        r.spec_get("monster_spawn_block_light_limit"@) is Some,
        r.spec_get("monster_spawn_block_light_limit"@)->0 is Int,
        r.spec_get("monster_spawn_block_light_limit"@)->0->Int_0
            == dim.monster_spawn_block_light_limit,
        r.spec_get("coordinate_scale"@) == Some(NbtValue::Double(dim.coordinate_scale)),
        r.spec_get("effects"@) == Some(NbtValue::Text(dim.minecraft_name@)),
        r.spec_get("has_skylight"@) == Some(
            NbtValue::Byte(
                if dim.has_skylight {
                    1
                } else {
                    0
                },
            ),
        ),
        r.spec_get("has_ceiling"@) == Some(
            NbtValue::Byte(
                if dim.has_ceiling {
                    1
                } else {
                    0
                },
            ),
        ),
        dim.id <= 1 ==> {
            &&& r.spec_get("natural"@) == Some(NbtValue::Byte(1))
            &&& r.spec_get("bed_works"@) == Some(NbtValue::Byte(1))
            &&& r.spec_get("has_raids"@) == Some(NbtValue::Byte(1))
        },
        dim.id > 1 ==> {
            &&& r.spec_get("natural"@) == Some(NbtValue::Byte(0))
            &&& r.spec_get("bed_works"@) == Some(NbtValue::Byte(0))
            &&& r.spec_get("has_raids"@) == Some(NbtValue::Byte(0))
        },
        dim.id == 3 ==> {
            &&& r.spec_get("ultrawarm"@) == Some(NbtValue::Byte(1))
            &&& r.spec_get("piglin_safe"@) == Some(NbtValue::Byte(1))
            &&& r.spec_get("respawn_anchor_works"@) == Some(NbtValue::Byte(1))
        },
        dim.id != 3 ==> {
            &&& r.spec_get("ultrawarm"@) == Some(NbtValue::Byte(0))
            &&& r.spec_get("piglin_safe"@) == Some(NbtValue::Byte(0))
            &&& r.spec_get("respawn_anchor_works"@) == Some(NbtValue::Byte(0))
        },
        r.spec_get("monster_spawn_light_level"@) is Some,
        r.spec_get("monster_spawn_light_level"@)->0 is Compound,
        ({
            let light = r.spec_get("monster_spawn_light_level"@)->0->Compound_0;
            &&& light.contains_key("type"@) && light["type"@] == NbtValue::Text(
                "minecraft:uniform"@,
            )
            &&& light.contains_key("value"@) && light["value"@] is Compound
            &&& light["value"@]->Compound_0.contains_key("min_inclusive"@)
            &&& light["value"@]->Compound_0["min_inclusive"@] == NbtValue::Int(0)
            &&& light["value"@]->Compound_0.contains_key("max_inclusive"@)
            &&& light["value"@]->Compound_0["max_inclusive"@] == NbtValue::Int(7)
        }),
{
    reveal_strlit("ambient_light");
    reveal_strlit("height");
    reveal_strlit("logical_height");
    reveal_strlit("min_y");
    reveal_strlit("infiniburn");
    reveal_strlit("monster_spawn_block_light_limit");
    reveal_strlit("coordinate_scale");
    reveal_strlit("has_skylight");
    reveal_strlit("has_ceiling");
    reveal_strlit("ultrawarm");
    reveal_strlit("natural");
    reveal_strlit("piglin_safe");
    reveal_strlit("respawn_anchor_works");
    reveal_strlit("bed_works");
    reveal_strlit("has_raids");
    reveal_strlit("effects");
    reveal_strlit("monster_spawn_light_level");
    assert("ambient_light"@.len() == 13);
    assert("height"@.len() == 6);
    assert("logical_height"@.len() == 14);
    assert("min_y"@.len() == 5);
    assert("infiniburn"@.len() == 10);
    assert("monster_spawn_block_light_limit"@.len() == 31);
    assert("coordinate_scale"@.len() == 16);
    assert("has_skylight"@.len() == 12);
    assert("has_ceiling"@.len() == 11);
    assert("ultrawarm"@.len() == 9);
    assert("natural"@.len() == 7);
    assert("piglin_safe"@.len() == 11);
    assert("respawn_anchor_works"@.len() == 20);
    assert("bed_works"@.len() == 9);
    assert("has_raids"@.len() == 9);
    assert("effects"@.len() == 7);
    assert("monster_spawn_light_level"@.len() == 25);
    assert("has_ceiling"@[0] == 'h');
    assert("piglin_safe"@[0] == 'p');
    assert("ultrawarm"@[0] == 'u');
    assert("bed_works"@[0] == 'b');
    assert("has_raids"@[0] == 'h');
    assert("natural"@[0] == 'n');
    assert("effects"@[0] == 'e');
    reveal_strlit("type");
    reveal_strlit("value");
    reveal_strlit("min_inclusive");
    reveal_strlit("max_inclusive");
    assert("type"@.len() == 4);
    assert("value"@.len() == 5);
    assert("min_inclusive"@[1] == 'i');
    assert("max_inclusive"@[1] == 'a');
}

} // verus!
