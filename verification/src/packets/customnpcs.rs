//! The `CustomNPCs` channel: its packet kinds on both sides, and what can
//! be shown of a packet without reading its nested data.
//!
//! A packet is a four-byte kind, most significant byte first, then the
//! fields of that kind. Text is a two-byte count of UTF-16 code units and the
//! units, each of two bytes. Nested data is not read: only its size is shown.

use crate::custom_payload::{
    flat_fields, CustomPayloadDecoder, DecodedStruct, DecoderRegistry, FlatField, ModDecoder,
};
use crate::packets::layout::{
    fm, fmc, fs, fsc, layout_models, read_fields, shows, spec_read_fields, FieldKind, FieldModel,
    FieldSpec,
};
use crate::packets::reader::ModPacketReader;
use crate::packets::{spec_u32_be, Bound};
use vstd::prelude::*;
use vstd::string::StringExecFns;

verus! {

/// The name of the channel.
pub const CHANNEL: &'static str = "CustomNPCs";

/// The kinds of packets bound for the client.
#[allow(non_camel_case_types)]
#[derive(Clone, Copy, Debug, PartialEq, Eq, Structural)]
pub enum EnumPacketClient {
    CHAT,
    MESSAGE,
    SYNCRECIPES_ADD,
    SYNCRECIPES_WORKBENCH,
    DIALOG,
    QUEST_COMPLETION,
    EDIT_NPC,
    PLAY_SOUND,
    PLAY_MUSIC,
    UPDATE_NPC,
    ROLE,
    GUI,
    SCRIPTED_PARTICLE,
    PARTICLE,
    DELETE_NPC,
    SCROLL_LIST,
    SCROLL_DATA,
    SCROLL_DATA_PART,
    SCROLL_SELECTED,
    GUI_REDSTONE,
    GUI_WAYPOINT,
    GUI_DATA,
    GUI_ERROR,
    GUI_CLOSE,
    VILLAGER_LIST,
    CHATBUBBLE,
    SYNCRECIPES_CARPENTRYBENCH,
    CLONE,
    OPEN_BOOK,
    DIALOG_DUMMY,
    CONFIG,
    ISGUIOPEN,
    SCRIPT_OVERLAY_DATA,
    SCRIPT_OVERLAY_CLOSE,
    SWING_PLAYER_ARM,
    UPDATE_ITEM,
    PLAYER_UPDATE_SKIN_OVERLAYS,
    UPDATE_ANIMATIONS,
    OVERLAY_QUEST_TRACKING,
    DISABLE_MOUSE_INPUT,
    PLAY_SOUND_TO,
    PLAY_SOUND_TO_NO_ID,
    STOP_SOUND_FOR,
    PAUSE_SOUNDS,
    CONTINUE_SOUNDS,
    STOP_SOUNDS,
}

impl EnumPacketClient {
    /// The number that stands for this kind on the wire.
    pub open spec fn spec_id(self) -> i32 {
        match self {
            EnumPacketClient::CHAT => 0,
            EnumPacketClient::MESSAGE => 1,
            EnumPacketClient::SYNCRECIPES_ADD => 2,
            EnumPacketClient::SYNCRECIPES_WORKBENCH => 3,
            EnumPacketClient::DIALOG => 4,
            EnumPacketClient::QUEST_COMPLETION => 5,
            EnumPacketClient::EDIT_NPC => 6,
            EnumPacketClient::PLAY_SOUND => 7,
            EnumPacketClient::PLAY_MUSIC => 8,
            EnumPacketClient::UPDATE_NPC => 9,
            EnumPacketClient::ROLE => 10,
            EnumPacketClient::GUI => 11,
            EnumPacketClient::SCRIPTED_PARTICLE => 12,
            EnumPacketClient::PARTICLE => 13,
            EnumPacketClient::DELETE_NPC => 14,
            EnumPacketClient::SCROLL_LIST => 15,
            EnumPacketClient::SCROLL_DATA => 16,
            EnumPacketClient::SCROLL_DATA_PART => 17,
            EnumPacketClient::SCROLL_SELECTED => 18,
            EnumPacketClient::GUI_REDSTONE => 19,
            EnumPacketClient::GUI_WAYPOINT => 20,
            EnumPacketClient::GUI_DATA => 21,
            EnumPacketClient::GUI_ERROR => 22,
            EnumPacketClient::GUI_CLOSE => 23,
            EnumPacketClient::VILLAGER_LIST => 24,
            EnumPacketClient::CHATBUBBLE => 25,
            EnumPacketClient::SYNCRECIPES_CARPENTRYBENCH => 26,
            EnumPacketClient::CLONE => 27,
            EnumPacketClient::OPEN_BOOK => 28,
            EnumPacketClient::DIALOG_DUMMY => 29,
            EnumPacketClient::CONFIG => 30,
            EnumPacketClient::ISGUIOPEN => 31,
            EnumPacketClient::SCRIPT_OVERLAY_DATA => 32,
            EnumPacketClient::SCRIPT_OVERLAY_CLOSE => 33,
            EnumPacketClient::SWING_PLAYER_ARM => 34,
            EnumPacketClient::UPDATE_ITEM => 35,
            EnumPacketClient::PLAYER_UPDATE_SKIN_OVERLAYS => 36,
            EnumPacketClient::UPDATE_ANIMATIONS => 37,
            EnumPacketClient::OVERLAY_QUEST_TRACKING => 38,
            EnumPacketClient::DISABLE_MOUSE_INPUT => 39,
            EnumPacketClient::PLAY_SOUND_TO => 40,
            EnumPacketClient::PLAY_SOUND_TO_NO_ID => 41,
            EnumPacketClient::STOP_SOUND_FOR => 42,
            EnumPacketClient::PAUSE_SOUNDS => 43,
            EnumPacketClient::CONTINUE_SOUNDS => 44,
            EnumPacketClient::STOP_SOUNDS => 45,
        }
    }

    /// The kind that `id` stands for.
    pub open spec fn spec_from_id(id: i32) -> Option<EnumPacketClient> {
        if id == 0 {
            Some(EnumPacketClient::CHAT)
        } else if id == 1 {
            Some(EnumPacketClient::MESSAGE)
        } else if id == 2 {
            Some(EnumPacketClient::SYNCRECIPES_ADD)
        } else if id == 3 {
            Some(EnumPacketClient::SYNCRECIPES_WORKBENCH)
        } else if id == 4 {
            Some(EnumPacketClient::DIALOG)
        } else if id == 5 {
            Some(EnumPacketClient::QUEST_COMPLETION)
        } else if id == 6 {
            Some(EnumPacketClient::EDIT_NPC)
        } else if id == 7 {
            Some(EnumPacketClient::PLAY_SOUND)
        } else if id == 8 {
            Some(EnumPacketClient::PLAY_MUSIC)
        } else if id == 9 {
            Some(EnumPacketClient::UPDATE_NPC)
        } else if id == 10 {
            Some(EnumPacketClient::ROLE)
        } else if id == 11 {
            Some(EnumPacketClient::GUI)
        } else if id == 12 {
            Some(EnumPacketClient::SCRIPTED_PARTICLE)
        } else if id == 13 {
            Some(EnumPacketClient::PARTICLE)
        } else if id == 14 {
            Some(EnumPacketClient::DELETE_NPC)
        } else if id == 15 {
            Some(EnumPacketClient::SCROLL_LIST)
        } else if id == 16 {
            Some(EnumPacketClient::SCROLL_DATA)
        } else if id == 17 {
            Some(EnumPacketClient::SCROLL_DATA_PART)
        } else if id == 18 {
            Some(EnumPacketClient::SCROLL_SELECTED)
        } else if id == 19 {
            Some(EnumPacketClient::GUI_REDSTONE)
        } else if id == 20 {
            Some(EnumPacketClient::GUI_WAYPOINT)
        } else if id == 21 {
            Some(EnumPacketClient::GUI_DATA)
        } else if id == 22 {
            Some(EnumPacketClient::GUI_ERROR)
        } else if id == 23 {
            Some(EnumPacketClient::GUI_CLOSE)
        } else if id == 24 {
            Some(EnumPacketClient::VILLAGER_LIST)
        } else if id == 25 {
            Some(EnumPacketClient::CHATBUBBLE)
        } else if id == 26 {
            Some(EnumPacketClient::SYNCRECIPES_CARPENTRYBENCH)
        } else if id == 27 {
            Some(EnumPacketClient::CLONE)
        } else if id == 28 {
            Some(EnumPacketClient::OPEN_BOOK)
        } else if id == 29 {
            Some(EnumPacketClient::DIALOG_DUMMY)
        } else if id == 30 {
            Some(EnumPacketClient::CONFIG)
        } else if id == 31 {
            Some(EnumPacketClient::ISGUIOPEN)
        } else if id == 32 {
            Some(EnumPacketClient::SCRIPT_OVERLAY_DATA)
        } else if id == 33 {
            Some(EnumPacketClient::SCRIPT_OVERLAY_CLOSE)
        } else if id == 34 {
            Some(EnumPacketClient::SWING_PLAYER_ARM)
        } else if id == 35 {
            Some(EnumPacketClient::UPDATE_ITEM)
        } else if id == 36 {
            Some(EnumPacketClient::PLAYER_UPDATE_SKIN_OVERLAYS)
        } else if id == 37 {
            Some(EnumPacketClient::UPDATE_ANIMATIONS)
        } else if id == 38 {
            Some(EnumPacketClient::OVERLAY_QUEST_TRACKING)
        } else if id == 39 {
            Some(EnumPacketClient::DISABLE_MOUSE_INPUT)
        } else if id == 40 {
            Some(EnumPacketClient::PLAY_SOUND_TO)
        } else if id == 41 {
            Some(EnumPacketClient::PLAY_SOUND_TO_NO_ID)
        } else if id == 42 {
            Some(EnumPacketClient::STOP_SOUND_FOR)
        } else if id == 43 {
            Some(EnumPacketClient::PAUSE_SOUNDS)
        } else if id == 44 {
            Some(EnumPacketClient::CONTINUE_SOUNDS)
        } else if id == 45 {
            Some(EnumPacketClient::STOP_SOUNDS)
        } else {
            None
        }
    }

    /// The name of this kind.
    pub open spec fn spec_name(self) -> Seq<char> {
        match self {
            EnumPacketClient::CHAT => "CHAT"@,
            EnumPacketClient::MESSAGE => "MESSAGE"@,
            EnumPacketClient::SYNCRECIPES_ADD => "SYNCRECIPES_ADD"@,
            EnumPacketClient::SYNCRECIPES_WORKBENCH => "SYNCRECIPES_WORKBENCH"@,
            EnumPacketClient::DIALOG => "DIALOG"@,
            EnumPacketClient::QUEST_COMPLETION => "QUEST_COMPLETION"@,
            EnumPacketClient::EDIT_NPC => "EDIT_NPC"@,
            EnumPacketClient::PLAY_SOUND => "PLAY_SOUND"@,
            EnumPacketClient::PLAY_MUSIC => "PLAY_MUSIC"@,
            EnumPacketClient::UPDATE_NPC => "UPDATE_NPC"@,
            EnumPacketClient::ROLE => "ROLE"@,
            EnumPacketClient::GUI => "GUI"@,
            EnumPacketClient::SCRIPTED_PARTICLE => "SCRIPTED_PARTICLE"@,
            EnumPacketClient::PARTICLE => "PARTICLE"@,
            EnumPacketClient::DELETE_NPC => "DELETE_NPC"@,
            EnumPacketClient::SCROLL_LIST => "SCROLL_LIST"@,
            EnumPacketClient::SCROLL_DATA => "SCROLL_DATA"@,
            EnumPacketClient::SCROLL_DATA_PART => "SCROLL_DATA_PART"@,
            EnumPacketClient::SCROLL_SELECTED => "SCROLL_SELECTED"@,
            EnumPacketClient::GUI_REDSTONE => "GUI_REDSTONE"@,
            EnumPacketClient::GUI_WAYPOINT => "GUI_WAYPOINT"@,
            EnumPacketClient::GUI_DATA => "GUI_DATA"@,
            EnumPacketClient::GUI_ERROR => "GUI_ERROR"@,
            EnumPacketClient::GUI_CLOSE => "GUI_CLOSE"@,
            EnumPacketClient::VILLAGER_LIST => "VILLAGER_LIST"@,
            EnumPacketClient::CHATBUBBLE => "CHATBUBBLE"@,
            EnumPacketClient::SYNCRECIPES_CARPENTRYBENCH => "SYNCRECIPES_CARPENTRYBENCH"@,
            EnumPacketClient::CLONE => "CLONE"@,
            EnumPacketClient::OPEN_BOOK => "OPEN_BOOK"@,
            EnumPacketClient::DIALOG_DUMMY => "DIALOG_DUMMY"@,
            EnumPacketClient::CONFIG => "CONFIG"@,
            EnumPacketClient::ISGUIOPEN => "ISGUIOPEN"@,
            EnumPacketClient::SCRIPT_OVERLAY_DATA => "SCRIPT_OVERLAY_DATA"@,
            EnumPacketClient::SCRIPT_OVERLAY_CLOSE => "SCRIPT_OVERLAY_CLOSE"@,
            EnumPacketClient::SWING_PLAYER_ARM => "SWING_PLAYER_ARM"@,
            EnumPacketClient::UPDATE_ITEM => "UPDATE_ITEM"@,
            EnumPacketClient::PLAYER_UPDATE_SKIN_OVERLAYS => "PLAYER_UPDATE_SKIN_OVERLAYS"@,
            EnumPacketClient::UPDATE_ANIMATIONS => "UPDATE_ANIMATIONS"@,
            EnumPacketClient::OVERLAY_QUEST_TRACKING => "OVERLAY_QUEST_TRACKING"@,
            EnumPacketClient::DISABLE_MOUSE_INPUT => "DISABLE_MOUSE_INPUT"@,
            EnumPacketClient::PLAY_SOUND_TO => "PLAY_SOUND_TO"@,
            EnumPacketClient::PLAY_SOUND_TO_NO_ID => "PLAY_SOUND_TO_NO_ID"@,
            EnumPacketClient::STOP_SOUND_FOR => "STOP_SOUND_FOR"@,
            EnumPacketClient::PAUSE_SOUNDS => "PAUSE_SOUNDS"@,
            EnumPacketClient::CONTINUE_SOUNDS => "CONTINUE_SOUNDS"@,
            EnumPacketClient::STOP_SOUNDS => "STOP_SOUNDS"@,
        }
    }

    /// The number that stands for this kind on the wire.
    pub fn id(&self) -> (r: i32)
        ensures
            r == self.spec_id(),
    {
        match self {
            EnumPacketClient::CHAT => 0,
            EnumPacketClient::MESSAGE => 1,
            EnumPacketClient::SYNCRECIPES_ADD => 2,
            EnumPacketClient::SYNCRECIPES_WORKBENCH => 3,
            EnumPacketClient::DIALOG => 4,
            EnumPacketClient::QUEST_COMPLETION => 5,
            EnumPacketClient::EDIT_NPC => 6,
            EnumPacketClient::PLAY_SOUND => 7,
            EnumPacketClient::PLAY_MUSIC => 8,
            EnumPacketClient::UPDATE_NPC => 9,
            EnumPacketClient::ROLE => 10,
            EnumPacketClient::GUI => 11,
            EnumPacketClient::SCRIPTED_PARTICLE => 12,
            EnumPacketClient::PARTICLE => 13,
            EnumPacketClient::DELETE_NPC => 14,
            EnumPacketClient::SCROLL_LIST => 15,
            EnumPacketClient::SCROLL_DATA => 16,
            EnumPacketClient::SCROLL_DATA_PART => 17,
            EnumPacketClient::SCROLL_SELECTED => 18,
            EnumPacketClient::GUI_REDSTONE => 19,
            EnumPacketClient::GUI_WAYPOINT => 20,
            EnumPacketClient::GUI_DATA => 21,
            EnumPacketClient::GUI_ERROR => 22,
            EnumPacketClient::GUI_CLOSE => 23,
            EnumPacketClient::VILLAGER_LIST => 24,
            EnumPacketClient::CHATBUBBLE => 25,
            EnumPacketClient::SYNCRECIPES_CARPENTRYBENCH => 26,
            EnumPacketClient::CLONE => 27,
            EnumPacketClient::OPEN_BOOK => 28,
            EnumPacketClient::DIALOG_DUMMY => 29,
            EnumPacketClient::CONFIG => 30,
            EnumPacketClient::ISGUIOPEN => 31,
            EnumPacketClient::SCRIPT_OVERLAY_DATA => 32,
            EnumPacketClient::SCRIPT_OVERLAY_CLOSE => 33,
            EnumPacketClient::SWING_PLAYER_ARM => 34,
            EnumPacketClient::UPDATE_ITEM => 35,
            EnumPacketClient::PLAYER_UPDATE_SKIN_OVERLAYS => 36,
            EnumPacketClient::UPDATE_ANIMATIONS => 37,
            EnumPacketClient::OVERLAY_QUEST_TRACKING => 38,
            EnumPacketClient::DISABLE_MOUSE_INPUT => 39,
            EnumPacketClient::PLAY_SOUND_TO => 40,
            EnumPacketClient::PLAY_SOUND_TO_NO_ID => 41,
            EnumPacketClient::STOP_SOUND_FOR => 42,
            EnumPacketClient::PAUSE_SOUNDS => 43,
            EnumPacketClient::CONTINUE_SOUNDS => 44,
            EnumPacketClient::STOP_SOUNDS => 45,
        }
    }

    /// The kind that `id` stands for, `None` when it stands for none.
    pub fn from_id(id: i32) -> (r: Option<Self>)
        ensures
            r == Self::spec_from_id(id),
            r is Some ==> r->0.spec_id() == id,
            r is None ==> id < 0 || id > 45,
    {
        match id {
            0 => Some(EnumPacketClient::CHAT),
            1 => Some(EnumPacketClient::MESSAGE),
            2 => Some(EnumPacketClient::SYNCRECIPES_ADD),
            3 => Some(EnumPacketClient::SYNCRECIPES_WORKBENCH),
            4 => Some(EnumPacketClient::DIALOG),
            5 => Some(EnumPacketClient::QUEST_COMPLETION),
            6 => Some(EnumPacketClient::EDIT_NPC),
            7 => Some(EnumPacketClient::PLAY_SOUND),
            8 => Some(EnumPacketClient::PLAY_MUSIC),
            9 => Some(EnumPacketClient::UPDATE_NPC),
            10 => Some(EnumPacketClient::ROLE),
            11 => Some(EnumPacketClient::GUI),
            12 => Some(EnumPacketClient::SCRIPTED_PARTICLE),
            13 => Some(EnumPacketClient::PARTICLE),
            14 => Some(EnumPacketClient::DELETE_NPC),
            15 => Some(EnumPacketClient::SCROLL_LIST),
            16 => Some(EnumPacketClient::SCROLL_DATA),
            17 => Some(EnumPacketClient::SCROLL_DATA_PART),
            18 => Some(EnumPacketClient::SCROLL_SELECTED),
            19 => Some(EnumPacketClient::GUI_REDSTONE),
            20 => Some(EnumPacketClient::GUI_WAYPOINT),
            21 => Some(EnumPacketClient::GUI_DATA),
            22 => Some(EnumPacketClient::GUI_ERROR),
            23 => Some(EnumPacketClient::GUI_CLOSE),
            24 => Some(EnumPacketClient::VILLAGER_LIST),
            25 => Some(EnumPacketClient::CHATBUBBLE),
            26 => Some(EnumPacketClient::SYNCRECIPES_CARPENTRYBENCH),
            27 => Some(EnumPacketClient::CLONE),
            28 => Some(EnumPacketClient::OPEN_BOOK),
            29 => Some(EnumPacketClient::DIALOG_DUMMY),
            30 => Some(EnumPacketClient::CONFIG),
            31 => Some(EnumPacketClient::ISGUIOPEN),
            32 => Some(EnumPacketClient::SCRIPT_OVERLAY_DATA),
            33 => Some(EnumPacketClient::SCRIPT_OVERLAY_CLOSE),
            34 => Some(EnumPacketClient::SWING_PLAYER_ARM),
            35 => Some(EnumPacketClient::UPDATE_ITEM),
            36 => Some(EnumPacketClient::PLAYER_UPDATE_SKIN_OVERLAYS),
            37 => Some(EnumPacketClient::UPDATE_ANIMATIONS),
            38 => Some(EnumPacketClient::OVERLAY_QUEST_TRACKING),
            39 => Some(EnumPacketClient::DISABLE_MOUSE_INPUT),
            40 => Some(EnumPacketClient::PLAY_SOUND_TO),
            41 => Some(EnumPacketClient::PLAY_SOUND_TO_NO_ID),
            42 => Some(EnumPacketClient::STOP_SOUND_FOR),
            43 => Some(EnumPacketClient::PAUSE_SOUNDS),
            44 => Some(EnumPacketClient::CONTINUE_SOUNDS),
            45 => Some(EnumPacketClient::STOP_SOUNDS),
            _ => None,
        }
    }

    /// The name of this kind.
    pub fn name(&self) -> (r: &'static str)
        ensures
            r@ == self.spec_name(),
    {
        match self {
            EnumPacketClient::CHAT => "CHAT",
            EnumPacketClient::MESSAGE => "MESSAGE",
            EnumPacketClient::SYNCRECIPES_ADD => "SYNCRECIPES_ADD",
            EnumPacketClient::SYNCRECIPES_WORKBENCH => "SYNCRECIPES_WORKBENCH",
            EnumPacketClient::DIALOG => "DIALOG",
            EnumPacketClient::QUEST_COMPLETION => "QUEST_COMPLETION",
            EnumPacketClient::EDIT_NPC => "EDIT_NPC",
            EnumPacketClient::PLAY_SOUND => "PLAY_SOUND",
            EnumPacketClient::PLAY_MUSIC => "PLAY_MUSIC",
            EnumPacketClient::UPDATE_NPC => "UPDATE_NPC",
            EnumPacketClient::ROLE => "ROLE",
            EnumPacketClient::GUI => "GUI",
            EnumPacketClient::SCRIPTED_PARTICLE => "SCRIPTED_PARTICLE",
            EnumPacketClient::PARTICLE => "PARTICLE",
            EnumPacketClient::DELETE_NPC => "DELETE_NPC",
            EnumPacketClient::SCROLL_LIST => "SCROLL_LIST",
            EnumPacketClient::SCROLL_DATA => "SCROLL_DATA",
            EnumPacketClient::SCROLL_DATA_PART => "SCROLL_DATA_PART",
            EnumPacketClient::SCROLL_SELECTED => "SCROLL_SELECTED",
            EnumPacketClient::GUI_REDSTONE => "GUI_REDSTONE",
            EnumPacketClient::GUI_WAYPOINT => "GUI_WAYPOINT",
            EnumPacketClient::GUI_DATA => "GUI_DATA",
            EnumPacketClient::GUI_ERROR => "GUI_ERROR",
            EnumPacketClient::GUI_CLOSE => "GUI_CLOSE",
            EnumPacketClient::VILLAGER_LIST => "VILLAGER_LIST",
            EnumPacketClient::CHATBUBBLE => "CHATBUBBLE",
            EnumPacketClient::SYNCRECIPES_CARPENTRYBENCH => "SYNCRECIPES_CARPENTRYBENCH",
            EnumPacketClient::CLONE => "CLONE",
            EnumPacketClient::OPEN_BOOK => "OPEN_BOOK",
            EnumPacketClient::DIALOG_DUMMY => "DIALOG_DUMMY",
            EnumPacketClient::CONFIG => "CONFIG",
            EnumPacketClient::ISGUIOPEN => "ISGUIOPEN",
            EnumPacketClient::SCRIPT_OVERLAY_DATA => "SCRIPT_OVERLAY_DATA",
            EnumPacketClient::SCRIPT_OVERLAY_CLOSE => "SCRIPT_OVERLAY_CLOSE",
            EnumPacketClient::SWING_PLAYER_ARM => "SWING_PLAYER_ARM",
            EnumPacketClient::UPDATE_ITEM => "UPDATE_ITEM",
            EnumPacketClient::PLAYER_UPDATE_SKIN_OVERLAYS => "PLAYER_UPDATE_SKIN_OVERLAYS",
            EnumPacketClient::UPDATE_ANIMATIONS => "UPDATE_ANIMATIONS",
            EnumPacketClient::OVERLAY_QUEST_TRACKING => "OVERLAY_QUEST_TRACKING",
            EnumPacketClient::DISABLE_MOUSE_INPUT => "DISABLE_MOUSE_INPUT",
            EnumPacketClient::PLAY_SOUND_TO => "PLAY_SOUND_TO",
            EnumPacketClient::PLAY_SOUND_TO_NO_ID => "PLAY_SOUND_TO_NO_ID",
            EnumPacketClient::STOP_SOUND_FOR => "STOP_SOUND_FOR",
            EnumPacketClient::PAUSE_SOUNDS => "PAUSE_SOUNDS",
            EnumPacketClient::CONTINUE_SOUNDS => "CONTINUE_SOUNDS",
            EnumPacketClient::STOP_SOUNDS => "STOP_SOUNDS",
        }
    }

    /// Every kind is found again from its number.
    pub proof fn lemma_id_round_trip(self)
        ensures
            Self::spec_from_id(self.spec_id()) == Some(self),
    {
    }

    /// A number stands for at most one kind, and only for the kind it is the number of.
    pub proof fn lemma_from_id_is_inverse(id: i32)
        ensures
            Self::spec_from_id(id) is Some ==> Self::spec_from_id(id)->0.spec_id() == id,
            Self::spec_from_id(id) is None <==> (id < 0 || id > 45),
    {
    }
}

/// The kinds of packets bound for the server.
#[allow(non_camel_case_types)]
#[derive(Clone, Copy, Debug, PartialEq, Eq, Structural)]
pub enum EnumPacketServer {
    Delete,
    RemoteMainMenu,
    NpcMenuClose,
    RemoteDelete,
    RemoteFreeze,
    RemoteReset,
    SpawnMob,
    MobSpawner,
    MainmenuAISave,
    MainmenuAIGet,
    MainmenuInvSave,
    MainmenuInvGet,
    MainmenuStatsSave,
    MainmenuStatsGet,
    MainmenuDisplaySave,
    MainmenuDisplayGet,
    ModelDataSave,
    MainmenuAdvancedSave,
    MainmenuAdvancedGet,
    DialogNpcSet,
    DialogNpcRemove,
    FactionSet,
    TagSet,
    TransportSave,
    TransformSave,
    TransformGet,
    TransformLoad,
    TraderMarketSave,
    JobSave,
    JobGet,
    RoleSave,
    RoleGet,
    JobSpawnerAdd,
    JobSpawnerRemove,
    RoleCompanionUpdate,
    LinkedSet,
    ClonePreSave,
    CloneSave,
    CloneRemove,
    CloneList,
    CloneTagList,
    CloneAllTags,
    CloneAllTagsShort,
    ScriptGlobalGuiDataSave,
    ScriptGlobalGuiDataGet,
    ScriptPlayerSave,
    ScriptPlayerGet,
    ScriptForgeSave,
    ScriptForgeGet,
    ScriptGlobalNPCSave,
    ScriptGlobalNPCGet,
    ScriptItemDataSave,
    ScriptItemDataGet,
    LinkedGetAll,
    LinkedRemove,
    LinkedAdd,
    ScriptDataSave,
    ScriptDataGet,
    EventScriptDataSave,
    EventScriptDataGet,
    PlayerDataRemove,
    PlayerDataRegen,
    BankSave,
    BanksGet,
    BankGet,
    BankRemove,
    DialogCategorySave,
    DialogCategoriesGet,
    DialogsGetFromDialog,
    DialogCategoryRemove,
    DialogCategoryGet,
    DialogSave,
    DialogsGet,
    DialogGet,
    DialogRemove,
    TransportCategoryRemove,
    TransportGetLocation,
    TransportRemove,
    TransportsGet,
    TransportCategorySave,
    TransportCategoriesGet,
    FactionRemove,
    FactionSave,
    FactionsGet,
    FactionGet,
    TagRemove,
    TagSave,
    TagsGet,
    TagGet,
    NpcTagsGet,
    QuestCategorySave,
    QuestCategoriesGet,
    QuestRemove,
    QuestCategoryRemove,
    QuestRewardSave,
    QuestSave,
    QuestsGetFromQuest,
    QuestsGet,
    QuestDialogGetTitle,
    RecipeSave,
    RecipeRemove,
    NaturalSpawnSave,
    NaturalSpawnGet,
    NaturalSpawnRemove,
    MerchantUpdate,
    PlayerRider,
    SpawnRider,
    MovingPathSave,
    MovingPathGet,
    DialogNpcGet,
    AnimationListGet,
    AnimationGet,
    AnimationAdd,
    AnimationDelete,
    AnimationSave,
    RecipesGet,
    RecipeGet,
    QuestOpenGui,
    PlayerDataGet,
    RemoteNpcsGet,
    RemoteTpToNpc,
    QuestGet,
    QuestCategoryGet,
    SaveTileEntity,
    NaturalSpawnGetAll,
    MailOpenSetup,
    DimensionsGet,
    DimensionTeleport,
    GetTileEntity,
    Gui,
    IsGuiOpen,
    CustomGuiButton,
    CustomGuiScrollClick,
    CustomGuiClose,
    CustomGuiUnfocused,
    ServerUpdateSkinOverlays,
}

impl EnumPacketServer {
    /// The number that stands for this kind on the wire.
    pub open spec fn spec_id(self) -> i32 {
        match self {
            EnumPacketServer::Delete => 0,
            EnumPacketServer::RemoteMainMenu => 1,
            EnumPacketServer::NpcMenuClose => 2,
            EnumPacketServer::RemoteDelete => 3,
            EnumPacketServer::RemoteFreeze => 4,
            EnumPacketServer::RemoteReset => 5,
            EnumPacketServer::SpawnMob => 6,
            EnumPacketServer::MobSpawner => 7,
            EnumPacketServer::MainmenuAISave => 8,
            EnumPacketServer::MainmenuAIGet => 9,
            EnumPacketServer::MainmenuInvSave => 10,
            EnumPacketServer::MainmenuInvGet => 11,
            EnumPacketServer::MainmenuStatsSave => 12,
            EnumPacketServer::MainmenuStatsGet => 13,
            EnumPacketServer::MainmenuDisplaySave => 14,
            EnumPacketServer::MainmenuDisplayGet => 15,
            EnumPacketServer::ModelDataSave => 16,
            EnumPacketServer::MainmenuAdvancedSave => 17,
            EnumPacketServer::MainmenuAdvancedGet => 18,
            EnumPacketServer::DialogNpcSet => 19,
            EnumPacketServer::DialogNpcRemove => 20,
            EnumPacketServer::FactionSet => 21,
            EnumPacketServer::TagSet => 22,
            EnumPacketServer::TransportSave => 23,
            EnumPacketServer::TransformSave => 24,
            EnumPacketServer::TransformGet => 25,
            EnumPacketServer::TransformLoad => 26,
            EnumPacketServer::TraderMarketSave => 27,
            EnumPacketServer::JobSave => 28,
            EnumPacketServer::JobGet => 29,
            EnumPacketServer::RoleSave => 30,
            EnumPacketServer::RoleGet => 31,
            EnumPacketServer::JobSpawnerAdd => 32,
            EnumPacketServer::JobSpawnerRemove => 33,
            EnumPacketServer::RoleCompanionUpdate => 34,
            EnumPacketServer::LinkedSet => 35,
            EnumPacketServer::ClonePreSave => 36,
            EnumPacketServer::CloneSave => 37,
            EnumPacketServer::CloneRemove => 38,
            EnumPacketServer::CloneList => 39,
            EnumPacketServer::CloneTagList => 40,
            EnumPacketServer::CloneAllTags => 41,
            EnumPacketServer::CloneAllTagsShort => 42,
            EnumPacketServer::ScriptGlobalGuiDataSave => 43,
            EnumPacketServer::ScriptGlobalGuiDataGet => 44,
            EnumPacketServer::ScriptPlayerSave => 45,
            EnumPacketServer::ScriptPlayerGet => 46,
            EnumPacketServer::ScriptForgeSave => 47,
            EnumPacketServer::ScriptForgeGet => 48,
            EnumPacketServer::ScriptGlobalNPCSave => 49,
            EnumPacketServer::ScriptGlobalNPCGet => 50,
            EnumPacketServer::ScriptItemDataSave => 51,
            EnumPacketServer::ScriptItemDataGet => 52,
            EnumPacketServer::LinkedGetAll => 53,
            EnumPacketServer::LinkedRemove => 54,
            EnumPacketServer::LinkedAdd => 55,
            EnumPacketServer::ScriptDataSave => 56,
            EnumPacketServer::ScriptDataGet => 57,
            EnumPacketServer::EventScriptDataSave => 58,
            EnumPacketServer::EventScriptDataGet => 59,
            EnumPacketServer::PlayerDataRemove => 60,
            EnumPacketServer::PlayerDataRegen => 61,
            EnumPacketServer::BankSave => 62,
            EnumPacketServer::BanksGet => 63,
            EnumPacketServer::BankGet => 64,
            EnumPacketServer::BankRemove => 65,
            EnumPacketServer::DialogCategorySave => 66,
            EnumPacketServer::DialogCategoriesGet => 67,
            EnumPacketServer::DialogsGetFromDialog => 68,
            EnumPacketServer::DialogCategoryRemove => 69,
            EnumPacketServer::DialogCategoryGet => 70,
            EnumPacketServer::DialogSave => 71,
            EnumPacketServer::DialogsGet => 72,
            EnumPacketServer::DialogGet => 73,
            EnumPacketServer::DialogRemove => 74,
            EnumPacketServer::TransportCategoryRemove => 75,
            EnumPacketServer::TransportGetLocation => 76,
            EnumPacketServer::TransportRemove => 77,
            EnumPacketServer::TransportsGet => 78,
            EnumPacketServer::TransportCategorySave => 79,
            EnumPacketServer::TransportCategoriesGet => 80,
            EnumPacketServer::FactionRemove => 81,
            EnumPacketServer::FactionSave => 82,
            EnumPacketServer::FactionsGet => 83,
            EnumPacketServer::FactionGet => 84,
            EnumPacketServer::TagRemove => 85,
            EnumPacketServer::TagSave => 86,
            EnumPacketServer::TagsGet => 87,
            EnumPacketServer::TagGet => 88,
            EnumPacketServer::NpcTagsGet => 89,
            EnumPacketServer::QuestCategorySave => 90,
            EnumPacketServer::QuestCategoriesGet => 91,
            EnumPacketServer::QuestRemove => 92,
            EnumPacketServer::QuestCategoryRemove => 93,
            EnumPacketServer::QuestRewardSave => 94,
            EnumPacketServer::QuestSave => 95,
            EnumPacketServer::QuestsGetFromQuest => 96,
            EnumPacketServer::QuestsGet => 97,
            EnumPacketServer::QuestDialogGetTitle => 98,
            EnumPacketServer::RecipeSave => 99,
            EnumPacketServer::RecipeRemove => 100,
            EnumPacketServer::NaturalSpawnSave => 101,
            EnumPacketServer::NaturalSpawnGet => 102,
            EnumPacketServer::NaturalSpawnRemove => 103,
            EnumPacketServer::MerchantUpdate => 104,
            EnumPacketServer::PlayerRider => 105,
            EnumPacketServer::SpawnRider => 106,
            EnumPacketServer::MovingPathSave => 107,
            EnumPacketServer::MovingPathGet => 108,
            EnumPacketServer::DialogNpcGet => 109,
            EnumPacketServer::AnimationListGet => 110,
            EnumPacketServer::AnimationGet => 111,
            EnumPacketServer::AnimationAdd => 112,
            EnumPacketServer::AnimationDelete => 113,
            EnumPacketServer::AnimationSave => 114,
            EnumPacketServer::RecipesGet => 115,
            EnumPacketServer::RecipeGet => 116,
            EnumPacketServer::QuestOpenGui => 117,
            EnumPacketServer::PlayerDataGet => 118,
            EnumPacketServer::RemoteNpcsGet => 119,
            EnumPacketServer::RemoteTpToNpc => 120,
            EnumPacketServer::QuestGet => 121,
            EnumPacketServer::QuestCategoryGet => 122,
            EnumPacketServer::SaveTileEntity => 123,
            EnumPacketServer::NaturalSpawnGetAll => 124,
            EnumPacketServer::MailOpenSetup => 125,
            EnumPacketServer::DimensionsGet => 126,
            EnumPacketServer::DimensionTeleport => 127,
            EnumPacketServer::GetTileEntity => 128,
            EnumPacketServer::Gui => 129,
            EnumPacketServer::IsGuiOpen => 130,
            EnumPacketServer::CustomGuiButton => 131,
            EnumPacketServer::CustomGuiScrollClick => 132,
            EnumPacketServer::CustomGuiClose => 133,
            EnumPacketServer::CustomGuiUnfocused => 134,
            EnumPacketServer::ServerUpdateSkinOverlays => 135,
        }
    }

    /// The kind that `id` stands for.
    pub open spec fn spec_from_id(id: i32) -> Option<EnumPacketServer> {
        if id == 0 {
            Some(EnumPacketServer::Delete)
        } else if id == 1 {
            Some(EnumPacketServer::RemoteMainMenu)
        } else if id == 2 {
            Some(EnumPacketServer::NpcMenuClose)
        } else if id == 3 {
            Some(EnumPacketServer::RemoteDelete)
        } else if id == 4 {
            Some(EnumPacketServer::RemoteFreeze)
        } else if id == 5 {
            Some(EnumPacketServer::RemoteReset)
        } else if id == 6 {
            Some(EnumPacketServer::SpawnMob)
        } else if id == 7 {
            Some(EnumPacketServer::MobSpawner)
        } else if id == 8 {
            Some(EnumPacketServer::MainmenuAISave)
        } else if id == 9 {
            Some(EnumPacketServer::MainmenuAIGet)
        } else if id == 10 {
            Some(EnumPacketServer::MainmenuInvSave)
        } else if id == 11 {
            Some(EnumPacketServer::MainmenuInvGet)
        } else if id == 12 {
            Some(EnumPacketServer::MainmenuStatsSave)
        } else if id == 13 {
            Some(EnumPacketServer::MainmenuStatsGet)
        } else if id == 14 {
            Some(EnumPacketServer::MainmenuDisplaySave)
        } else if id == 15 {
            Some(EnumPacketServer::MainmenuDisplayGet)
        } else if id == 16 {
            Some(EnumPacketServer::ModelDataSave)
        } else if id == 17 {
            Some(EnumPacketServer::MainmenuAdvancedSave)
        } else if id == 18 {
            Some(EnumPacketServer::MainmenuAdvancedGet)
        } else if id == 19 {
            Some(EnumPacketServer::DialogNpcSet)
        } else if id == 20 {
            Some(EnumPacketServer::DialogNpcRemove)
        } else if id == 21 {
            Some(EnumPacketServer::FactionSet)
        } else if id == 22 {
            Some(EnumPacketServer::TagSet)
        } else if id == 23 {
            Some(EnumPacketServer::TransportSave)
        } else if id == 24 {
            Some(EnumPacketServer::TransformSave)
        } else if id == 25 {
            Some(EnumPacketServer::TransformGet)
        } else if id == 26 {
            Some(EnumPacketServer::TransformLoad)
        } else if id == 27 {
            Some(EnumPacketServer::TraderMarketSave)
        } else if id == 28 {
            Some(EnumPacketServer::JobSave)
        } else if id == 29 {
            Some(EnumPacketServer::JobGet)
        } else if id == 30 {
            Some(EnumPacketServer::RoleSave)
        } else if id == 31 {
            Some(EnumPacketServer::RoleGet)
        } else if id == 32 {
            Some(EnumPacketServer::JobSpawnerAdd)
        } else if id == 33 {
            Some(EnumPacketServer::JobSpawnerRemove)
        } else if id == 34 {
            Some(EnumPacketServer::RoleCompanionUpdate)
        } else if id == 35 {
            Some(EnumPacketServer::LinkedSet)
        } else if id == 36 {
            Some(EnumPacketServer::ClonePreSave)
        } else if id == 37 {
            Some(EnumPacketServer::CloneSave)
        } else if id == 38 {
            Some(EnumPacketServer::CloneRemove)
        } else if id == 39 {
            Some(EnumPacketServer::CloneList)
        } else if id == 40 {
            Some(EnumPacketServer::CloneTagList)
        } else if id == 41 {
            Some(EnumPacketServer::CloneAllTags)
        } else if id == 42 {
            Some(EnumPacketServer::CloneAllTagsShort)
        } else if id == 43 {
            Some(EnumPacketServer::ScriptGlobalGuiDataSave)
        } else if id == 44 {
            Some(EnumPacketServer::ScriptGlobalGuiDataGet)
        } else if id == 45 {
            Some(EnumPacketServer::ScriptPlayerSave)
        } else if id == 46 {
            Some(EnumPacketServer::ScriptPlayerGet)
        } else if id == 47 {
            Some(EnumPacketServer::ScriptForgeSave)
        } else if id == 48 {
            Some(EnumPacketServer::ScriptForgeGet)
        } else if id == 49 {
            Some(EnumPacketServer::ScriptGlobalNPCSave)
        } else if id == 50 {
            Some(EnumPacketServer::ScriptGlobalNPCGet)
        } else if id == 51 {
            Some(EnumPacketServer::ScriptItemDataSave)
        } else if id == 52 {
            Some(EnumPacketServer::ScriptItemDataGet)
        } else if id == 53 {
            Some(EnumPacketServer::LinkedGetAll)
        } else if id == 54 {
            Some(EnumPacketServer::LinkedRemove)
        } else if id == 55 {
            Some(EnumPacketServer::LinkedAdd)
        } else if id == 56 {
            Some(EnumPacketServer::ScriptDataSave)
        } else if id == 57 {
            Some(EnumPacketServer::ScriptDataGet)
        } else if id == 58 {
            Some(EnumPacketServer::EventScriptDataSave)
        } else if id == 59 {
            Some(EnumPacketServer::EventScriptDataGet)
        } else if id == 60 {
            Some(EnumPacketServer::PlayerDataRemove)
        } else if id == 61 {
            Some(EnumPacketServer::PlayerDataRegen)
        } else if id == 62 {
            Some(EnumPacketServer::BankSave)
        } else if id == 63 {
            Some(EnumPacketServer::BanksGet)
        } else if id == 64 {
            Some(EnumPacketServer::BankGet)
        } else if id == 65 {
            Some(EnumPacketServer::BankRemove)
        } else if id == 66 {
            Some(EnumPacketServer::DialogCategorySave)
        } else if id == 67 {
            Some(EnumPacketServer::DialogCategoriesGet)
        } else if id == 68 {
            Some(EnumPacketServer::DialogsGetFromDialog)
        } else if id == 69 {
            Some(EnumPacketServer::DialogCategoryRemove)
        } else if id == 70 {
            Some(EnumPacketServer::DialogCategoryGet)
        } else if id == 71 {
            Some(EnumPacketServer::DialogSave)
        } else if id == 72 {
            Some(EnumPacketServer::DialogsGet)
        } else if id == 73 {
            Some(EnumPacketServer::DialogGet)
        } else if id == 74 {
            Some(EnumPacketServer::DialogRemove)
        } else if id == 75 {
            Some(EnumPacketServer::TransportCategoryRemove)
        } else if id == 76 {
            Some(EnumPacketServer::TransportGetLocation)
        } else if id == 77 {
            Some(EnumPacketServer::TransportRemove)
        } else if id == 78 {
            Some(EnumPacketServer::TransportsGet)
        } else if id == 79 {
            Some(EnumPacketServer::TransportCategorySave)
        } else if id == 80 {
            Some(EnumPacketServer::TransportCategoriesGet)
        } else if id == 81 {
            Some(EnumPacketServer::FactionRemove)
        } else if id == 82 {
            Some(EnumPacketServer::FactionSave)
        } else if id == 83 {
            Some(EnumPacketServer::FactionsGet)
        } else if id == 84 {
            Some(EnumPacketServer::FactionGet)
        } else if id == 85 {
            Some(EnumPacketServer::TagRemove)
        } else if id == 86 {
            Some(EnumPacketServer::TagSave)
        } else if id == 87 {
            Some(EnumPacketServer::TagsGet)
        } else if id == 88 {
            Some(EnumPacketServer::TagGet)
        } else if id == 89 {
            Some(EnumPacketServer::NpcTagsGet)
        } else if id == 90 {
            Some(EnumPacketServer::QuestCategorySave)
        } else if id == 91 {
            Some(EnumPacketServer::QuestCategoriesGet)
        } else if id == 92 {
            Some(EnumPacketServer::QuestRemove)
        } else if id == 93 {
            Some(EnumPacketServer::QuestCategoryRemove)
        } else if id == 94 {
            Some(EnumPacketServer::QuestRewardSave)
        } else if id == 95 {
            Some(EnumPacketServer::QuestSave)
        } else if id == 96 {
            Some(EnumPacketServer::QuestsGetFromQuest)
        } else if id == 97 {
            Some(EnumPacketServer::QuestsGet)
        } else if id == 98 {
            Some(EnumPacketServer::QuestDialogGetTitle)
        } else if id == 99 {
            Some(EnumPacketServer::RecipeSave)
        } else if id == 100 {
            Some(EnumPacketServer::RecipeRemove)
        } else if id == 101 {
            Some(EnumPacketServer::NaturalSpawnSave)
        } else if id == 102 {
            Some(EnumPacketServer::NaturalSpawnGet)
        } else if id == 103 {
            Some(EnumPacketServer::NaturalSpawnRemove)
        } else if id == 104 {
            Some(EnumPacketServer::MerchantUpdate)
        } else if id == 105 {
            Some(EnumPacketServer::PlayerRider)
        } else if id == 106 {
            Some(EnumPacketServer::SpawnRider)
        } else if id == 107 {
            Some(EnumPacketServer::MovingPathSave)
        } else if id == 108 {
            Some(EnumPacketServer::MovingPathGet)
        } else if id == 109 {
            Some(EnumPacketServer::DialogNpcGet)
        } else if id == 110 {
            Some(EnumPacketServer::AnimationListGet)
        } else if id == 111 {
            Some(EnumPacketServer::AnimationGet)
        } else if id == 112 {
            Some(EnumPacketServer::AnimationAdd)
        } else if id == 113 {
            Some(EnumPacketServer::AnimationDelete)
        } else if id == 114 {
            Some(EnumPacketServer::AnimationSave)
        } else if id == 115 {
            Some(EnumPacketServer::RecipesGet)
        } else if id == 116 {
            Some(EnumPacketServer::RecipeGet)
        } else if id == 117 {
            Some(EnumPacketServer::QuestOpenGui)
        } else if id == 118 {
            Some(EnumPacketServer::PlayerDataGet)
        } else if id == 119 {
            Some(EnumPacketServer::RemoteNpcsGet)
        } else if id == 120 {
            Some(EnumPacketServer::RemoteTpToNpc)
        } else if id == 121 {
            Some(EnumPacketServer::QuestGet)
        } else if id == 122 {
            Some(EnumPacketServer::QuestCategoryGet)
        } else if id == 123 {
            Some(EnumPacketServer::SaveTileEntity)
        } else if id == 124 {
            Some(EnumPacketServer::NaturalSpawnGetAll)
        } else if id == 125 {
            Some(EnumPacketServer::MailOpenSetup)
        } else if id == 126 {
            Some(EnumPacketServer::DimensionsGet)
        } else if id == 127 {
            Some(EnumPacketServer::DimensionTeleport)
        } else if id == 128 {
            Some(EnumPacketServer::GetTileEntity)
        } else if id == 129 {
            Some(EnumPacketServer::Gui)
        } else if id == 130 {
            Some(EnumPacketServer::IsGuiOpen)
        } else if id == 131 {
            Some(EnumPacketServer::CustomGuiButton)
        } else if id == 132 {
            Some(EnumPacketServer::CustomGuiScrollClick)
        } else if id == 133 {
            Some(EnumPacketServer::CustomGuiClose)
        } else if id == 134 {
            Some(EnumPacketServer::CustomGuiUnfocused)
        } else if id == 135 {
            Some(EnumPacketServer::ServerUpdateSkinOverlays)
        } else {
            None
        }
    }

    /// The name of this kind.
    pub open spec fn spec_name(self) -> Seq<char> {
        match self {
            EnumPacketServer::Delete => "Delete"@,
            EnumPacketServer::RemoteMainMenu => "RemoteMainMenu"@,
            EnumPacketServer::NpcMenuClose => "NpcMenuClose"@,
            EnumPacketServer::RemoteDelete => "RemoteDelete"@,
            EnumPacketServer::RemoteFreeze => "RemoteFreeze"@,
            EnumPacketServer::RemoteReset => "RemoteReset"@,
            EnumPacketServer::SpawnMob => "SpawnMob"@,
            EnumPacketServer::MobSpawner => "MobSpawner"@,
            EnumPacketServer::MainmenuAISave => "MainmenuAISave"@,
            EnumPacketServer::MainmenuAIGet => "MainmenuAIGet"@,
            EnumPacketServer::MainmenuInvSave => "MainmenuInvSave"@,
            EnumPacketServer::MainmenuInvGet => "MainmenuInvGet"@,
            EnumPacketServer::MainmenuStatsSave => "MainmenuStatsSave"@,
            EnumPacketServer::MainmenuStatsGet => "MainmenuStatsGet"@,
            EnumPacketServer::MainmenuDisplaySave => "MainmenuDisplaySave"@,
            EnumPacketServer::MainmenuDisplayGet => "MainmenuDisplayGet"@,
            EnumPacketServer::ModelDataSave => "ModelDataSave"@,
            EnumPacketServer::MainmenuAdvancedSave => "MainmenuAdvancedSave"@,
            EnumPacketServer::MainmenuAdvancedGet => "MainmenuAdvancedGet"@,
            EnumPacketServer::DialogNpcSet => "DialogNpcSet"@,
            EnumPacketServer::DialogNpcRemove => "DialogNpcRemove"@,
            EnumPacketServer::FactionSet => "FactionSet"@,
            EnumPacketServer::TagSet => "TagSet"@,
            EnumPacketServer::TransportSave => "TransportSave"@,
            EnumPacketServer::TransformSave => "TransformSave"@,
            EnumPacketServer::TransformGet => "TransformGet"@,
            EnumPacketServer::TransformLoad => "TransformLoad"@,
            EnumPacketServer::TraderMarketSave => "TraderMarketSave"@,
            EnumPacketServer::JobSave => "JobSave"@,
            EnumPacketServer::JobGet => "JobGet"@,
            EnumPacketServer::RoleSave => "RoleSave"@,
            EnumPacketServer::RoleGet => "RoleGet"@,
            EnumPacketServer::JobSpawnerAdd => "JobSpawnerAdd"@,
            EnumPacketServer::JobSpawnerRemove => "JobSpawnerRemove"@,
            EnumPacketServer::RoleCompanionUpdate => "RoleCompanionUpdate"@,
            EnumPacketServer::LinkedSet => "LinkedSet"@,
            EnumPacketServer::ClonePreSave => "ClonePreSave"@,
            EnumPacketServer::CloneSave => "CloneSave"@,
            EnumPacketServer::CloneRemove => "CloneRemove"@,
            EnumPacketServer::CloneList => "CloneList"@,
            EnumPacketServer::CloneTagList => "CloneTagList"@,
            EnumPacketServer::CloneAllTags => "CloneAllTags"@,
            EnumPacketServer::CloneAllTagsShort => "CloneAllTagsShort"@,
            EnumPacketServer::ScriptGlobalGuiDataSave => "ScriptGlobalGuiDataSave"@,
            EnumPacketServer::ScriptGlobalGuiDataGet => "ScriptGlobalGuiDataGet"@,
            EnumPacketServer::ScriptPlayerSave => "ScriptPlayerSave"@,
            EnumPacketServer::ScriptPlayerGet => "ScriptPlayerGet"@,
            EnumPacketServer::ScriptForgeSave => "ScriptForgeSave"@,
            EnumPacketServer::ScriptForgeGet => "ScriptForgeGet"@,
            EnumPacketServer::ScriptGlobalNPCSave => "ScriptGlobalNPCSave"@,
            EnumPacketServer::ScriptGlobalNPCGet => "ScriptGlobalNPCGet"@,
            EnumPacketServer::ScriptItemDataSave => "ScriptItemDataSave"@,
            EnumPacketServer::ScriptItemDataGet => "ScriptItemDataGet"@,
            EnumPacketServer::LinkedGetAll => "LinkedGetAll"@,
            EnumPacketServer::LinkedRemove => "LinkedRemove"@,
            EnumPacketServer::LinkedAdd => "LinkedAdd"@,
            EnumPacketServer::ScriptDataSave => "ScriptDataSave"@,
            EnumPacketServer::ScriptDataGet => "ScriptDataGet"@,
            EnumPacketServer::EventScriptDataSave => "EventScriptDataSave"@,
            EnumPacketServer::EventScriptDataGet => "EventScriptDataGet"@,
            EnumPacketServer::PlayerDataRemove => "PlayerDataRemove"@,
            EnumPacketServer::PlayerDataRegen => "PlayerDataRegen"@,
            EnumPacketServer::BankSave => "BankSave"@,
            EnumPacketServer::BanksGet => "BanksGet"@,
            EnumPacketServer::BankGet => "BankGet"@,
            EnumPacketServer::BankRemove => "BankRemove"@,
            EnumPacketServer::DialogCategorySave => "DialogCategorySave"@,
            EnumPacketServer::DialogCategoriesGet => "DialogCategoriesGet"@,
            EnumPacketServer::DialogsGetFromDialog => "DialogsGetFromDialog"@,
            EnumPacketServer::DialogCategoryRemove => "DialogCategoryRemove"@,
            EnumPacketServer::DialogCategoryGet => "DialogCategoryGet"@,
            EnumPacketServer::DialogSave => "DialogSave"@,
            EnumPacketServer::DialogsGet => "DialogsGet"@,
            EnumPacketServer::DialogGet => "DialogGet"@,
            EnumPacketServer::DialogRemove => "DialogRemove"@,
            EnumPacketServer::TransportCategoryRemove => "TransportCategoryRemove"@,
            EnumPacketServer::TransportGetLocation => "TransportGetLocation"@,
            EnumPacketServer::TransportRemove => "TransportRemove"@,
            EnumPacketServer::TransportsGet => "TransportsGet"@,
            EnumPacketServer::TransportCategorySave => "TransportCategorySave"@,
            EnumPacketServer::TransportCategoriesGet => "TransportCategoriesGet"@,
            EnumPacketServer::FactionRemove => "FactionRemove"@,
            EnumPacketServer::FactionSave => "FactionSave"@,
            EnumPacketServer::FactionsGet => "FactionsGet"@,
            EnumPacketServer::FactionGet => "FactionGet"@,
            EnumPacketServer::TagRemove => "TagRemove"@,
            EnumPacketServer::TagSave => "TagSave"@,
            EnumPacketServer::TagsGet => "TagsGet"@,
            EnumPacketServer::TagGet => "TagGet"@,
            EnumPacketServer::NpcTagsGet => "NpcTagsGet"@,
            EnumPacketServer::QuestCategorySave => "QuestCategorySave"@,
            EnumPacketServer::QuestCategoriesGet => "QuestCategoriesGet"@,
            EnumPacketServer::QuestRemove => "QuestRemove"@,
            EnumPacketServer::QuestCategoryRemove => "QuestCategoryRemove"@,
            EnumPacketServer::QuestRewardSave => "QuestRewardSave"@,
            EnumPacketServer::QuestSave => "QuestSave"@,
            EnumPacketServer::QuestsGetFromQuest => "QuestsGetFromQuest"@,
            EnumPacketServer::QuestsGet => "QuestsGet"@,
            EnumPacketServer::QuestDialogGetTitle => "QuestDialogGetTitle"@,
            EnumPacketServer::RecipeSave => "RecipeSave"@,
            EnumPacketServer::RecipeRemove => "RecipeRemove"@,
            EnumPacketServer::NaturalSpawnSave => "NaturalSpawnSave"@,
            EnumPacketServer::NaturalSpawnGet => "NaturalSpawnGet"@,
            EnumPacketServer::NaturalSpawnRemove => "NaturalSpawnRemove"@,
            EnumPacketServer::MerchantUpdate => "MerchantUpdate"@,
            EnumPacketServer::PlayerRider => "PlayerRider"@,
            EnumPacketServer::SpawnRider => "SpawnRider"@,
            EnumPacketServer::MovingPathSave => "MovingPathSave"@,
            EnumPacketServer::MovingPathGet => "MovingPathGet"@,
            EnumPacketServer::DialogNpcGet => "DialogNpcGet"@,
            EnumPacketServer::AnimationListGet => "AnimationListGet"@,
            EnumPacketServer::AnimationGet => "AnimationGet"@,
            EnumPacketServer::AnimationAdd => "AnimationAdd"@,
            EnumPacketServer::AnimationDelete => "AnimationDelete"@,
            EnumPacketServer::AnimationSave => "AnimationSave"@,
            EnumPacketServer::RecipesGet => "RecipesGet"@,
            EnumPacketServer::RecipeGet => "RecipeGet"@,
            EnumPacketServer::QuestOpenGui => "QuestOpenGui"@,
            EnumPacketServer::PlayerDataGet => "PlayerDataGet"@,
            EnumPacketServer::RemoteNpcsGet => "RemoteNpcsGet"@,
            EnumPacketServer::RemoteTpToNpc => "RemoteTpToNpc"@,
            EnumPacketServer::QuestGet => "QuestGet"@,
            EnumPacketServer::QuestCategoryGet => "QuestCategoryGet"@,
            EnumPacketServer::SaveTileEntity => "SaveTileEntity"@,
            EnumPacketServer::NaturalSpawnGetAll => "NaturalSpawnGetAll"@,
            EnumPacketServer::MailOpenSetup => "MailOpenSetup"@,
            EnumPacketServer::DimensionsGet => "DimensionsGet"@,
            EnumPacketServer::DimensionTeleport => "DimensionTeleport"@,
            EnumPacketServer::GetTileEntity => "GetTileEntity"@,
            EnumPacketServer::Gui => "Gui"@,
            EnumPacketServer::IsGuiOpen => "IsGuiOpen"@,
            EnumPacketServer::CustomGuiButton => "CustomGuiButton"@,
            EnumPacketServer::CustomGuiScrollClick => "CustomGuiScrollClick"@,
            EnumPacketServer::CustomGuiClose => "CustomGuiClose"@,
            EnumPacketServer::CustomGuiUnfocused => "CustomGuiUnfocused"@,
            EnumPacketServer::ServerUpdateSkinOverlays => "ServerUpdateSkinOverlays"@,
        }
    }

    /// The number that stands for this kind on the wire.
    pub fn id(&self) -> (r: i32)
        ensures
            r == self.spec_id(),
    {
        match self {
            EnumPacketServer::Delete => 0,
            EnumPacketServer::RemoteMainMenu => 1,
            EnumPacketServer::NpcMenuClose => 2,
            EnumPacketServer::RemoteDelete => 3,
            EnumPacketServer::RemoteFreeze => 4,
            EnumPacketServer::RemoteReset => 5,
            EnumPacketServer::SpawnMob => 6,
            EnumPacketServer::MobSpawner => 7,
            EnumPacketServer::MainmenuAISave => 8,
            EnumPacketServer::MainmenuAIGet => 9,
            EnumPacketServer::MainmenuInvSave => 10,
            EnumPacketServer::MainmenuInvGet => 11,
            EnumPacketServer::MainmenuStatsSave => 12,
            EnumPacketServer::MainmenuStatsGet => 13,
            EnumPacketServer::MainmenuDisplaySave => 14,
            EnumPacketServer::MainmenuDisplayGet => 15,
            EnumPacketServer::ModelDataSave => 16,
            EnumPacketServer::MainmenuAdvancedSave => 17,
            EnumPacketServer::MainmenuAdvancedGet => 18,
            EnumPacketServer::DialogNpcSet => 19,
            EnumPacketServer::DialogNpcRemove => 20,
            EnumPacketServer::FactionSet => 21,
            EnumPacketServer::TagSet => 22,
            EnumPacketServer::TransportSave => 23,
            EnumPacketServer::TransformSave => 24,
            EnumPacketServer::TransformGet => 25,
            EnumPacketServer::TransformLoad => 26,
            EnumPacketServer::TraderMarketSave => 27,
            EnumPacketServer::JobSave => 28,
            EnumPacketServer::JobGet => 29,
            EnumPacketServer::RoleSave => 30,
            EnumPacketServer::RoleGet => 31,
            EnumPacketServer::JobSpawnerAdd => 32,
            EnumPacketServer::JobSpawnerRemove => 33,
            EnumPacketServer::RoleCompanionUpdate => 34,
            EnumPacketServer::LinkedSet => 35,
            EnumPacketServer::ClonePreSave => 36,
            EnumPacketServer::CloneSave => 37,
            EnumPacketServer::CloneRemove => 38,
            EnumPacketServer::CloneList => 39,
            EnumPacketServer::CloneTagList => 40,
            EnumPacketServer::CloneAllTags => 41,
            EnumPacketServer::CloneAllTagsShort => 42,
            EnumPacketServer::ScriptGlobalGuiDataSave => 43,
            EnumPacketServer::ScriptGlobalGuiDataGet => 44,
            EnumPacketServer::ScriptPlayerSave => 45,
            EnumPacketServer::ScriptPlayerGet => 46,
            EnumPacketServer::ScriptForgeSave => 47,
            EnumPacketServer::ScriptForgeGet => 48,
            EnumPacketServer::ScriptGlobalNPCSave => 49,
            EnumPacketServer::ScriptGlobalNPCGet => 50,
            EnumPacketServer::ScriptItemDataSave => 51,
            EnumPacketServer::ScriptItemDataGet => 52,
            EnumPacketServer::LinkedGetAll => 53,
            EnumPacketServer::LinkedRemove => 54,
            EnumPacketServer::LinkedAdd => 55,
            EnumPacketServer::ScriptDataSave => 56,
            EnumPacketServer::ScriptDataGet => 57,
            EnumPacketServer::EventScriptDataSave => 58,
            EnumPacketServer::EventScriptDataGet => 59,
            EnumPacketServer::PlayerDataRemove => 60,
            EnumPacketServer::PlayerDataRegen => 61,
            EnumPacketServer::BankSave => 62,
            EnumPacketServer::BanksGet => 63,
            EnumPacketServer::BankGet => 64,
            EnumPacketServer::BankRemove => 65,
            EnumPacketServer::DialogCategorySave => 66,
            EnumPacketServer::DialogCategoriesGet => 67,
            EnumPacketServer::DialogsGetFromDialog => 68,
            EnumPacketServer::DialogCategoryRemove => 69,
            EnumPacketServer::DialogCategoryGet => 70,
            EnumPacketServer::DialogSave => 71,
            EnumPacketServer::DialogsGet => 72,
            EnumPacketServer::DialogGet => 73,
            EnumPacketServer::DialogRemove => 74,
            EnumPacketServer::TransportCategoryRemove => 75,
            EnumPacketServer::TransportGetLocation => 76,
            EnumPacketServer::TransportRemove => 77,
            EnumPacketServer::TransportsGet => 78,
            EnumPacketServer::TransportCategorySave => 79,
            EnumPacketServer::TransportCategoriesGet => 80,
            EnumPacketServer::FactionRemove => 81,
            EnumPacketServer::FactionSave => 82,
            EnumPacketServer::FactionsGet => 83,
            EnumPacketServer::FactionGet => 84,
            EnumPacketServer::TagRemove => 85,
            EnumPacketServer::TagSave => 86,
            EnumPacketServer::TagsGet => 87,
            EnumPacketServer::TagGet => 88,
            EnumPacketServer::NpcTagsGet => 89,
            EnumPacketServer::QuestCategorySave => 90,
            EnumPacketServer::QuestCategoriesGet => 91,
            EnumPacketServer::QuestRemove => 92,
            EnumPacketServer::QuestCategoryRemove => 93,
            EnumPacketServer::QuestRewardSave => 94,
            EnumPacketServer::QuestSave => 95,
            EnumPacketServer::QuestsGetFromQuest => 96,
            EnumPacketServer::QuestsGet => 97,
            EnumPacketServer::QuestDialogGetTitle => 98,
            EnumPacketServer::RecipeSave => 99,
            EnumPacketServer::RecipeRemove => 100,
            EnumPacketServer::NaturalSpawnSave => 101,
            EnumPacketServer::NaturalSpawnGet => 102,
            EnumPacketServer::NaturalSpawnRemove => 103,
            EnumPacketServer::MerchantUpdate => 104,
            EnumPacketServer::PlayerRider => 105,
            EnumPacketServer::SpawnRider => 106,
            EnumPacketServer::MovingPathSave => 107,
            EnumPacketServer::MovingPathGet => 108,
            EnumPacketServer::DialogNpcGet => 109,
            EnumPacketServer::AnimationListGet => 110,
            EnumPacketServer::AnimationGet => 111,
            EnumPacketServer::AnimationAdd => 112,
            EnumPacketServer::AnimationDelete => 113,
            EnumPacketServer::AnimationSave => 114,
            EnumPacketServer::RecipesGet => 115,
            EnumPacketServer::RecipeGet => 116,
            EnumPacketServer::QuestOpenGui => 117,
            EnumPacketServer::PlayerDataGet => 118,
            EnumPacketServer::RemoteNpcsGet => 119,
            EnumPacketServer::RemoteTpToNpc => 120,
            EnumPacketServer::QuestGet => 121,
            EnumPacketServer::QuestCategoryGet => 122,
            EnumPacketServer::SaveTileEntity => 123,
            EnumPacketServer::NaturalSpawnGetAll => 124,
            EnumPacketServer::MailOpenSetup => 125,
            EnumPacketServer::DimensionsGet => 126,
            EnumPacketServer::DimensionTeleport => 127,
            EnumPacketServer::GetTileEntity => 128,
            EnumPacketServer::Gui => 129,
            EnumPacketServer::IsGuiOpen => 130,
            EnumPacketServer::CustomGuiButton => 131,
            EnumPacketServer::CustomGuiScrollClick => 132,
            EnumPacketServer::CustomGuiClose => 133,
            EnumPacketServer::CustomGuiUnfocused => 134,
            EnumPacketServer::ServerUpdateSkinOverlays => 135,
        }
    }

    /// The kind that `id` stands for, `None` when it stands for none.
    pub fn from_id(id: i32) -> (r: Option<Self>)
        ensures
            r == Self::spec_from_id(id),
            r is Some ==> r->0.spec_id() == id,
            r is None ==> id < 0 || id > 135,
    {
        match id {
            0 => Some(EnumPacketServer::Delete),
            1 => Some(EnumPacketServer::RemoteMainMenu),
            2 => Some(EnumPacketServer::NpcMenuClose),
            3 => Some(EnumPacketServer::RemoteDelete),
            4 => Some(EnumPacketServer::RemoteFreeze),
            5 => Some(EnumPacketServer::RemoteReset),
            6 => Some(EnumPacketServer::SpawnMob),
            7 => Some(EnumPacketServer::MobSpawner),
            8 => Some(EnumPacketServer::MainmenuAISave),
            9 => Some(EnumPacketServer::MainmenuAIGet),
            10 => Some(EnumPacketServer::MainmenuInvSave),
            11 => Some(EnumPacketServer::MainmenuInvGet),
            12 => Some(EnumPacketServer::MainmenuStatsSave),
            13 => Some(EnumPacketServer::MainmenuStatsGet),
            14 => Some(EnumPacketServer::MainmenuDisplaySave),
            15 => Some(EnumPacketServer::MainmenuDisplayGet),
            16 => Some(EnumPacketServer::ModelDataSave),
            17 => Some(EnumPacketServer::MainmenuAdvancedSave),
            18 => Some(EnumPacketServer::MainmenuAdvancedGet),
            19 => Some(EnumPacketServer::DialogNpcSet),
            20 => Some(EnumPacketServer::DialogNpcRemove),
            21 => Some(EnumPacketServer::FactionSet),
            22 => Some(EnumPacketServer::TagSet),
            23 => Some(EnumPacketServer::TransportSave),
            24 => Some(EnumPacketServer::TransformSave),
            25 => Some(EnumPacketServer::TransformGet),
            26 => Some(EnumPacketServer::TransformLoad),
            27 => Some(EnumPacketServer::TraderMarketSave),
            28 => Some(EnumPacketServer::JobSave),
            29 => Some(EnumPacketServer::JobGet),
            30 => Some(EnumPacketServer::RoleSave),
            31 => Some(EnumPacketServer::RoleGet),
            32 => Some(EnumPacketServer::JobSpawnerAdd),
            33 => Some(EnumPacketServer::JobSpawnerRemove),
            34 => Some(EnumPacketServer::RoleCompanionUpdate),
            35 => Some(EnumPacketServer::LinkedSet),
            36 => Some(EnumPacketServer::ClonePreSave),
            37 => Some(EnumPacketServer::CloneSave),
            38 => Some(EnumPacketServer::CloneRemove),
            39 => Some(EnumPacketServer::CloneList),
            40 => Some(EnumPacketServer::CloneTagList),
            41 => Some(EnumPacketServer::CloneAllTags),
            42 => Some(EnumPacketServer::CloneAllTagsShort),
            43 => Some(EnumPacketServer::ScriptGlobalGuiDataSave),
            44 => Some(EnumPacketServer::ScriptGlobalGuiDataGet),
            45 => Some(EnumPacketServer::ScriptPlayerSave),
            46 => Some(EnumPacketServer::ScriptPlayerGet),
            47 => Some(EnumPacketServer::ScriptForgeSave),
            48 => Some(EnumPacketServer::ScriptForgeGet),
            49 => Some(EnumPacketServer::ScriptGlobalNPCSave),
            50 => Some(EnumPacketServer::ScriptGlobalNPCGet),
            51 => Some(EnumPacketServer::ScriptItemDataSave),
            52 => Some(EnumPacketServer::ScriptItemDataGet),
            53 => Some(EnumPacketServer::LinkedGetAll),
            54 => Some(EnumPacketServer::LinkedRemove),
            55 => Some(EnumPacketServer::LinkedAdd),
            56 => Some(EnumPacketServer::ScriptDataSave),
            57 => Some(EnumPacketServer::ScriptDataGet),
            58 => Some(EnumPacketServer::EventScriptDataSave),
            59 => Some(EnumPacketServer::EventScriptDataGet),
            60 => Some(EnumPacketServer::PlayerDataRemove),
            61 => Some(EnumPacketServer::PlayerDataRegen),
            62 => Some(EnumPacketServer::BankSave),
            63 => Some(EnumPacketServer::BanksGet),
            64 => Some(EnumPacketServer::BankGet),
            65 => Some(EnumPacketServer::BankRemove),
            66 => Some(EnumPacketServer::DialogCategorySave),
            67 => Some(EnumPacketServer::DialogCategoriesGet),
            68 => Some(EnumPacketServer::DialogsGetFromDialog),
            69 => Some(EnumPacketServer::DialogCategoryRemove),
            70 => Some(EnumPacketServer::DialogCategoryGet),
            71 => Some(EnumPacketServer::DialogSave),
            72 => Some(EnumPacketServer::DialogsGet),
            73 => Some(EnumPacketServer::DialogGet),
            74 => Some(EnumPacketServer::DialogRemove),
            75 => Some(EnumPacketServer::TransportCategoryRemove),
            76 => Some(EnumPacketServer::TransportGetLocation),
            77 => Some(EnumPacketServer::TransportRemove),
            78 => Some(EnumPacketServer::TransportsGet),
            79 => Some(EnumPacketServer::TransportCategorySave),
            80 => Some(EnumPacketServer::TransportCategoriesGet),
            81 => Some(EnumPacketServer::FactionRemove),
            82 => Some(EnumPacketServer::FactionSave),
            83 => Some(EnumPacketServer::FactionsGet),
            84 => Some(EnumPacketServer::FactionGet),
            85 => Some(EnumPacketServer::TagRemove),
            86 => Some(EnumPacketServer::TagSave),
            87 => Some(EnumPacketServer::TagsGet),
            88 => Some(EnumPacketServer::TagGet),
            89 => Some(EnumPacketServer::NpcTagsGet),
            90 => Some(EnumPacketServer::QuestCategorySave),
            91 => Some(EnumPacketServer::QuestCategoriesGet),
            92 => Some(EnumPacketServer::QuestRemove),
            93 => Some(EnumPacketServer::QuestCategoryRemove),
            94 => Some(EnumPacketServer::QuestRewardSave),
            95 => Some(EnumPacketServer::QuestSave),
            96 => Some(EnumPacketServer::QuestsGetFromQuest),
            97 => Some(EnumPacketServer::QuestsGet),
            98 => Some(EnumPacketServer::QuestDialogGetTitle),
            99 => Some(EnumPacketServer::RecipeSave),
            100 => Some(EnumPacketServer::RecipeRemove),
            101 => Some(EnumPacketServer::NaturalSpawnSave),
            102 => Some(EnumPacketServer::NaturalSpawnGet),
            103 => Some(EnumPacketServer::NaturalSpawnRemove),
            104 => Some(EnumPacketServer::MerchantUpdate),
            105 => Some(EnumPacketServer::PlayerRider),
            106 => Some(EnumPacketServer::SpawnRider),
            107 => Some(EnumPacketServer::MovingPathSave),
            108 => Some(EnumPacketServer::MovingPathGet),
            109 => Some(EnumPacketServer::DialogNpcGet),
            110 => Some(EnumPacketServer::AnimationListGet),
            111 => Some(EnumPacketServer::AnimationGet),
            112 => Some(EnumPacketServer::AnimationAdd),
            113 => Some(EnumPacketServer::AnimationDelete),
            114 => Some(EnumPacketServer::AnimationSave),
            115 => Some(EnumPacketServer::RecipesGet),
            116 => Some(EnumPacketServer::RecipeGet),
            117 => Some(EnumPacketServer::QuestOpenGui),
            118 => Some(EnumPacketServer::PlayerDataGet),
            119 => Some(EnumPacketServer::RemoteNpcsGet),
            120 => Some(EnumPacketServer::RemoteTpToNpc),
            121 => Some(EnumPacketServer::QuestGet),
            122 => Some(EnumPacketServer::QuestCategoryGet),
            123 => Some(EnumPacketServer::SaveTileEntity),
            124 => Some(EnumPacketServer::NaturalSpawnGetAll),
            125 => Some(EnumPacketServer::MailOpenSetup),
            126 => Some(EnumPacketServer::DimensionsGet),
            127 => Some(EnumPacketServer::DimensionTeleport),
            128 => Some(EnumPacketServer::GetTileEntity),
            129 => Some(EnumPacketServer::Gui),
            130 => Some(EnumPacketServer::IsGuiOpen),
            131 => Some(EnumPacketServer::CustomGuiButton),
            132 => Some(EnumPacketServer::CustomGuiScrollClick),
            133 => Some(EnumPacketServer::CustomGuiClose),
            134 => Some(EnumPacketServer::CustomGuiUnfocused),
            135 => Some(EnumPacketServer::ServerUpdateSkinOverlays),
            _ => None,
        }
    }

    /// The name of this kind.
    pub fn name(&self) -> (r: &'static str)
        ensures
            r@ == self.spec_name(),
    {
        match self {
            EnumPacketServer::Delete => "Delete",
            EnumPacketServer::RemoteMainMenu => "RemoteMainMenu",
            EnumPacketServer::NpcMenuClose => "NpcMenuClose",
            EnumPacketServer::RemoteDelete => "RemoteDelete",
            EnumPacketServer::RemoteFreeze => "RemoteFreeze",
            EnumPacketServer::RemoteReset => "RemoteReset",
            EnumPacketServer::SpawnMob => "SpawnMob",
            EnumPacketServer::MobSpawner => "MobSpawner",
            EnumPacketServer::MainmenuAISave => "MainmenuAISave",
            EnumPacketServer::MainmenuAIGet => "MainmenuAIGet",
            EnumPacketServer::MainmenuInvSave => "MainmenuInvSave",
            EnumPacketServer::MainmenuInvGet => "MainmenuInvGet",
            EnumPacketServer::MainmenuStatsSave => "MainmenuStatsSave",
            EnumPacketServer::MainmenuStatsGet => "MainmenuStatsGet",
            EnumPacketServer::MainmenuDisplaySave => "MainmenuDisplaySave",
            EnumPacketServer::MainmenuDisplayGet => "MainmenuDisplayGet",
            EnumPacketServer::ModelDataSave => "ModelDataSave",
            EnumPacketServer::MainmenuAdvancedSave => "MainmenuAdvancedSave",
            EnumPacketServer::MainmenuAdvancedGet => "MainmenuAdvancedGet",
            EnumPacketServer::DialogNpcSet => "DialogNpcSet",
            EnumPacketServer::DialogNpcRemove => "DialogNpcRemove",
            EnumPacketServer::FactionSet => "FactionSet",
            EnumPacketServer::TagSet => "TagSet",
            EnumPacketServer::TransportSave => "TransportSave",
            EnumPacketServer::TransformSave => "TransformSave",
            EnumPacketServer::TransformGet => "TransformGet",
            EnumPacketServer::TransformLoad => "TransformLoad",
            EnumPacketServer::TraderMarketSave => "TraderMarketSave",
            EnumPacketServer::JobSave => "JobSave",
            EnumPacketServer::JobGet => "JobGet",
            EnumPacketServer::RoleSave => "RoleSave",
            EnumPacketServer::RoleGet => "RoleGet",
            EnumPacketServer::JobSpawnerAdd => "JobSpawnerAdd",
            EnumPacketServer::JobSpawnerRemove => "JobSpawnerRemove",
            EnumPacketServer::RoleCompanionUpdate => "RoleCompanionUpdate",
            EnumPacketServer::LinkedSet => "LinkedSet",
            EnumPacketServer::ClonePreSave => "ClonePreSave",
            EnumPacketServer::CloneSave => "CloneSave",
            EnumPacketServer::CloneRemove => "CloneRemove",
            EnumPacketServer::CloneList => "CloneList",
            EnumPacketServer::CloneTagList => "CloneTagList",
            EnumPacketServer::CloneAllTags => "CloneAllTags",
            EnumPacketServer::CloneAllTagsShort => "CloneAllTagsShort",
            EnumPacketServer::ScriptGlobalGuiDataSave => "ScriptGlobalGuiDataSave",
            EnumPacketServer::ScriptGlobalGuiDataGet => "ScriptGlobalGuiDataGet",
            EnumPacketServer::ScriptPlayerSave => "ScriptPlayerSave",
            EnumPacketServer::ScriptPlayerGet => "ScriptPlayerGet",
            EnumPacketServer::ScriptForgeSave => "ScriptForgeSave",
            EnumPacketServer::ScriptForgeGet => "ScriptForgeGet",
            EnumPacketServer::ScriptGlobalNPCSave => "ScriptGlobalNPCSave",
            EnumPacketServer::ScriptGlobalNPCGet => "ScriptGlobalNPCGet",
            EnumPacketServer::ScriptItemDataSave => "ScriptItemDataSave",
            EnumPacketServer::ScriptItemDataGet => "ScriptItemDataGet",
            EnumPacketServer::LinkedGetAll => "LinkedGetAll",
            EnumPacketServer::LinkedRemove => "LinkedRemove",
            EnumPacketServer::LinkedAdd => "LinkedAdd",
            EnumPacketServer::ScriptDataSave => "ScriptDataSave",
            EnumPacketServer::ScriptDataGet => "ScriptDataGet",
            EnumPacketServer::EventScriptDataSave => "EventScriptDataSave",
            EnumPacketServer::EventScriptDataGet => "EventScriptDataGet",
            EnumPacketServer::PlayerDataRemove => "PlayerDataRemove",
            EnumPacketServer::PlayerDataRegen => "PlayerDataRegen",
            EnumPacketServer::BankSave => "BankSave",
            EnumPacketServer::BanksGet => "BanksGet",
            EnumPacketServer::BankGet => "BankGet",
            EnumPacketServer::BankRemove => "BankRemove",
            EnumPacketServer::DialogCategorySave => "DialogCategorySave",
            EnumPacketServer::DialogCategoriesGet => "DialogCategoriesGet",
            EnumPacketServer::DialogsGetFromDialog => "DialogsGetFromDialog",
            EnumPacketServer::DialogCategoryRemove => "DialogCategoryRemove",
            EnumPacketServer::DialogCategoryGet => "DialogCategoryGet",
            EnumPacketServer::DialogSave => "DialogSave",
            EnumPacketServer::DialogsGet => "DialogsGet",
            EnumPacketServer::DialogGet => "DialogGet",
            EnumPacketServer::DialogRemove => "DialogRemove",
            EnumPacketServer::TransportCategoryRemove => "TransportCategoryRemove",
            EnumPacketServer::TransportGetLocation => "TransportGetLocation",
            EnumPacketServer::TransportRemove => "TransportRemove",
            EnumPacketServer::TransportsGet => "TransportsGet",
            EnumPacketServer::TransportCategorySave => "TransportCategorySave",
            EnumPacketServer::TransportCategoriesGet => "TransportCategoriesGet",
            EnumPacketServer::FactionRemove => "FactionRemove",
            EnumPacketServer::FactionSave => "FactionSave",
            EnumPacketServer::FactionsGet => "FactionsGet",
            EnumPacketServer::FactionGet => "FactionGet",
            EnumPacketServer::TagRemove => "TagRemove",
            EnumPacketServer::TagSave => "TagSave",
            EnumPacketServer::TagsGet => "TagsGet",
            EnumPacketServer::TagGet => "TagGet",
            EnumPacketServer::NpcTagsGet => "NpcTagsGet",
            EnumPacketServer::QuestCategorySave => "QuestCategorySave",
            EnumPacketServer::QuestCategoriesGet => "QuestCategoriesGet",
            EnumPacketServer::QuestRemove => "QuestRemove",
            EnumPacketServer::QuestCategoryRemove => "QuestCategoryRemove",
            EnumPacketServer::QuestRewardSave => "QuestRewardSave",
            EnumPacketServer::QuestSave => "QuestSave",
            EnumPacketServer::QuestsGetFromQuest => "QuestsGetFromQuest",
            EnumPacketServer::QuestsGet => "QuestsGet",
            EnumPacketServer::QuestDialogGetTitle => "QuestDialogGetTitle",
            EnumPacketServer::RecipeSave => "RecipeSave",
            EnumPacketServer::RecipeRemove => "RecipeRemove",
            EnumPacketServer::NaturalSpawnSave => "NaturalSpawnSave",
            EnumPacketServer::NaturalSpawnGet => "NaturalSpawnGet",
            EnumPacketServer::NaturalSpawnRemove => "NaturalSpawnRemove",
            EnumPacketServer::MerchantUpdate => "MerchantUpdate",
            EnumPacketServer::PlayerRider => "PlayerRider",
            EnumPacketServer::SpawnRider => "SpawnRider",
            EnumPacketServer::MovingPathSave => "MovingPathSave",
            EnumPacketServer::MovingPathGet => "MovingPathGet",
            EnumPacketServer::DialogNpcGet => "DialogNpcGet",
            EnumPacketServer::AnimationListGet => "AnimationListGet",
            EnumPacketServer::AnimationGet => "AnimationGet",
            EnumPacketServer::AnimationAdd => "AnimationAdd",
            EnumPacketServer::AnimationDelete => "AnimationDelete",
            EnumPacketServer::AnimationSave => "AnimationSave",
            EnumPacketServer::RecipesGet => "RecipesGet",
            EnumPacketServer::RecipeGet => "RecipeGet",
            EnumPacketServer::QuestOpenGui => "QuestOpenGui",
            EnumPacketServer::PlayerDataGet => "PlayerDataGet",
            EnumPacketServer::RemoteNpcsGet => "RemoteNpcsGet",
            EnumPacketServer::RemoteTpToNpc => "RemoteTpToNpc",
            EnumPacketServer::QuestGet => "QuestGet",
            EnumPacketServer::QuestCategoryGet => "QuestCategoryGet",
            EnumPacketServer::SaveTileEntity => "SaveTileEntity",
            EnumPacketServer::NaturalSpawnGetAll => "NaturalSpawnGetAll",
            EnumPacketServer::MailOpenSetup => "MailOpenSetup",
            EnumPacketServer::DimensionsGet => "DimensionsGet",
            EnumPacketServer::DimensionTeleport => "DimensionTeleport",
            EnumPacketServer::GetTileEntity => "GetTileEntity",
            EnumPacketServer::Gui => "Gui",
            EnumPacketServer::IsGuiOpen => "IsGuiOpen",
            EnumPacketServer::CustomGuiButton => "CustomGuiButton",
            EnumPacketServer::CustomGuiScrollClick => "CustomGuiScrollClick",
            EnumPacketServer::CustomGuiClose => "CustomGuiClose",
            EnumPacketServer::CustomGuiUnfocused => "CustomGuiUnfocused",
            EnumPacketServer::ServerUpdateSkinOverlays => "ServerUpdateSkinOverlays",
        }
    }

    /// Every kind is found again from its number.
    pub proof fn lemma_id_round_trip(self)
        ensures
            Self::spec_from_id(self.spec_id()) == Some(self),
    {
    }

    /// A number stands for at most one kind, and only for the kind it is the number of.
    pub proof fn lemma_from_id_is_inverse(id: i32)
        ensures
            Self::spec_from_id(id) is Some ==> Self::spec_from_id(id)->0.spec_id() == id,
            Self::spec_from_id(id) is None <==> (id < 0 || id > 135),
    {
    }
}

/// The fields of a packet bound for the client, by its kind.
///
/// `flag` says whether the first byte of the fields is not zero and
/// `first` is the number in their first four bytes; a few kinds are laid
/// out by one of them.
pub open spec fn spec_client_layout(t: EnumPacketClient, flag: bool, first: i32) -> Seq<FieldModel> {
    match t {
        EnumPacketClient::CHATBUBBLE => seq![fm("entity_id", FieldKind::Int), fm("text", FieldKind::Str), fm("show_in_chat", FieldKind::Bool)],
        EnumPacketClient::DIALOG => seq![fm("entity_id", FieldKind::Int), fm("nbt_data", FieldKind::Nbt)],
        EnumPacketClient::DIALOG_DUMMY => seq![fm("npc_name", FieldKind::Str), fm("nbt_data", FieldKind::Nbt)],
        EnumPacketClient::EDIT_NPC | EnumPacketClient::DELETE_NPC => seq![fm("entity_id", FieldKind::Int)],
        EnumPacketClient::PLAY_MUSIC => seq![fm("sound", FieldKind::Str)],
        EnumPacketClient::PLAY_SOUND => seq![fm("sound", FieldKind::Str), fm("x", FieldKind::Float), fm("y", FieldKind::Float), fm("z", FieldKind::Float)],
        EnumPacketClient::GUI => seq![fm("gui_type", FieldKind::Int), fm("x", FieldKind::Int), fm("y", FieldKind::Int), fm("z", FieldKind::Int)],
        EnumPacketClient::SCROLL_SELECTED => seq![fm("selected", FieldKind::Str)],
        EnumPacketClient::GUI_ERROR => seq![fm("error_code", FieldKind::Int), fm("nbt_data", FieldKind::Nbt)],
        EnumPacketClient::GUI_CLOSE => seq![fm("close_code", FieldKind::Int), fm("nbt_data", FieldKind::Nbt)],
        EnumPacketClient::OPEN_BOOK => seq![fm("x", FieldKind::Int), fm("y", FieldKind::Int), fm("z", FieldKind::Int), fm("nbt_data", FieldKind::Nbt)],
        EnumPacketClient::CONFIG => if first == 0 {
            seq![fmc("config_type", FieldKind::IntNamed, "FONT"), fm("font", FieldKind::Str), fm("size", FieldKind::Int)]
        } else {
            seq![fm("config_type", FieldKind::Int)]
        },
        EnumPacketClient::SCRIPT_OVERLAY_CLOSE | EnumPacketClient::STOP_SOUND_FOR => seq![fm("id", FieldKind::Int)],
        EnumPacketClient::PLAYER_UPDATE_SKIN_OVERLAYS => seq![fm("player_name", FieldKind::Str), fm("nbt_data", FieldKind::Nbt)],
        EnumPacketClient::DISABLE_MOUSE_INPUT => seq![fm("length_ms", FieldKind::Long), fm("buttons", FieldKind::Str)],
        EnumPacketClient::PLAY_SOUND_TO => seq![fm("sound_id", FieldKind::Int), fm("nbt_data", FieldKind::Nbt)],
        EnumPacketClient::MESSAGE => seq![fm("description", FieldKind::Str), fm("message", FieldKind::Str)],
        EnumPacketClient::SYNCRECIPES_WORKBENCH | EnumPacketClient::SYNCRECIPES_CARPENTRYBENCH | EnumPacketClient::ISGUIOPEN | EnumPacketClient::SWING_PLAYER_ARM | EnumPacketClient::PAUSE_SOUNDS | EnumPacketClient::CONTINUE_SOUNDS | EnumPacketClient::STOP_SOUNDS => Seq::<FieldModel>::empty(),
        EnumPacketClient::SYNCRECIPES_ADD | EnumPacketClient::QUEST_COMPLETION | EnumPacketClient::UPDATE_NPC | EnumPacketClient::ROLE | EnumPacketClient::GUI_REDSTONE | EnumPacketClient::GUI_WAYPOINT | EnumPacketClient::GUI_DATA | EnumPacketClient::CLONE | EnumPacketClient::SCRIPT_OVERLAY_DATA | EnumPacketClient::UPDATE_ANIMATIONS | EnumPacketClient::OVERLAY_QUEST_TRACKING | EnumPacketClient::PLAY_SOUND_TO_NO_ID => seq![fm("nbt_data", FieldKind::Nbt)],
        _ => seq![fm("raw_data", FieldKind::Raw)],
    }
}

/// The layout of a kind, see [`spec_client_layout`].
pub fn client_layout(t: EnumPacketClient, flag: bool, first: i32) -> (layout: Vec<FieldSpec>)
    ensures
        layout_models(layout@) == spec_client_layout(t, flag, first),
{
    let layout: Vec<FieldSpec> = match t {
        EnumPacketClient::CHATBUBBLE => vec![fs("entity_id", FieldKind::Int), fs("text", FieldKind::Str), fs("show_in_chat", FieldKind::Bool)],
        EnumPacketClient::DIALOG => vec![fs("entity_id", FieldKind::Int), fs("nbt_data", FieldKind::Nbt)],
        EnumPacketClient::DIALOG_DUMMY => vec![fs("npc_name", FieldKind::Str), fs("nbt_data", FieldKind::Nbt)],
        EnumPacketClient::EDIT_NPC | EnumPacketClient::DELETE_NPC => vec![fs("entity_id", FieldKind::Int)],
        EnumPacketClient::PLAY_MUSIC => vec![fs("sound", FieldKind::Str)],
        EnumPacketClient::PLAY_SOUND => vec![fs("sound", FieldKind::Str), fs("x", FieldKind::Float), fs("y", FieldKind::Float), fs("z", FieldKind::Float)],
        EnumPacketClient::GUI => vec![fs("gui_type", FieldKind::Int), fs("x", FieldKind::Int), fs("y", FieldKind::Int), fs("z", FieldKind::Int)],
        EnumPacketClient::SCROLL_SELECTED => vec![fs("selected", FieldKind::Str)],
        EnumPacketClient::GUI_ERROR => vec![fs("error_code", FieldKind::Int), fs("nbt_data", FieldKind::Nbt)],
        EnumPacketClient::GUI_CLOSE => vec![fs("close_code", FieldKind::Int), fs("nbt_data", FieldKind::Nbt)],
        EnumPacketClient::OPEN_BOOK => vec![fs("x", FieldKind::Int), fs("y", FieldKind::Int), fs("z", FieldKind::Int), fs("nbt_data", FieldKind::Nbt)],
        EnumPacketClient::CONFIG => if first == 0 {
            vec![fsc("config_type", FieldKind::IntNamed, "FONT"), fs("font", FieldKind::Str), fs("size", FieldKind::Int)]
        } else {
            vec![fs("config_type", FieldKind::Int)]
        },
        EnumPacketClient::SCRIPT_OVERLAY_CLOSE | EnumPacketClient::STOP_SOUND_FOR => vec![fs("id", FieldKind::Int)],
        EnumPacketClient::PLAYER_UPDATE_SKIN_OVERLAYS => vec![fs("player_name", FieldKind::Str), fs("nbt_data", FieldKind::Nbt)],
        EnumPacketClient::DISABLE_MOUSE_INPUT => vec![fs("length_ms", FieldKind::Long), fs("buttons", FieldKind::Str)],
        EnumPacketClient::PLAY_SOUND_TO => vec![fs("sound_id", FieldKind::Int), fs("nbt_data", FieldKind::Nbt)],
        EnumPacketClient::MESSAGE => vec![fs("description", FieldKind::Str), fs("message", FieldKind::Str)],
        EnumPacketClient::SYNCRECIPES_WORKBENCH | EnumPacketClient::SYNCRECIPES_CARPENTRYBENCH | EnumPacketClient::ISGUIOPEN | EnumPacketClient::SWING_PLAYER_ARM | EnumPacketClient::PAUSE_SOUNDS | EnumPacketClient::CONTINUE_SOUNDS | EnumPacketClient::STOP_SOUNDS => Vec::new(),
        EnumPacketClient::SYNCRECIPES_ADD | EnumPacketClient::QUEST_COMPLETION | EnumPacketClient::UPDATE_NPC | EnumPacketClient::ROLE | EnumPacketClient::GUI_REDSTONE | EnumPacketClient::GUI_WAYPOINT | EnumPacketClient::GUI_DATA | EnumPacketClient::CLONE | EnumPacketClient::SCRIPT_OVERLAY_DATA | EnumPacketClient::UPDATE_ANIMATIONS | EnumPacketClient::OVERLAY_QUEST_TRACKING | EnumPacketClient::PLAY_SOUND_TO_NO_ID => vec![fs("nbt_data", FieldKind::Nbt)],
        _ => vec![fs("raw_data", FieldKind::Raw)],
    };
    assert(layout_models(layout@) =~= spec_client_layout(t, flag, first));
    layout
}

/// The fields of a packet bound for the server, by its kind.
///
/// `flag` says whether the first byte of the fields is not zero and
/// `first` is the number in their first four bytes; a few kinds are laid
/// out by one of them.
pub open spec fn spec_server_layout(t: EnumPacketServer, flag: bool, first: i32) -> Seq<FieldModel> {
    match t {
        EnumPacketServer::Delete | EnumPacketServer::RemoteMainMenu | EnumPacketServer::RemoteDelete | EnumPacketServer::RemoteReset | EnumPacketServer::RemoteTpToNpc => seq![fm("entity_id", FieldKind::Int)],
        EnumPacketServer::DialogNpcSet => seq![fm("slot", FieldKind::Int), fm("dialog_id", FieldKind::Int)],
        EnumPacketServer::DialogNpcRemove | EnumPacketServer::FactionSet | EnumPacketServer::DialogsGet | EnumPacketServer::DialogGet | EnumPacketServer::DialogRemove | EnumPacketServer::DialogsGetFromDialog | EnumPacketServer::QuestsGetFromQuest | EnumPacketServer::QuestsGet | EnumPacketServer::QuestGet | EnumPacketServer::QuestRemove | EnumPacketServer::QuestCategoryGet | EnumPacketServer::QuestCategoryRemove | EnumPacketServer::DialogCategoryGet | EnumPacketServer::DialogCategoryRemove | EnumPacketServer::BankGet | EnumPacketServer::BankRemove | EnumPacketServer::FactionGet | EnumPacketServer::FactionRemove | EnumPacketServer::TagGet | EnumPacketServer::TagRemove | EnumPacketServer::TransportsGet | EnumPacketServer::TransportRemove | EnumPacketServer::TransportCategoryRemove | EnumPacketServer::RecipeGet | EnumPacketServer::RecipeRemove | EnumPacketServer::NaturalSpawnGet | EnumPacketServer::NaturalSpawnRemove | EnumPacketServer::RecipesGet | EnumPacketServer::CloneList | EnumPacketServer::CloneTagList | EnumPacketServer::DimensionTeleport | EnumPacketServer::RoleCompanionUpdate => seq![fm("id", FieldKind::Int)],
        EnumPacketServer::Gui => seq![fm("gui_type", FieldKind::Int), fm("x", FieldKind::Int), fm("y", FieldKind::Int), fm("z", FieldKind::Int)],
        EnumPacketServer::GetTileEntity => seq![fm("x", FieldKind::Int), fm("y", FieldKind::Int), fm("z", FieldKind::Int)],
        EnumPacketServer::SpawnMob | EnumPacketServer::MobSpawner => if flag {
            seq![fm("from_server", FieldKind::Bool), fm("x", FieldKind::Int), fm("y", FieldKind::Int), fm("z", FieldKind::Int), fm("clone_name", FieldKind::Str), fm("tab", FieldKind::Int)]
        } else {
            seq![fm("from_server", FieldKind::Bool), fm("x", FieldKind::Int), fm("y", FieldKind::Int), fm("z", FieldKind::Int), fm("nbt_data", FieldKind::Nbt)]
        },
        EnumPacketServer::ClonePreSave => seq![fm("clone_name", FieldKind::Str), fm("tab", FieldKind::Int)],
        EnumPacketServer::CloneSave => seq![fm("clone_name", FieldKind::Str), fm("tab", FieldKind::Int), fm("nbt_extra", FieldKind::Nbt)],
        EnumPacketServer::CloneRemove => seq![fm("tab", FieldKind::Int), fm("clone_name", FieldKind::Str)],
        EnumPacketServer::LinkedSet | EnumPacketServer::LinkedAdd | EnumPacketServer::LinkedRemove | EnumPacketServer::AnimationGet | EnumPacketServer::AnimationDelete => seq![fm("name", FieldKind::Str)],
        EnumPacketServer::AnimationSave => seq![fm("prev_name", FieldKind::Str), fm("nbt_data", FieldKind::Nbt)],
        EnumPacketServer::DialogSave | EnumPacketServer::QuestSave => seq![fm("category_id", FieldKind::Int), fm("nbt_data", FieldKind::Nbt)],
        EnumPacketServer::TransportSave => seq![fm("category_id", FieldKind::Int), fm("nbt_data", FieldKind::Nbt)],
        EnumPacketServer::TransportCategorySave => seq![fm("category_name", FieldKind::Str), fm("category_id", FieldKind::Int)],
        EnumPacketServer::TraderMarketSave => seq![fm("market", FieldKind::Str), fm("load", FieldKind::Bool)],
        EnumPacketServer::TransformLoad => seq![fm("transform", FieldKind::Bool)],
        EnumPacketServer::PlayerDataGet => if first != 0 {
            seq![fm("data_type", FieldKind::Int), fm("player_name", FieldKind::Str)]
        } else {
            seq![fmc("data_type", FieldKind::IntNamed, "Players")]
        },
        EnumPacketServer::QuestDialogGetTitle => seq![fm("dialog1_id", FieldKind::Int), fm("dialog2_id", FieldKind::Int), fm("dialog3_id", FieldKind::Int)],
        EnumPacketServer::MerchantUpdate => seq![fm("entity_id", FieldKind::Int), fm("recipe_list", FieldKind::Raw)],
        EnumPacketServer::CustomGuiButton => seq![fm("gui_nbt", FieldKind::NbtApprox), fmc("button_id", FieldKind::Const, "(at end)")],
        EnumPacketServer::CustomGuiScrollClick => seq![fmc("gui_nbt", FieldKind::Const, "[NBT]"), fmc("scroll_id", FieldKind::Const, "(int)"), fmc("index", FieldKind::Const, "(int)"), fmc("selection", FieldKind::Const, "(data)"), fmc("double_click", FieldKind::Const, "(bool)")],
        EnumPacketServer::CustomGuiUnfocused => seq![fmc("gui_nbt", FieldKind::Const, "[NBT]"), fmc("element_id", FieldKind::Const, "(int)")],
        EnumPacketServer::JobSpawnerAdd => if flag {
            seq![fm("from_clone", FieldKind::Bool), fm("clone_name", FieldKind::Str), fm("tab", FieldKind::Int), fm("slot", FieldKind::Int)]
        } else {
            seq![fm("from_clone", FieldKind::Bool), fm("slot", FieldKind::Int), fm("nbt_data", FieldKind::Nbt)]
        },
        EnumPacketServer::QuestOpenGui => seq![fm("gui_id", FieldKind::Int), fm("quest_nbt", FieldKind::Nbt)],
        EnumPacketServer::NpcMenuClose | EnumPacketServer::RemoteFreeze | EnumPacketServer::MainmenuAIGet | EnumPacketServer::MainmenuInvGet | EnumPacketServer::MainmenuStatsGet | EnumPacketServer::MainmenuDisplayGet | EnumPacketServer::MainmenuAdvancedGet | EnumPacketServer::TransformGet | EnumPacketServer::JobGet | EnumPacketServer::RoleGet | EnumPacketServer::TransportGetLocation | EnumPacketServer::ScriptDataGet | EnumPacketServer::EventScriptDataGet | EnumPacketServer::ScriptPlayerGet | EnumPacketServer::ScriptForgeGet | EnumPacketServer::ScriptGlobalNPCGet | EnumPacketServer::ScriptItemDataGet | EnumPacketServer::ScriptGlobalGuiDataGet | EnumPacketServer::LinkedGetAll | EnumPacketServer::BanksGet | EnumPacketServer::DialogCategoriesGet | EnumPacketServer::TransportCategoriesGet | EnumPacketServer::FactionsGet | EnumPacketServer::TagsGet | EnumPacketServer::NpcTagsGet | EnumPacketServer::QuestCategoriesGet | EnumPacketServer::NaturalSpawnGetAll | EnumPacketServer::DimensionsGet | EnumPacketServer::DialogNpcGet | EnumPacketServer::AnimationListGet | EnumPacketServer::AnimationAdd | EnumPacketServer::RemoteNpcsGet | EnumPacketServer::PlayerRider | EnumPacketServer::PlayerDataRegen | EnumPacketServer::MovingPathGet | EnumPacketServer::CloneAllTags | EnumPacketServer::CloneAllTagsShort | EnumPacketServer::JobSpawnerRemove | EnumPacketServer::IsGuiOpen => Seq::<FieldModel>::empty(),
        EnumPacketServer::MainmenuAISave | EnumPacketServer::MainmenuInvSave | EnumPacketServer::MainmenuStatsSave | EnumPacketServer::MainmenuDisplaySave | EnumPacketServer::MainmenuAdvancedSave | EnumPacketServer::ModelDataSave | EnumPacketServer::TransformSave | EnumPacketServer::JobSave | EnumPacketServer::RoleSave | EnumPacketServer::TagSet | EnumPacketServer::ScriptDataSave | EnumPacketServer::BankSave | EnumPacketServer::DialogCategorySave | EnumPacketServer::QuestCategorySave | EnumPacketServer::QuestRewardSave | EnumPacketServer::FactionSave | EnumPacketServer::TagSave | EnumPacketServer::NaturalSpawnSave | EnumPacketServer::RecipeSave | EnumPacketServer::MovingPathSave | EnumPacketServer::SaveTileEntity | EnumPacketServer::MailOpenSetup | EnumPacketServer::SpawnRider | EnumPacketServer::CustomGuiClose | EnumPacketServer::ScriptGlobalGuiDataSave | EnumPacketServer::ServerUpdateSkinOverlays => seq![fm("nbt_data", FieldKind::Nbt)],
        _ => seq![fm("raw_data", FieldKind::Raw)],
    }
}

/// The layout of a kind, see [`spec_server_layout`].
pub fn server_layout(t: EnumPacketServer, flag: bool, first: i32) -> (layout: Vec<FieldSpec>)
    ensures
        layout_models(layout@) == spec_server_layout(t, flag, first),
{
    let layout: Vec<FieldSpec> = match t {
        EnumPacketServer::Delete | EnumPacketServer::RemoteMainMenu | EnumPacketServer::RemoteDelete | EnumPacketServer::RemoteReset | EnumPacketServer::RemoteTpToNpc => vec![fs("entity_id", FieldKind::Int)],
        EnumPacketServer::DialogNpcSet => vec![fs("slot", FieldKind::Int), fs("dialog_id", FieldKind::Int)],
        EnumPacketServer::DialogNpcRemove | EnumPacketServer::FactionSet | EnumPacketServer::DialogsGet | EnumPacketServer::DialogGet | EnumPacketServer::DialogRemove | EnumPacketServer::DialogsGetFromDialog | EnumPacketServer::QuestsGetFromQuest | EnumPacketServer::QuestsGet | EnumPacketServer::QuestGet | EnumPacketServer::QuestRemove | EnumPacketServer::QuestCategoryGet | EnumPacketServer::QuestCategoryRemove | EnumPacketServer::DialogCategoryGet | EnumPacketServer::DialogCategoryRemove | EnumPacketServer::BankGet | EnumPacketServer::BankRemove | EnumPacketServer::FactionGet | EnumPacketServer::FactionRemove | EnumPacketServer::TagGet | EnumPacketServer::TagRemove | EnumPacketServer::TransportsGet | EnumPacketServer::TransportRemove | EnumPacketServer::TransportCategoryRemove | EnumPacketServer::RecipeGet | EnumPacketServer::RecipeRemove | EnumPacketServer::NaturalSpawnGet | EnumPacketServer::NaturalSpawnRemove | EnumPacketServer::RecipesGet | EnumPacketServer::CloneList | EnumPacketServer::CloneTagList | EnumPacketServer::DimensionTeleport | EnumPacketServer::RoleCompanionUpdate => vec![fs("id", FieldKind::Int)],
        EnumPacketServer::Gui => vec![fs("gui_type", FieldKind::Int), fs("x", FieldKind::Int), fs("y", FieldKind::Int), fs("z", FieldKind::Int)],
        EnumPacketServer::GetTileEntity => vec![fs("x", FieldKind::Int), fs("y", FieldKind::Int), fs("z", FieldKind::Int)],
        EnumPacketServer::SpawnMob | EnumPacketServer::MobSpawner => if flag {
            vec![fs("from_server", FieldKind::Bool), fs("x", FieldKind::Int), fs("y", FieldKind::Int), fs("z", FieldKind::Int), fs("clone_name", FieldKind::Str), fs("tab", FieldKind::Int)]
        } else {
            vec![fs("from_server", FieldKind::Bool), fs("x", FieldKind::Int), fs("y", FieldKind::Int), fs("z", FieldKind::Int), fs("nbt_data", FieldKind::Nbt)]
        },
        EnumPacketServer::ClonePreSave => vec![fs("clone_name", FieldKind::Str), fs("tab", FieldKind::Int)],
        EnumPacketServer::CloneSave => vec![fs("clone_name", FieldKind::Str), fs("tab", FieldKind::Int), fs("nbt_extra", FieldKind::Nbt)],
        EnumPacketServer::CloneRemove => vec![fs("tab", FieldKind::Int), fs("clone_name", FieldKind::Str)],
        EnumPacketServer::LinkedSet | EnumPacketServer::LinkedAdd | EnumPacketServer::LinkedRemove | EnumPacketServer::AnimationGet | EnumPacketServer::AnimationDelete => vec![fs("name", FieldKind::Str)],
        EnumPacketServer::AnimationSave => vec![fs("prev_name", FieldKind::Str), fs("nbt_data", FieldKind::Nbt)],
        EnumPacketServer::DialogSave | EnumPacketServer::QuestSave => vec![fs("category_id", FieldKind::Int), fs("nbt_data", FieldKind::Nbt)],
        EnumPacketServer::TransportSave => vec![fs("category_id", FieldKind::Int), fs("nbt_data", FieldKind::Nbt)],
        EnumPacketServer::TransportCategorySave => vec![fs("category_name", FieldKind::Str), fs("category_id", FieldKind::Int)],
        EnumPacketServer::TraderMarketSave => vec![fs("market", FieldKind::Str), fs("load", FieldKind::Bool)],
        EnumPacketServer::TransformLoad => vec![fs("transform", FieldKind::Bool)],
        EnumPacketServer::PlayerDataGet => if first != 0 {
            vec![fs("data_type", FieldKind::Int), fs("player_name", FieldKind::Str)]
        } else {
            vec![fsc("data_type", FieldKind::IntNamed, "Players")]
        },
        EnumPacketServer::QuestDialogGetTitle => vec![fs("dialog1_id", FieldKind::Int), fs("dialog2_id", FieldKind::Int), fs("dialog3_id", FieldKind::Int)],
        EnumPacketServer::MerchantUpdate => vec![fs("entity_id", FieldKind::Int), fs("recipe_list", FieldKind::Raw)],
        EnumPacketServer::CustomGuiButton => vec![fs("gui_nbt", FieldKind::NbtApprox), fsc("button_id", FieldKind::Const, "(at end)")],
        EnumPacketServer::CustomGuiScrollClick => vec![fsc("gui_nbt", FieldKind::Const, "[NBT]"), fsc("scroll_id", FieldKind::Const, "(int)"), fsc("index", FieldKind::Const, "(int)"), fsc("selection", FieldKind::Const, "(data)"), fsc("double_click", FieldKind::Const, "(bool)")],
        EnumPacketServer::CustomGuiUnfocused => vec![fsc("gui_nbt", FieldKind::Const, "[NBT]"), fsc("element_id", FieldKind::Const, "(int)")],
        EnumPacketServer::JobSpawnerAdd => if flag {
            vec![fs("from_clone", FieldKind::Bool), fs("clone_name", FieldKind::Str), fs("tab", FieldKind::Int), fs("slot", FieldKind::Int)]
        } else {
            vec![fs("from_clone", FieldKind::Bool), fs("slot", FieldKind::Int), fs("nbt_data", FieldKind::Nbt)]
        },
        EnumPacketServer::QuestOpenGui => vec![fs("gui_id", FieldKind::Int), fs("quest_nbt", FieldKind::Nbt)],
        EnumPacketServer::NpcMenuClose | EnumPacketServer::RemoteFreeze | EnumPacketServer::MainmenuAIGet | EnumPacketServer::MainmenuInvGet | EnumPacketServer::MainmenuStatsGet | EnumPacketServer::MainmenuDisplayGet | EnumPacketServer::MainmenuAdvancedGet | EnumPacketServer::TransformGet | EnumPacketServer::JobGet | EnumPacketServer::RoleGet | EnumPacketServer::TransportGetLocation | EnumPacketServer::ScriptDataGet | EnumPacketServer::EventScriptDataGet | EnumPacketServer::ScriptPlayerGet | EnumPacketServer::ScriptForgeGet | EnumPacketServer::ScriptGlobalNPCGet | EnumPacketServer::ScriptItemDataGet | EnumPacketServer::ScriptGlobalGuiDataGet | EnumPacketServer::LinkedGetAll | EnumPacketServer::BanksGet | EnumPacketServer::DialogCategoriesGet | EnumPacketServer::TransportCategoriesGet | EnumPacketServer::FactionsGet | EnumPacketServer::TagsGet | EnumPacketServer::NpcTagsGet | EnumPacketServer::QuestCategoriesGet | EnumPacketServer::NaturalSpawnGetAll | EnumPacketServer::DimensionsGet | EnumPacketServer::DialogNpcGet | EnumPacketServer::AnimationListGet | EnumPacketServer::AnimationAdd | EnumPacketServer::RemoteNpcsGet | EnumPacketServer::PlayerRider | EnumPacketServer::PlayerDataRegen | EnumPacketServer::MovingPathGet | EnumPacketServer::CloneAllTags | EnumPacketServer::CloneAllTagsShort | EnumPacketServer::JobSpawnerRemove | EnumPacketServer::IsGuiOpen => Vec::new(),
        EnumPacketServer::MainmenuAISave | EnumPacketServer::MainmenuInvSave | EnumPacketServer::MainmenuStatsSave | EnumPacketServer::MainmenuDisplaySave | EnumPacketServer::MainmenuAdvancedSave | EnumPacketServer::ModelDataSave | EnumPacketServer::TransformSave | EnumPacketServer::JobSave | EnumPacketServer::RoleSave | EnumPacketServer::TagSet | EnumPacketServer::ScriptDataSave | EnumPacketServer::BankSave | EnumPacketServer::DialogCategorySave | EnumPacketServer::QuestCategorySave | EnumPacketServer::QuestRewardSave | EnumPacketServer::FactionSave | EnumPacketServer::TagSave | EnumPacketServer::NaturalSpawnSave | EnumPacketServer::RecipeSave | EnumPacketServer::MovingPathSave | EnumPacketServer::SaveTileEntity | EnumPacketServer::MailOpenSetup | EnumPacketServer::SpawnRider | EnumPacketServer::CustomGuiClose | EnumPacketServer::ScriptGlobalGuiDataSave | EnumPacketServer::ServerUpdateSkinOverlays => vec![fs("nbt_data", FieldKind::Nbt)],
        _ => vec![fs("raw_data", FieldKind::Raw)],
    };
    assert(layout_models(layout@) =~= spec_server_layout(t, flag, first));
    layout
}

/// Whether the byte at `at` is there and not zero.
pub open spec fn spec_peek_flag(data: Seq<u8>, at: int) -> bool {
    0 <= at < data.len() && data[at] != 0
}

/// The number in the four bytes at `at`, 0 when they are not all there.
pub open spec fn spec_peek_int(data: Seq<u8>, at: int) -> i32 {
    if 0 <= at && at + 4 <= data.len() {
        spec_u32_be(data, at) as i32
    } else {
        0
    }
}

/// Looks at the first byte and the first four bytes that are left, without
/// moving the cursor.
fn peek(reader: &ModPacketReader) -> (r: (bool, i32))
    ensures
        r.0 == spec_peek_flag(reader.spec_data(), reader.spec_offset() as int),
        r.1 == spec_peek_int(reader.spec_data(), reader.spec_offset() as int),
{
    let _ = reader.available();
    let rest = reader.remaining();
    let ghost data = reader.spec_data();
    let ghost at = reader.spec_offset() as int;
    let flag = rest.len() >= 1 && rest[0] != 0;
    let first = if rest.len() >= 4 {
        proof {
            assert(rest@[0] == data[at] && rest@[1] == data[at + 1] && rest@[2] == data[at + 2]
                && rest@[3] == data[at + 3]);
        }
        let v: u32 = (rest[0] as u32) * 0x100_0000 + (rest[1] as u32) * 0x1_0000 + (
        rest[2] as u32) * 0x100 + (rest[3] as u32);
        #[verifier::truncate]
        (v as i32)
    } else {
        0
    };
    (flag, first)
}

/// What is shown of a packet bound for the client: the name of its kind and
/// its fields. `None` for a number that stands for no kind, and when a field
/// cannot be read.
pub open spec fn spec_decode_client(packet_id: i32, data: Seq<u8>, at: int) -> Option<
    (Seq<char>, Seq<FlatField>),
> {
    match EnumPacketClient::spec_from_id(packet_id) {
        None => None,
        Some(t) => match spec_read_fields(
            spec_client_layout(t, spec_peek_flag(data, at), spec_peek_int(data, at)),
            data,
            at,
        ) {
            None => None,
            Some(fields) => Some((t.spec_name(), fields)),
        },
    }
}

/// What is shown of a packet bound for the server, see
/// [`spec_decode_client`].
pub open spec fn spec_decode_server(packet_id: i32, data: Seq<u8>, at: int) -> Option<
    (Seq<char>, Seq<FlatField>),
> {
    match EnumPacketServer::spec_from_id(packet_id) {
        None => None,
        Some(t) => match spec_read_fields(
            spec_server_layout(t, spec_peek_flag(data, at), spec_peek_int(data, at)),
            data,
            at,
        ) {
            None => None,
            Some(fields) => Some((t.spec_name(), fields)),
        },
    }
}

/// Decodes the fields of a packet bound for the client whose kind has the
/// number `packet_id`, see [`spec_decode_client`].
pub fn decode_client_packet(packet_id: i32, reader: &mut ModPacketReader) -> (r: Option<
    DecodedStruct,
>)
    ensures
        final(reader).spec_data() == old(reader).spec_data(),
        shows(
            r,
            spec_decode_client(packet_id, old(reader).spec_data(), old(reader).spec_offset() as int),
        ),
{
    let packet_type = match EnumPacketClient::from_id(packet_id) {
        Some(t) => t,
        None => {
            return None;
        },
    };
    let (flag, first) = peek(reader);
    let layout = client_layout(packet_type, flag, first);
    match read_fields(&layout, reader) {
        Some(fields) => Some(DecodedStruct { name: String::from_str(packet_type.name()), fields }),
        None => None,
    }
}

/// Decodes the fields of a packet bound for the server whose kind has the
/// number `packet_id`, see [`spec_decode_server`].
pub fn decode_server_packet(packet_id: i32, reader: &mut ModPacketReader) -> (r: Option<
    DecodedStruct,
>)
    ensures
        final(reader).spec_data() == old(reader).spec_data(),
        shows(
            r,
            spec_decode_server(packet_id, old(reader).spec_data(), old(reader).spec_offset() as int),
        ),
{
    let packet_type = match EnumPacketServer::from_id(packet_id) {
        Some(t) => t,
        None => {
            return None;
        },
    };
    let (flag, first) = peek(reader);
    let layout = server_layout(packet_type, flag, first);
    match read_fields(&layout, reader) {
        Some(fields) => Some(DecodedStruct { name: String::from_str(packet_type.name()), fields }),
        None => None,
    }
}

/// What is shown of a payload of the channel: its first four bytes are the
/// number of its kind, the rest are the fields.
pub open spec fn spec_try_decode(payload: Seq<u8>, bound: Bound) -> Option<
    (Seq<char>, Seq<FlatField>),
> {
    if payload.len() < 4 {
        None
    } else {
        match bound {
            Bound::Client => spec_decode_client(spec_u32_be(payload, 0) as i32, payload, 4),
            Bound::Server => spec_decode_server(spec_u32_be(payload, 0) as i32, payload, 4),
        }
    }
}

/// Decodes a payload of the channel, see [`spec_try_decode`].
pub fn try_decode(payload: &[u8], bound: Bound) -> (r: Option<DecodedStruct>)
    ensures
        shows(r, spec_try_decode(payload@, bound)),
{
    if payload.len() < 4 {
        return None;
    }
    let mut reader = ModPacketReader::new(payload);
    let packet_id = match reader.read_i32_be() {
        Ok(id) => id,
        Err(_) => {
            return None;
        },
    };
    match bound {
        Bound::Client => decode_client_packet(packet_id, &mut reader),
        Bound::Server => decode_server_packet(packet_id, &mut reader),
    }
}

/// The decoder of the channel.
#[derive(Clone, Copy, Debug)]
pub struct CustomNpcsPayloadDecoder;

impl Default for CustomNpcsPayloadDecoder {
    fn default() -> Self {
        CustomNpcsPayloadDecoder
    }
}

impl CustomPayloadDecoder for CustomNpcsPayloadDecoder {
    open spec fn spec_channel(&self) -> Seq<char> {
        CHANNEL@
    }

    open spec fn decodes(&self, payload: Seq<u8>, bound: Bound, r: Option<DecodedStruct>) -> bool {
        shows(r, spec_try_decode(payload, bound))
    }

    fn channel(&self) -> (c: &'static str) {
        CHANNEL
    }

    fn try_decode(&self, payload: &[u8], bound: Bound) -> (r: Option<DecodedStruct>) {
        try_decode(payload, bound)
    }
}

/// Registers the decoder of the channel.
pub fn register_customnpcs_decoder(registry: &mut DecoderRegistry<ModDecoder>)
    ensures
        final(registry)@ == crate::custom_payload::spec_registered(
            old(registry)@,
            ModDecoder::CustomNpcs(CustomNpcsPayloadDecoder),
        ),
{
    crate::custom_payload::register_decoder_boxed(
        registry,
        ModDecoder::CustomNpcs(CustomNpcsPayloadDecoder),
    );
}

} // verus!
