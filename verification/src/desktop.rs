//! Decisions of the desktop shell: what a menu item asks for, autostart
//! detection, and which resolved ASR files a voice session needs.
use vstd::prelude::*;
use vstd::string::*;

use crate::asr::config::{kind_is_streaming, model_kind_name, AsrModelKind, ResolvedAsrConfig};
use crate::text::{concat2, has_prefix, opt_view, str_eq, strip_prefix};

verus! {

/// Prefix of the "switch companion" menu items: `companion_set_<id>`.
pub const COMPANION_SET_PREFIX: &'static str = "companion_set_";

/// The companion id of a menu item id: the text after the prefix, when
/// there is any.
pub open spec fn companion_id_of(id: Seq<char>) -> Option<Seq<char>> {
    if has_prefix(id, "companion_set_"@) && id.len() > "companion_set_"@.len() {
        Some(id.subrange("companion_set_"@.len() as int, id.len() as int))
    } else {
        None
    }
}

pub fn companion_id_from_menu_id(id: &str) -> (r: Option<&str>)
    ensures
        match r {
            Some(c) => companion_id_of(id@) == Some(c@),
            None => companion_id_of(id@) is None,
        },
{
    match strip_prefix(id, COMPANION_SET_PREFIX) {
        Some(rest) => if rest.unicode_len() > 0 {
            Some(rest)
        } else {
            None
        },
        None => None,
    }
}

/// Whether the process was started by the autostart entry: some argument
/// is exactly `--autostart`.
pub fn is_launched_by_autostart(args: &[&str]) -> (r: bool)
    ensures
        r == exists|i: int| 0 <= i < args@.len() && (#[trigger] args@[i])@ == "--autostart"@,
{
    let mut i: usize = 0;
    while i < args.len()
        invariant
            0 <= i <= args@.len(),
            forall|k: int| 0 <= k < i ==> (#[trigger] args@[k])@ != "--autostart"@,
        decreases args@.len() - i,
    {
        if str_eq(args[i], "--autostart") {
            return true;
        }
        i = i + 1;
    }
    false
}

/// The autostart menu item (id, label): it offers the opposite of the
/// current state.
pub fn autostart_item_labels(enabled: bool) -> (r: (&'static str, &'static str))
    ensures
        enabled ==> r.0@ == "disable_autostart"@ && r.1@ == "关闭开机自启动"@,
        !enabled ==> r.0@ == "enable_autostart"@ && r.1@ == "开机自启动"@,
{
    if enabled {
        ("disable_autostart", "关闭开机自启动")
    } else {
        ("enable_autostart", "开机自启动")
    }
}

/// Window level of the companion.
#[derive(Debug, Clone, Copy, PartialEq, Eq, Structural)]
pub enum CompanionWindowLayer {
    Front,
    Back,
}

impl Default for CompanionWindowLayer {
    /// The companion stays in front by default.
    fn default() -> (r: Self)
        ensures
            r == CompanionWindowLayer::Front,
    {
        CompanionWindowLayer::Front
    }
}

/// A simulated keyboard/mouse show of the companion.
#[derive(Debug, Clone, Copy, PartialEq, Eq, Structural)]
pub enum PerformanceScene {
    Typing,
    Mouse,
    Both,
}

/// What a menu item asks the shell to do.
#[derive(Debug)]
pub enum MenuAction {
    ShowSettings,
    ToggleCompanion,
    HideCompanion,
    ToggleChatbox,
    Restart,
    Quit,
    SetClickThrough(bool),
    SetSmartClickThrough(bool),
    SetLocked(bool),
    SetAutostart(bool),
    Perform(PerformanceScene),
    StopPerformance,
    /// Companion scale in percent.
    SetScalePercent(u32),
    /// Companion opacity in percent.
    SetOpacityPercent(u32),
    SetLayer(CompanionWindowLayer),
    SwitchCompanion(String),
    /// An id that no action answers to.
    Ignore,
}

/// The scale items: `scale_25` … `scale_200`, in percent.
pub open spec fn scale_percent_of(id: Seq<char>) -> Option<u32> {
    if id == "scale_25"@ {
        Some(25)
    } else if id == "scale_50"@ {
        Some(50)
    } else if id == "scale_70"@ {
        Some(70)
    } else if id == "scale_100"@ {
        Some(100)
    } else if id == "scale_150"@ {
        Some(150)
    } else if id == "scale_200"@ {
        Some(200)
    } else {
        None
    }
}

/// The opacity items: `opacity_100` down to `opacity_20`, in percent.
pub open spec fn opacity_percent_of(id: Seq<char>) -> Option<u32> {
    if id == "opacity_100"@ {
        Some(100)
    } else if id == "opacity_80"@ {
        Some(80)
    } else if id == "opacity_60"@ {
        Some(60)
    } else if id == "opacity_40"@ {
        Some(40)
    } else if id == "opacity_20"@ {
        Some(20)
    } else {
        None
    }
}

pub open spec fn layer_of(id: Seq<char>) -> Option<CompanionWindowLayer> {
    if id == "layer_front"@ {
        Some(CompanionWindowLayer::Front)
    } else if id == "layer_back"@ {
        Some(CompanionWindowLayer::Back)
    } else {
        None
    }
}

pub fn scale_percent_from_id(id: &str) -> (r: Option<u32>)
    ensures
        r == scale_percent_of(id@),
{
    if str_eq(id, "scale_25") {
        Some(25)
    } else if str_eq(id, "scale_50") {
        Some(50)
    } else if str_eq(id, "scale_70") {
        Some(70)
    } else if str_eq(id, "scale_100") {
        Some(100)
    } else if str_eq(id, "scale_150") {
        Some(150)
    } else if str_eq(id, "scale_200") {
        Some(200)
    } else {
        None
    }
}

pub fn opacity_percent_from_id(id: &str) -> (r: Option<u32>)
    ensures
        r == opacity_percent_of(id@),
{
    if str_eq(id, "opacity_100") {
        Some(100)
    } else if str_eq(id, "opacity_80") {
        Some(80)
    } else if str_eq(id, "opacity_60") {
        Some(60)
    } else if str_eq(id, "opacity_40") {
        Some(40)
    } else if str_eq(id, "opacity_20") {
        Some(20)
    } else {
        None
    }
}

pub fn layer_from_id(id: &str) -> (r: Option<CompanionWindowLayer>)
    ensures
        r == layer_of(id@),
{
    if str_eq(id, "layer_front") {
        Some(CompanionWindowLayer::Front)
    } else if str_eq(id, "layer_back") {
        Some(CompanionWindowLayer::Back)
    } else {
        None
    }
}

/// The action of the fixed menu ids.
pub open spec fn fixed_action_of(id: Seq<char>) -> Option<MenuAction> {
    if id == "show_settings"@ || id == "open_settings"@ {
        Some(MenuAction::ShowSettings)
    } else if id == "toggle_companion"@ {
        Some(MenuAction::ToggleCompanion)
    } else if id == "hide_companion"@ {
        Some(MenuAction::HideCompanion)
    } else if id == "toggle_chatbox"@ {
        Some(MenuAction::ToggleChatbox)
    } else if id == "restart"@ {
        Some(MenuAction::Restart)
    } else if id == "quit"@ {
        Some(MenuAction::Quit)
    } else if id == "enable_click_through"@ {
        Some(MenuAction::SetClickThrough(true))
    } else if id == "disable_click_through"@ {
        Some(MenuAction::SetClickThrough(false))
    } else if id == "enable_smart_click_through"@ {
        Some(MenuAction::SetSmartClickThrough(true))
    } else if id == "disable_smart_click_through"@ {
        Some(MenuAction::SetSmartClickThrough(false))
    } else if id == "enable_lock"@ {
        Some(MenuAction::SetLocked(true))
    } else if id == "disable_lock"@ {
        Some(MenuAction::SetLocked(false))
    } else if id == "enable_autostart"@ {
        Some(MenuAction::SetAutostart(true))
    } else if id == "disable_autostart"@ {
        Some(MenuAction::SetAutostart(false))
    } else if id == "perform_typing"@ {
        Some(MenuAction::Perform(PerformanceScene::Typing))
    } else if id == "perform_mouse"@ {
        Some(MenuAction::Perform(PerformanceScene::Mouse))
    } else if id == "perform_both"@ {
        Some(MenuAction::Perform(PerformanceScene::Both))
    } else if id == "perform_stop"@ {
        Some(MenuAction::StopPerformance)
    } else {
        None
    }
}

/// What a menu id asks for: a fixed id, else a scale, an opacity, a layer,
/// a companion switch, in that order; anything else is ignored.
pub open spec fn is_menu_action(id: Seq<char>, a: MenuAction) -> bool {
    match fixed_action_of(id) {
        Some(f) => a == f,
        None => if scale_percent_of(id) is Some {
            a == MenuAction::SetScalePercent(scale_percent_of(id).unwrap())
        } else if opacity_percent_of(id) is Some {
            a == MenuAction::SetOpacityPercent(opacity_percent_of(id).unwrap())
        } else if layer_of(id) is Some {
            a == MenuAction::SetLayer(layer_of(id).unwrap())
        } else if companion_id_of(id) is Some {
            a matches MenuAction::SwitchCompanion(c) && c@ == companion_id_of(id).unwrap()
        } else {
            a is Ignore
        },
    }
}

fn fixed_menu_action(id: &str) -> (r: Option<MenuAction>)
    ensures
        r == fixed_action_of(id@),
{
    if str_eq(id, "show_settings") || str_eq(id, "open_settings") {
        Some(MenuAction::ShowSettings)
    } else if str_eq(id, "toggle_companion") {
        Some(MenuAction::ToggleCompanion)
    } else if str_eq(id, "hide_companion") {
        Some(MenuAction::HideCompanion)
    } else if str_eq(id, "toggle_chatbox") {
        Some(MenuAction::ToggleChatbox)
    } else if str_eq(id, "restart") {
        Some(MenuAction::Restart)
    } else if str_eq(id, "quit") {
        Some(MenuAction::Quit)
    } else if str_eq(id, "enable_click_through") {
        Some(MenuAction::SetClickThrough(true))
    } else if str_eq(id, "disable_click_through") {
        Some(MenuAction::SetClickThrough(false))
    } else if str_eq(id, "enable_smart_click_through") {
        Some(MenuAction::SetSmartClickThrough(true))
    } else if str_eq(id, "disable_smart_click_through") {
        Some(MenuAction::SetSmartClickThrough(false))
    } else if str_eq(id, "enable_lock") {
        Some(MenuAction::SetLocked(true))
    } else if str_eq(id, "disable_lock") {
        Some(MenuAction::SetLocked(false))
    } else if str_eq(id, "enable_autostart") {
        Some(MenuAction::SetAutostart(true))
    } else if str_eq(id, "disable_autostart") {
        Some(MenuAction::SetAutostart(false))
    } else if str_eq(id, "perform_typing") {
        Some(MenuAction::Perform(PerformanceScene::Typing))
    } else if str_eq(id, "perform_mouse") {
        Some(MenuAction::Perform(PerformanceScene::Mouse))
    } else if str_eq(id, "perform_both") {
        Some(MenuAction::Perform(PerformanceScene::Both))
    } else if str_eq(id, "perform_stop") {
        Some(MenuAction::StopPerformance)
    } else {
        None
    }
}

/// Routes a menu event of the app menu, the tray or the companion's
/// context menu to its action.
pub fn menu_action(id: &str) -> (r: MenuAction)
    ensures
        is_menu_action(id@, r),
{
    if let Some(a) = fixed_menu_action(id) {
        return a;
    }
    if let Some(p) = scale_percent_from_id(id) {
        return MenuAction::SetScalePercent(p);
    }
    if let Some(p) = opacity_percent_from_id(id) {
        return MenuAction::SetOpacityPercent(p);
    }
    if let Some(l) = layer_from_id(id) {
        return MenuAction::SetLayer(l);
    }
    match companion_id_from_menu_id(id) {
        Some(c) => MenuAction::SwitchCompanion(crate::text::owned(c)),
        None => MenuAction::Ignore,
    }
}

/// One file that a voice session's ASR needs: a label and the resolved path.
#[derive(Debug)]
pub struct PreflightFile {
    pub label: &'static str,
    pub path: String,
}

pub open spec fn preflight_view(v: Seq<PreflightFile>) -> Seq<(Seq<char>, Seq<char>)> {
    v.map_values(|f: PreflightFile| (f.label@, f.path@))
}

/// The files (label, path) that the voice session checks for each model
/// kind; the tokenizer of Qwen3-ASR is a directory and is checked apart
/// (`tokens_is_dir` tells whether it is one).
pub open spec fn asr_preflight_files(cfg: ResolvedAsrConfig, tokens_is_dir: bool) -> Result<
    Seq<(Seq<char>, Seq<char>)>,
    Seq<char>,
> {
    match cfg.model_type {
        AsrModelKind::Zipformer => Ok(
            seq![
                ("ASR encoder"@, cfg.encoder@),
                ("ASR decoder"@, cfg.decoder@),
                ("ASR joiner"@, cfg.joiner@),
                ("ASR tokens"@, cfg.tokens@),
            ],
        ),
        AsrModelKind::Paraformer => Ok(
            seq![("ASR encoder"@, cfg.encoder@), ("ASR decoder"@, cfg.decoder@), ("ASR tokens"@, cfg.tokens@)],
        ),
        AsrModelKind::SenseVoice => match opt_view(cfg.model) {
            Some(m) => Ok(seq![("ASR model"@, m), ("ASR tokens"@, cfg.tokens@)]),
            None => Err("SenseVoice 模型未解析出主模型文件"@),
        },
        AsrModelKind::Whisper => Ok(
            seq![("ASR encoder"@, cfg.encoder@), ("ASR decoder"@, cfg.decoder@), ("ASR tokens"@, cfg.tokens@)],
        ),
        AsrModelKind::Qwen3Asr => match opt_view(cfg.model) {
            None => Err("Qwen3-ASR 模型未解析出 conv_frontend 文件"@),
            Some(m) => if !tokens_is_dir {
                Err("缺少 tokenizer 目录: "@ + cfg.tokens@)
            } else {
                Ok(
                    seq![
                        ("ASR conv_frontend"@, m),
                        ("ASR encoder"@, cfg.encoder@),
                        ("ASR decoder"@, cfg.decoder@),
                    ],
                )
            },
        },
    }
}

fn file(label: &'static str, path: &String) -> (r: PreflightFile)
    ensures
        r.label == label,
        r.path@ == path@,
{
    PreflightFile { label, path: path.clone() }
}

pub fn collect_asr_preflight_files(cfg: &ResolvedAsrConfig, tokens_is_dir: bool) -> (r: Result<
    Vec<PreflightFile>,
    String,
>)
    ensures
        match (r, asr_preflight_files(*cfg, tokens_is_dir)) {
            (Ok(v), Ok(s)) => preflight_view(v@) == s,
            (Err(e), Err(m)) => e@ == m,
            _ => false,
        },
{
    let mut v: Vec<PreflightFile> = Vec::new();
    match cfg.model_type {
        AsrModelKind::Zipformer => {
            v.push(file("ASR encoder", &cfg.encoder));
            v.push(file("ASR decoder", &cfg.decoder));
            v.push(file("ASR joiner", &cfg.joiner));
            v.push(file("ASR tokens", &cfg.tokens));
        },
        AsrModelKind::Paraformer | AsrModelKind::Whisper => {
            v.push(file("ASR encoder", &cfg.encoder));
            v.push(file("ASR decoder", &cfg.decoder));
            v.push(file("ASR tokens", &cfg.tokens));
        },
        AsrModelKind::SenseVoice => {
            match &cfg.model {
                Some(m) => {
                    v.push(file("ASR model", m));
                    v.push(file("ASR tokens", &cfg.tokens));
                },
                None => {
                    return Err(crate::text::owned("SenseVoice 模型未解析出主模型文件"));
                },
            }
        },
        AsrModelKind::Qwen3Asr => {
            match &cfg.model {
                Some(m) => {
                    if !tokens_is_dir {
                        return Err(concat2("缺少 tokenizer 目录: ", cfg.tokens.as_str()));
                    }
                    v.push(file("ASR conv_frontend", m));
                    v.push(file("ASR encoder", &cfg.encoder));
                    v.push(file("ASR decoder", &cfg.decoder));
                },
                None => {
                    return Err(crate::text::owned("Qwen3-ASR 模型未解析出 conv_frontend 文件"));
                },
            }
        },
    }
    assert(asr_preflight_files(*cfg, tokens_is_dir) matches Ok(s) && preflight_view(v@) =~= s);
    Ok(v)
}

/// A companion of the library as the switch menu shows it; `valid` tells
/// whether its directory and manifest are still in place.
#[derive(Debug)]
pub struct CompanionRef {
    pub id: String,
    pub name: String,
    pub valid: bool,
}

/// One item of the "switch companion" menu.
#[derive(Debug)]
pub struct CompanionMenuEntry {
    pub id: String,
    pub label: String,
    pub enabled: bool,
    pub checked: bool,
}

/// The item of one companion: id `companion_set_<id>`; an invalid companion
/// is disabled and labelled `（不可用）`; the active one is checked.
pub open spec fn is_menu_entry(m: CompanionRef, active: Option<Seq<char>>, e: CompanionMenuEntry) -> bool {
    &&& e.id@ == "companion_set_"@ + m.id@
    &&& e.label@ == (if m.valid {
        m.name@
    } else {
        m.name@ + "（不可用）"@
    })
    &&& e.enabled == m.valid
    &&& e.checked == (active == Some(m.id@))
}

pub fn companion_menu_entries(models: &Vec<CompanionRef>, active_id: Option<&str>) -> (r: Vec<
    CompanionMenuEntry,
>)
    ensures
        r@.len() == models@.len(),
        forall|i: int|
            0 <= i < r@.len() ==> is_menu_entry(
                #[trigger] models@[i],
                match active_id {
                    Some(a) => Some(a@),
                    None => None,
                },
                r@[i],
            ),
{
    let ghost active = match active_id {
        Some(a) => Some(a@),
        None => None,
    };
    let mut out: Vec<CompanionMenuEntry> = Vec::new();
    let mut i: usize = 0;
    while i < models.len()
        invariant
            0 <= i <= models@.len(),
            out@.len() == i,
            active == match active_id {
                Some(a) => Some(a@),
                None => None,
            },
            forall|k: int| 0 <= k < i ==> is_menu_entry(#[trigger] models@[k], active, out@[k]),
        decreases models@.len() - i,
    {
        let m = &models[i];
        let label = if m.valid {
            m.name.clone()
        } else {
            concat2(m.name.as_str(), "（不可用）")
        };
        let checked = match active_id {
            Some(a) => str_eq(a, m.id.as_str()),
            None => false,
        };
        out.push(
            CompanionMenuEntry {
                id: concat2(COMPANION_SET_PREFIX, m.id.as_str()),
                label,
                enabled: m.valid,
                checked,
            },
        );
        i = i + 1;
    }
    out
}

/// A menu item made for a companion leads back to that companion.
pub proof fn lemma_menu_id_round_trip(id: Seq<char>)
    requires
        id.len() > 0,
    ensures
        companion_id_of("companion_set_"@ + id) == Some(id),
{
    let full = "companion_set_"@ + id;
    let p = "companion_set_"@;
    assert(full.subrange(0, p.len() as int) =~= p);
    assert(full.subrange(p.len() as int, full.len() as int) =~= id);
}

/// What keeps the data directory from being set or migrated.
#[derive(Debug, Clone, Copy)]
pub struct StorageUse {
    /// Any model download in progress (wake word, ASR, TTS, library).
    pub downloading: bool,
    pub voice_session_running: bool,
    /// Wake-word or ASR listening in progress.
    pub listening: bool,
}

/// Downloads block first, then a voice session, then listening.
pub open spec fn storage_busy_error(u: StorageUse) -> Option<Seq<char>> {
    if u.downloading {
        Some("有模型正在下载，请先等待下载完成或取消后再操作"@)
    } else if u.voice_session_running {
        Some("语音会话正在运行，请先停止会话后再操作"@)
    } else if u.listening {
        Some("有监听任务正在运行，请先停止后再操作"@)
    } else {
        None
    }
}

pub fn check_storage_busy(u: StorageUse) -> (r: Result<(), String>)
    ensures
        match storage_busy_error(u) {
            Some(m) => r matches Err(e) && e@ == m,
            None => r is Ok,
        },
{
    if u.downloading {
        Err(crate::text::owned("有模型正在下载，请先等待下载完成或取消后再操作"))
    } else if u.voice_session_running {
        Err(crate::text::owned("语音会话正在运行，请先停止会话后再操作"))
    } else if u.listening {
        Err(crate::text::owned("有监听任务正在运行，请先停止后再操作"))
    } else {
        Ok(())
    }
}

/// Progress stage of a model download.
#[derive(Debug, Clone, Copy, PartialEq, Eq, Structural)]
pub enum DownloadStage {
    Downloading,
    Verifying,
    Extracting,
    Done,
}

/// The stage as the settings page receives it.
pub fn download_stage_str(stage: DownloadStage) -> (r: &'static str)
    ensures
        r@ == match stage {
            DownloadStage::Downloading => "downloading"@,
            DownloadStage::Verifying => "verifying"@,
            DownloadStage::Extracting => "extracting"@,
            DownloadStage::Done => "done"@,
        },
{
    match stage {
        DownloadStage::Downloading => "downloading",
        DownloadStage::Verifying => "verifying",
        DownloadStage::Extracting => "extracting",
        DownloadStage::Done => "done",
    }
}

/// The stage as the command line prints it.
pub fn download_stage_label(stage: DownloadStage) -> (r: &'static str)
    ensures
        r@ == match stage {
            DownloadStage::Downloading => "下载"@,
            DownloadStage::Verifying => "校验"@,
            DownloadStage::Extracting => "解压"@,
            DownloadStage::Done => "完成"@,
        },
{
    match stage {
        DownloadStage::Downloading => "下载",
        DownloadStage::Verifying => "校验",
        DownloadStage::Extracting => "解压",
        DownloadStage::Done => "完成",
    }
}

/// Why dictation cannot start: one already runs, a streaming model is
/// selected (dictation is offline-only), or the offline model is incomplete.
pub open spec fn dictate_start_error(dictating: bool, kind: AsrModelKind, files_present: bool) -> Option<
    Seq<char>,
> {
    if dictating {
        Some("已在听写中"@)
    } else if kind_is_streaming(kind) {
        Some(
            "当前模型类型 "@ + model_kind_name(kind)
                + " 不支持免提听写（离线模型专用）。请先切换 SenseVoice/Whisper/Qwen3-ASR 离线模型。"@,
        )
    } else if !files_present {
        Some("离线模型文件不完整，请在「切换模型」中重新下载或选择完整模型。"@)
    } else {
        None
    }
}

pub fn check_dictate_start(dictating: bool, kind: AsrModelKind, files_present: bool) -> (r: Result<(), String>)
    ensures
        match dictate_start_error(dictating, kind, files_present) {
            Some(m) => r matches Err(e) && e@ == m,
            None => r is Ok,
        },
{
    if dictating {
        Err(crate::text::owned("已在听写中"))
    } else if kind.is_streaming() {
        Err(
            crate::text::concat3(
                "当前模型类型 ",
                kind.as_str(),
                " 不支持免提听写（离线模型专用）。请先切换 SenseVoice/Whisper/Qwen3-ASR 离线模型。",
            ),
        )
    } else if !files_present {
        Err(crate::text::owned("离线模型文件不完整，请在「切换模型」中重新下载或选择完整模型。"))
    } else {
        Ok(())
    }
}

/// Why a voice session cannot start: one already runs, or wake-word and
/// speech recognition are not both enabled.
pub open spec fn voice_start_error(running: bool, kws_enabled: bool, asr_enabled: bool) -> Option<Seq<char>> {
    if running {
        Some("语音会话已在运行中"@)
    } else if !(kws_enabled && asr_enabled) {
        Some("语音互动需要同时启用「唤醒词」(KWS) 与「语音识别」(ASR)。请在模型与能力页开启后重试。"@)
    } else {
        None
    }
}

pub fn check_voice_session_start(running: bool, kws_enabled: bool, asr_enabled: bool) -> (r: Result<
    (),
    String,
>)
    ensures
        match voice_start_error(running, kws_enabled, asr_enabled) {
            Some(m) => r matches Err(e) && e@ == m,
            None => r is Ok,
        },
{
    if running {
        Err(crate::text::owned("语音会话已在运行中"))
    } else if !(kws_enabled && asr_enabled) {
        Err(crate::text::owned("语音互动需要同时启用「唤醒词」(KWS) 与「语音识别」(ASR)。请在模型与能力页开启后重试。"))
    } else {
        Ok(())
    }
}

/// Whether an optional text is absent or blank.
pub open spec fn blank(v: Option<Seq<char>>) -> bool {
    match v {
        Some(t) => crate::text::trim(t).len() == 0,
        None => true,
    }
}

/// What the voice session needs of the LLM: enabled, with an API address
/// and a model name.
pub open spec fn voice_llm_error(enabled: bool, base_url: Option<Seq<char>>, model: Option<Seq<char>>) -> Option<
    Seq<char>,
> {
    if !enabled {
        Some("语音会话需要启用 LLM，请先在设置中启用。"@)
    } else if blank(base_url) {
        Some("语音会话需要配置 LLM API 地址（base_url），请先填写。"@)
    } else if blank(model) {
        Some("语音会话需要配置 LLM 模型名（model），请先填写。"@)
    } else {
        None
    }
}

fn is_blank(v: Option<&str>) -> (r: bool)
    ensures
        r == blank(
            match v {
                Some(t) => Some(t@),
                None => None,
            },
        ),
{
    match v {
        Some(t) => crate::text::trim_str(t).unicode_len() == 0,
        None => true,
    }
}

pub fn check_voice_llm(enabled: bool, base_url: Option<&str>, model: Option<&str>) -> (r: Result<(), String>)
    ensures
        match voice_llm_error(
            enabled,
            match base_url {
                Some(t) => Some(t@),
                None => None,
            },
            match model {
                Some(t) => Some(t@),
                None => None,
            },
        ) {
            Some(m) => r matches Err(e) && e@ == m,
            None => r is Ok,
        },
{
    if !enabled {
        Err(crate::text::owned("语音会话需要启用 LLM，请先在设置中启用。"))
    } else if is_blank(base_url) {
        Err(crate::text::owned("语音会话需要配置 LLM API 地址（base_url），请先填写。"))
    } else if is_blank(model) {
        Err(crate::text::owned("语音会话需要配置 LLM 模型名（model），请先填写。"))
    } else {
        Ok(())
    }
}

/// The capability a library model serves.
#[derive(Debug, Clone, Copy, PartialEq, Eq, Structural)]
pub enum LibModelType {
    Kws,
    Asr,
    Tts,
    Llm,
}

/// What the running capability needs after its model changed.
#[derive(Debug, Clone, Copy, PartialEq, Eq, Structural)]
pub enum LibRuntimeAction {
    /// Nothing to do: the change is in effect.
    NoAction,
    RestartRequired,
}

/// The next step of "use this model".
#[derive(Debug)]
pub enum SetCurrentStep {
    /// Refused, with the reason.
    Reject(String),
    /// The selection is written; the outcome for the user.
    Done { action: LibRuntimeAction, effective_immediately: bool, message: String },
    /// The selection is written and a TTS engine is to be built for the
    /// running voice session (hot swap between sentences).
    SwapTtsInSession,
}

/// The outcome of selecting a model: refused when not installed, without a
/// path, or an LLM (remote only); a running wake-word or ASR listener picks
/// it up at its next start; a running voice session swaps its TTS engine;
/// otherwise it takes effect at once.
pub open spec fn is_set_current_step(
    installed: bool,
    has_path: bool,
    mt: LibModelType,
    kws_listening: bool,
    asr_listening: bool,
    tts_session: bool,
    name: Seq<char>,
    r: SetCurrentStep,
) -> bool {
    if !installed {
        r matches SetCurrentStep::Reject(m) && m@ == "该模型未安装或正在下载，无法设为当前模型"@
    } else if !has_path {
        r matches SetCurrentStep::Reject(m) && m@ == "该模型没有可用路径"@
    } else if mt == LibModelType::Llm {
        r matches SetCurrentStep::Reject(m) && m@
            == "本地 LLM 模型已移除：LLM 改为远程连接，请在 LLM 配置页填写 API 地址与 Key"@
    } else if mt == LibModelType::Kws && kws_listening {
        r matches SetCurrentStep::Done { action, effective_immediately, message } && action
            == LibRuntimeAction::RestartRequired && !effective_immediately && message@ == "已将 "@ + name
            + " 设为 KWS 当前模型，将在下次启动监听时生效"@
    } else if mt == LibModelType::Asr && asr_listening {
        r matches SetCurrentStep::Done { action, effective_immediately, message } && action
            == LibRuntimeAction::RestartRequired && !effective_immediately && message@ == "已将 "@ + name
            + " 设为 ASR 当前模型，将在下次启动识别时生效"@
    } else if mt == LibModelType::Tts && tts_session {
        r is SwapTtsInSession
    } else {
        r matches SetCurrentStep::Done { action, effective_immediately, message } && action
            == LibRuntimeAction::NoAction && effective_immediately && message@ == "已将 "@ + name + " 设为当前模型"@
    }
}

pub fn set_current_step(
    installed: bool,
    has_path: bool,
    mt: LibModelType,
    kws_listening: bool,
    asr_listening: bool,
    tts_session: bool,
    display_name: &str,
) -> (r: SetCurrentStep)
    ensures
        is_set_current_step(installed, has_path, mt, kws_listening, asr_listening, tts_session, display_name@, r),
{
    if !installed {
        return SetCurrentStep::Reject(crate::text::owned("该模型未安装或正在下载，无法设为当前模型"));
    }
    if !has_path {
        return SetCurrentStep::Reject(crate::text::owned("该模型没有可用路径"));
    }
    if mt == LibModelType::Llm {
        return SetCurrentStep::Reject(
            crate::text::owned("本地 LLM 模型已移除：LLM 改为远程连接，请在 LLM 配置页填写 API 地址与 Key"),
        );
    }
    if mt == LibModelType::Kws && kws_listening {
        return SetCurrentStep::Done {
            action: LibRuntimeAction::RestartRequired,
            effective_immediately: false,
            message: crate::text::concat3("已将 ", display_name, " 设为 KWS 当前模型，将在下次启动监听时生效"),
        };
    }
    if mt == LibModelType::Asr && asr_listening {
        return SetCurrentStep::Done {
            action: LibRuntimeAction::RestartRequired,
            effective_immediately: false,
            message: crate::text::concat3("已将 ", display_name, " 设为 ASR 当前模型，将在下次启动识别时生效"),
        };
    }
    if mt == LibModelType::Tts && tts_session {
        return SetCurrentStep::SwapTtsInSession;
    }
    SetCurrentStep::Done {
        action: LibRuntimeAction::NoAction,
        effective_immediately: true,
        message: crate::text::concat3("已将 ", display_name, " 设为当前模型"),
    }
}

/// The outcome of the TTS hot swap: on success the next sentence uses the
/// new model; on failure the previous settings are restored and the error says so.
pub fn tts_swap_outcome(display_name: &str, built: Result<(), String>) -> (r: Result<String, String>)
    ensures
        match built {
            Ok(()) => r matches Ok(m) && m@ == "已将 "@ + display_name@ + " 设为当前模型，语音会话下一句起生效"@,
            Err(e) => r matches Err(m) && m@ == "切换失败（已回滚，语音会话继续使用原模型）："@ + e@,
        },
{
    match built {
        Ok(()) => Ok(crate::text::concat3("已将 ", display_name, " 设为当前模型，语音会话下一句起生效")),
        Err(e) => Err(crate::text::concat2("切换失败（已回滚，语音会话继续使用原模型）：", e.as_str())),
    }
}

/// The dsh bridge's runs. Each start opens a new generation; a worker
/// thread reports its end (clears the running flag, publishes its error)
/// only while its generation is the current one, so that a worker left
/// behind by a timed-out stop cannot touch the bridge started after it.
#[derive(Debug, Clone, Copy, PartialEq, Eq, Structural)]
pub struct DshBridgeRuns {
    pub generation: u64,
    pub running: bool,
}

/// Why the bridge cannot start: it already runs, or it is not enabled.
pub open spec fn dsh_start_error(running: bool, enabled: bool) -> Option<Seq<char>> {
    if running {
        Some("dsh 桥已在运行"@)
    } else if !enabled {
        Some("dsh 桥未启用"@)
    } else {
        None
    }
}

/// The runs after a start attempt and its result (the new generation).
pub open spec fn dsh_start_outcome(r: DshBridgeRuns, enabled: bool) -> (DshBridgeRuns, Result<u64, Seq<char>>) {
    match dsh_start_error(r.running, enabled) {
        Some(m) => (r, Err(m)),
        None => (
            DshBridgeRuns { generation: (r.generation + 1) as u64, running: true },
            Ok((r.generation + 1) as u64),
        ),
    }
}

/// The runs after the worker of generation `g` ends, and whether it reports.
pub open spec fn dsh_worker_outcome(r: DshBridgeRuns, g: u64) -> (DshBridgeRuns, bool) {
    if g == r.generation {
        (DshBridgeRuns { generation: r.generation, running: false }, true)
    } else {
        (r, false)
    }
}

impl DshBridgeRuns {
    /// No run yet.
    pub fn new() -> (r: Self)
        ensures
            r == (DshBridgeRuns { generation: 0, running: false }),
    {
        DshBridgeRuns { generation: 0, running: false }
    }

    /// Starts a run: refused while one runs or when the bridge is disabled.
    pub fn start(&mut self, enabled: bool) -> (r: Result<u64, String>)
        requires
            old(self).generation < u64::MAX,
        ensures
            ({
                let (next, res) = dsh_start_outcome(*old(self), enabled);
                &&& *final(self) == next
                &&& match (r, res) {
                    (Ok(a), Ok(b)) => a == b,
                    (Err(a), Err(b)) => a@ == b,
                    _ => false,
                }
            }),
    {
        if self.running {
            return Err(crate::text::owned("dsh 桥已在运行"));
        }
        if !enabled {
            return Err(crate::text::owned("dsh 桥未启用"));
        }
        self.generation = self.generation + 1;
        self.running = true;
        Ok(self.generation)
    }

    /// Stops the current run: refused when none runs.
    pub fn stop(&mut self) -> (r: Result<(), String>)
        ensures
            old(self).running ==> r is Ok && *final(self) == (DshBridgeRuns {
                generation: old(self).generation,
                running: false,
            }),
            !old(self).running ==> (r matches Err(e) && e@ == "dsh 桥未在运行"@) && *final(self) == *old(self),
    {
        if !self.running {
            return Err(crate::text::owned("dsh 桥未在运行"));
        }
        self.running = false;
        Ok(())
    }

    /// The worker of generation `g` has ended: true when it is the current
    /// run's worker, which then reports.
    pub fn worker_finished(&mut self, g: u64) -> (reports: bool)
        ensures
            (*final(self), reports) == dsh_worker_outcome(*old(self), g),
    {
        if g == self.generation {
            self.running = false;
            true
        } else {
            false
        }
    }
}

/// A worker left behind by an earlier run never touches a later one: after
/// a new start, the earlier generation's end is not reported and leaves the
/// running bridge as it is.
pub proof fn lemma_stale_worker_is_ignored(r: DshBridgeRuns, enabled: bool)
    requires
        r.generation < u64::MAX,
    ensures
        ({
            let (started, res) = dsh_start_outcome(r, enabled);
            res is Ok ==> dsh_worker_outcome(started, r.generation) == (started, false)
        }),
{
}

/// Whether the voice session starts with the app: unless the settings turn
/// it off.
pub fn voice_autostart(voice_enabled: Option<bool>) -> (r: bool)
    ensures
        r == match voice_enabled {
            Some(b) => b,
            None => true,
        },
{
    match voice_enabled {
        Some(b) => b,
        None => true,
    }
}

/// What else starts with the app, once the voice session has (or has not)
/// started.
#[derive(Debug, Clone, Copy, PartialEq, Eq, Structural)]
pub struct StartupPlan {
    /// Connect the remote LLM in the background.
    pub connect_llm: bool,
    /// Listen for the wake word.
    pub listen_kws: bool,
    /// Start the dsh bridge.
    pub start_dsh: bool,
}

/// A running voice session holds its own LLM and wake-word listener, so the
/// separate ones start only without it: the LLM when its configuration
/// resolved, is enabled and names an API address and a model; the wake-word
/// listener when its configuration resolved and is enabled. The dsh bridge
/// starts when it is enabled.
pub open spec fn startup_plan_of(
    voice_started: bool,
    llm_resolved: bool,
    llm_enabled: bool,
    llm_base_url: Option<Seq<char>>,
    llm_model: Option<Seq<char>>,
    kws_enabled: Option<bool>,
    dsh_enabled: bool,
) -> StartupPlan {
    StartupPlan {
        connect_llm: !voice_started && llm_resolved && llm_enabled && !blank(llm_base_url) && !blank(llm_model),
        listen_kws: !voice_started && kws_enabled == Some(true),
        start_dsh: dsh_enabled,
    }
}

pub fn startup_plan(
    voice_started: bool,
    llm_resolved: bool,
    llm_enabled: bool,
    llm_base_url: Option<&str>,
    llm_model: Option<&str>,
    kws_enabled: Option<bool>,
    dsh_enabled: bool,
) -> (r: StartupPlan)
    ensures
        r == startup_plan_of(
            voice_started,
            llm_resolved,
            llm_enabled,
            match llm_base_url {
                Some(t) => Some(t@),
                None => None,
            },
            match llm_model {
                Some(t) => Some(t@),
                None => None,
            },
            kws_enabled,
            dsh_enabled,
        ),
{
    let llm_ready = llm_resolved && llm_enabled && !is_blank(llm_base_url) && !is_blank(llm_model);
    let kws_on = match kws_enabled {
        Some(b) => b,
        None => false,
    };
    StartupPlan { connect_llm: !voice_started && llm_ready, listen_kws: !voice_started && kws_on, start_dsh: dsh_enabled }
}

} // verus!

