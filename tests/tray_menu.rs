use tray_menu::codec::ActionId;
use tray_menu::events::{handle_menu_event, TrayEffect};
use tray_menu::icons::{IconRef, IconRole, ThemeIcons};
use tray_menu::menu::{build_initial_menu, build_models_menu, build_server_menu, build_tray_menu, MenuNode};
use tray_menu::types::{TrayMenuParams, TrayMenuTexts, TrayPreset};

fn s(v: &str) -> String {
    v.to_string()
}

fn texts() -> TrayMenuTexts {
    TrayMenuTexts {
        start: s("Start"),
        stop: s("Stop"),
        quit: s("Quit"),
        settings: s("Settings"),
        running: s("Running"),
        stopped: s("Stopped"),
        view_logs: s("View logs"),
        features: s("Features"),
        asr: s("ASR"),
        embed: s("Embeddings"),
        presets_group: s("Presets"),
        models_group: s("Models"),
        models_menu: s("Model library"),
        installed: s("Installed"),
        catalog: s("Catalog"),
        start_with_model: s("Start with this model"),
        delete_model: s("Delete"),
        download_model: s("Download"),
    }
}

fn params() -> TrayMenuParams {
    TrayMenuParams {
        is_running: false,
        selected_model: s(""),
        presets: vec![],
        installed_models: vec![],
        available_models: vec![],
        startable_models: vec![],
        asr_enabled: false,
        embed_enabled: false,
        flm_version: s(""),
        texts: texts(),
    }
}

fn children(n: &MenuNode) -> &Vec<MenuNode> {
    match n {
        MenuNode::Submenu { children, .. } => children,
        _ => panic!("not a submenu"),
    }
}

fn label(n: &MenuNode) -> String {
    match n {
        MenuNode::Display { label, .. }
        | MenuNode::Item { label, .. }
        | MenuNode::Icon { label, .. }
        | MenuNode::Check { label, .. }
        | MenuNode::Submenu { label, .. } => label.clone(),
        MenuNode::Separator => String::new(),
    }
}

fn collect_ids(nodes: &[MenuNode], out: &mut Vec<String>) {
    for n in nodes {
        match n {
            MenuNode::Display { id, .. }
            | MenuNode::Item { id, .. }
            | MenuNode::Icon { id, .. }
            | MenuNode::Check { id, .. } => out.push(id.clone()),
            MenuNode::Separator => {}
            MenuNode::Submenu { children, .. } => collect_ids(children, out),
        }
    }
}

fn checked_ids(nodes: &[MenuNode]) -> Vec<String> {
    nodes
        .iter()
        .filter_map(|n| match n {
            MenuNode::Check { id, checked: true, .. } => Some(id.clone()),
            _ => None,
        })
        .collect()
}

fn icons() -> ThemeIcons {
    ThemeIcons::load(true)
}

#[test]
fn encode_fixed_tokens() {
    assert_eq!(ActionId::Quit.encode(), "quit");
    assert_eq!(ActionId::OpenSettings.encode(), "settings");
    assert_eq!(ActionId::ViewLogs.encode(), "view_logs");
    assert_eq!(ActionId::StartServer.encode(), "start_server");
    assert_eq!(ActionId::StopServer.encode(), "stop_server");
    assert_eq!(ActionId::ToggleAsr.encode(), "toggle_asr");
    assert_eq!(ActionId::ToggleEmbed.encode(), "toggle_embed");
}

#[test]
fn encode_parameterized() {
    assert_eq!(ActionId::SelectModel(s("llama")).encode(), "model_llama");
    assert_eq!(ActionId::StartModel(s("llama")).encode(), "start_model_llama");
    assert_eq!(ActionId::DeleteModel(s("llama")).encode(), "delete_model_llama");
    assert_eq!(ActionId::DownloadModel(s("llama")).encode(), "download_model_llama");
}

#[test]
fn decode_round_trips() {
    let actions = vec![
        ActionId::Quit,
        ActionId::OpenSettings,
        ActionId::ViewLogs,
        ActionId::StartServer,
        ActionId::StopServer,
        ActionId::ToggleAsr,
        ActionId::ToggleEmbed,
        ActionId::SelectModel(s("preset:fast")),
        ActionId::SelectModel(s("model_x")),
        ActionId::StartModel(s("qwen_3")),
        ActionId::DeleteModel(s("start_foo")),
        ActionId::DownloadModel(s("")),
    ];
    for a in actions {
        assert_eq!(ActionId::decode(&a.encode()), a);
    }
}

#[test]
fn decode_prefers_specific_prefix() {
    assert_eq!(ActionId::decode("start_model_foo"), ActionId::StartModel(s("foo")));
    assert_eq!(ActionId::decode("model_bar"), ActionId::SelectModel(s("bar")));
    assert_eq!(ActionId::decode("delete_model_a_b"), ActionId::DeleteModel(s("a_b")));
    assert_eq!(ActionId::decode("download_model_c"), ActionId::DownloadModel(s("c")));
}

#[test]
fn decode_display_and_unknown() {
    assert_eq!(ActionId::decode("current_model"), ActionId::DisplayOnly);
    assert_eq!(ActionId::decode("app_info"), ActionId::DisplayOnly);
    assert_eq!(ActionId::decode("flm_info"), ActionId::DisplayOnly);
    assert_eq!(ActionId::decode("garbage"), ActionId::Unrecognized(s("garbage")));
    assert_eq!(ActionId::decode(""), ActionId::Unrecognized(s("")));
    assert_eq!(ActionId::decode("Quit"), ActionId::Unrecognized(s("Quit")));
}

#[test]
fn icons_follow_theme() {
    let dark = ThemeIcons::load(true);
    let light = ThemeIcons::load(false);
    assert_eq!(dark.play, IconRef { dark: true, role: IconRole::Play });
    assert_eq!(light.hard_drive, IconRef { dark: false, role: IconRole::HardDrive });
    assert_eq!(light.tray, IconRef { dark: false, role: IconRole::Tray });
    assert_eq!(dark.status_icon(true), dark.green);
    assert_eq!(dark.status_icon(false), dark.red);
    assert_eq!(light.status_icon(true).role, IconRole::StatusGreen);
}

#[test]
fn top_level_shape() {
    let mut p = params();
    p.flm_version = s("0.9.4");
    let menu = build_tray_menu(&p, &icons(), "Tray App", "1.2.3");
    assert_eq!(menu.len(), 8);
    assert_eq!(menu[0], MenuNode::Display { id: s("app_info"), label: s("Tray App v1.2.3") });
    assert_eq!(menu[1], MenuNode::Display { id: s("flm_info"), label: s("FLM 0.9.4") });
    assert_eq!(menu[2], MenuNode::Separator);
    assert_eq!(label(&menu[3]), "Model library");
    assert_eq!(label(&menu[4]), "Stopped");
    assert_eq!(
        menu[5],
        MenuNode::Icon { id: s("settings"), label: s("Settings"), enabled: true, icon: icons().cog }
    );
    assert_eq!(menu[6], MenuNode::Separator);
    assert_eq!(
        menu[7],
        MenuNode::Icon { id: s("quit"), label: s("Quit"), enabled: true, icon: icons().power }
    );
}

#[test]
fn flm_version_unknown() {
    let menu = build_tray_menu(&params(), &icons(), "A", "1");
    assert_eq!(menu[1], MenuNode::Display { id: s("flm_info"), label: s("FLM: —") });
}

#[test]
fn build_is_deterministic() {
    let mut p = params();
    p.installed_models = vec![s("a"), s("b")];
    p.startable_models = vec![s("a")];
    p.available_models = vec![s("c")];
    p.presets = vec![TrayPreset { id: s("preset:fast"), name: s("Fast") }];
    p.selected_model = s("a");
    assert_eq!(build_tray_menu(&p, &icons(), "A", "1"), build_tray_menu(&p.clone(), &icons(), "A", "1"));
}

#[test]
fn selection_reflection() {
    let mut p = params();
    p.selected_model = s("preset:fast");
    p.presets = vec![
        TrayPreset { id: s("preset:fast"), name: s("Fast") },
        TrayPreset { id: s("preset:slow"), name: s("Slow") },
    ];
    p.installed_models = vec![s("llama"), s("qwen")];
    let server = build_server_menu(&p, &icons());
    let items = children(&server);
    assert_eq!(items[0], MenuNode::Display { id: s("current_model"), label: s("Fast") });
    let mut checked = checked_ids(children(&items[2]));
    checked.extend(checked_ids(children(&items[3])));
    assert_eq!(checked, vec![ActionId::SelectModel(s("preset:fast")).encode()]);
}

#[test]
fn selection_of_plain_model() {
    let mut p = params();
    p.selected_model = s("qwen");
    p.installed_models = vec![s("llama"), s("qwen")];
    let server = build_server_menu(&p, &icons());
    let items = children(&server);
    assert_eq!(items[0], MenuNode::Display { id: s("current_model"), label: s("qwen") });
    assert_eq!(
        children(&items[3])[1],
        MenuNode::Check { id: s("model_qwen"), label: s("qwen"), checked: true }
    );
    assert_eq!(
        children(&items[3])[0],
        MenuNode::Check { id: s("model_llama"), label: s("llama"), checked: false }
    );
}

#[test]
fn selection_is_case_sensitive() {
    let mut p = params();
    p.selected_model = s("Llama");
    p.installed_models = vec![s("llama")];
    let server = build_server_menu(&p, &icons());
    let items = children(&server);
    assert!(checked_ids(children(&items[3])).is_empty());
    assert_eq!(label(&items[0]), "Llama");
}

#[test]
fn start_stop_enablement() {
    for running in [false, true] {
        let mut p = params();
        p.is_running = running;
        let server = build_server_menu(&p, &icons());
        let items = children(&server);
        let start = &items[6];
        let stop = &items[7];
        match (start, stop) {
            (
                MenuNode::Icon { id: start_id, enabled: start_on, .. },
                MenuNode::Icon { id: stop_id, enabled: stop_on, .. },
            ) => {
                assert_eq!(start_id, "start_server");
                assert_eq!(stop_id, "stop_server");
                assert_eq!(*start_on, !running);
                assert_eq!(*stop_on, running);
            }
            _ => panic!("start and stop rows expected"),
        }
        match &server {
            MenuNode::Submenu { label, icon, .. } => {
                assert_eq!(label, if running { "Running" } else { "Stopped" });
                assert_eq!(icon.unwrap(), icons().status_icon(running));
            }
            _ => panic!("server submenu expected"),
        }
    }
}

#[test]
fn feature_toggles() {
    let mut p = params();
    p.asr_enabled = true;
    let server = build_server_menu(&p, &icons());
    let features = children(&children(&server)[4]);
    assert_eq!(features[0], MenuNode::Check { id: s("toggle_asr"), label: s("ASR"), checked: true });
    assert_eq!(
        features[1],
        MenuNode::Check { id: s("toggle_embed"), label: s("Embeddings"), checked: false }
    );
}

#[test]
fn empty_state() {
    let p = params();
    let menu = build_tray_menu(&p, &icons(), "A", "1");
    let server = children(&menu[4]);
    assert_eq!(server[0], MenuNode::Display { id: s("current_model"), label: s("—") });
    let models = children(&menu[3]);
    assert_eq!(models.len(), 2);
    assert_eq!(label(&models[0]), "Installed");
    assert_eq!(label(&models[1]), "Catalog");
    assert!(children(&models[0]).is_empty());
    assert!(children(&models[1]).is_empty());
    let mut ids = Vec::new();
    collect_ids(&menu, &mut ids);
    assert!(ids.iter().all(|id| !id.starts_with("model_")));
}

#[test]
fn installed_and_catalog_entries() {
    let mut p = params();
    p.installed_models = vec![s("llama"), s("qwen")];
    p.startable_models = vec![s("qwen")];
    p.available_models = vec![s("gemma")];
    let models = build_models_menu(&p, &icons());
    let installed = children(&children(&models)[0]);
    assert_eq!(children(&installed[0]).len(), 1);
    assert_eq!(
        children(&installed[0])[0],
        MenuNode::Icon { id: s("delete_model_llama"), label: s("Delete"), enabled: true, icon: icons().trash }
    );
    assert_eq!(children(&installed[1]).len(), 2);
    assert_eq!(
        children(&installed[1])[0],
        MenuNode::Icon {
            id: s("start_model_qwen"),
            label: s("Start with this model"),
            enabled: true,
            icon: icons().play,
        }
    );
    let catalog = children(&children(&models)[1]);
    assert_eq!(label(&catalog[0]), "gemma");
    assert_eq!(
        children(&catalog[0])[0],
        MenuNode::Icon {
            id: s("download_model_gemma"),
            label: s("Download"),
            enabled: true,
            icon: icons().download,
        }
    );
}

#[test]
fn installed_and_catalog_ids_never_collide() {
    let mut p = params();
    p.installed_models = vec![s("llama")];
    p.startable_models = vec![s("llama")];
    p.available_models = vec![s("llama")];
    let menu = build_models_menu(&p, &icons());
    let mut ids = Vec::new();
    collect_ids(&[menu], &mut ids);
    let mut sorted = ids.clone();
    sorted.sort();
    sorted.dedup();
    assert_eq!(sorted.len(), ids.len());
    assert_eq!(ids.len(), 3);
}

#[test]
fn initial_menu() {
    let ic = ThemeIcons::load(false);
    let menu = build_initial_menu(&ic, "Tray App", "0.1.0");
    assert_eq!(menu.len(), 6);
    assert_eq!(menu[0], MenuNode::Display { id: s("app_info"), label: s("Tray App v0.1.0") });
    assert_eq!(menu[2], MenuNode::Item { id: s("settings"), label: s("Settings"), enabled: true });
    let server = children(&menu[3]);
    assert_eq!(label(&menu[3]), "Server (Stopped)");
    assert_eq!(
        server[0],
        MenuNode::Icon { id: s("start_server"), label: s("Start"), enabled: true, icon: ic.play }
    );
    assert_eq!(
        server[1],
        MenuNode::Icon { id: s("stop_server"), label: s("Stop"), enabled: false, icon: ic.stop }
    );
    assert_eq!(
        menu[5],
        MenuNode::Icon { id: s("quit"), label: s("Quit"), enabled: true, icon: ic.power }
    );
}

#[test]
fn dispatch_silence() {
    assert!(handle_menu_event("current_model").is_empty());
    assert!(handle_menu_event("garbage").is_empty());
    assert!(handle_menu_event("app_info").is_empty());
}

#[test]
fn dispatch_window_actions() {
    assert_eq!(
        handle_menu_event("quit"),
        vec![TrayEffect::DestroyMainWindow, TrayEffect::Exit(0)]
    );
    assert_eq!(handle_menu_event("settings"), vec![TrayEffect::ShowMainWindow]);
    assert_eq!(
        handle_menu_event("view_logs"),
        vec![
            TrayEffect::ShowMainWindow,
            TrayEffect::Emit { event: s("view-logs"), payload: None },
        ]
    );
}

#[test]
fn dispatch_notifications() {
    let bare = |e: &str| vec![TrayEffect::Emit { event: s(e), payload: None }];
    assert_eq!(handle_menu_event("start_server"), bare("request-start-server"));
    assert_eq!(handle_menu_event("stop_server"), bare("request-stop-server"));
    assert_eq!(handle_menu_event("toggle_asr"), bare("toggle-asr"));
    assert_eq!(handle_menu_event("toggle_embed"), bare("toggle-embed"));
    let with = |e: &str, n: &str| vec![TrayEffect::Emit { event: s(e), payload: Some(s(n)) }];
    assert_eq!(handle_menu_event("model_preset:fast"), with("select-model", "preset:fast"));
    assert_eq!(handle_menu_event("start_model_qwen"), with("start-model", "qwen"));
    assert_eq!(handle_menu_event("delete_model_qwen"), with("delete-model", "qwen"));
    assert_eq!(handle_menu_event("download_model_qwen"), with("download-model", "qwen"));
}

#[test]
fn selection_shows_preset_name_for_any_matching_id() {
    let mut p = params();
    p.selected_model = s("fast");
    p.presets = vec![TrayPreset { id: s("fast"), name: s("Fast") }];
    let server = build_server_menu(&p, &icons());
    assert_eq!(children(&server)[0], MenuNode::Display { id: s("current_model"), label: s("Fast") });
    let mut q = params();
    q.selected_model = s("preset:gone");
    let server = build_server_menu(&q, &icons());
    assert_eq!(label(&children(&server)[0]), "preset:gone");
}
