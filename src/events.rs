use vstd::prelude::*;

use crate::codec::{decode_spec, is_display_id, Action, ActionId};

verus! {

/// What the host is asked to do after a menu click.
#[derive(Clone, Debug, PartialEq, Eq)]
pub enum TrayEffect {
    /// Un-minimize, show and focus the main window.
    ShowMainWindow,
    /// Destroy the main window.
    DestroyMainWindow,
    /// Terminate the process with this exit code.
    Exit(i32),
    /// Emit a notification to the rest of the application.
    Emit { event: String, payload: Option<String> },
}

/// Mathematical model of a `TrayEffect`.
pub enum Effect {
    ShowMainWindow,
    DestroyMainWindow,
    Exit(i32),
    Emit { event: Seq<char>, payload: Option<Seq<char>> },
}

impl View for TrayEffect {
    type V = Effect;

    open spec fn view(&self) -> Effect {
        match self {
            TrayEffect::ShowMainWindow => Effect::ShowMainWindow,
            TrayEffect::DestroyMainWindow => Effect::DestroyMainWindow,
            TrayEffect::Exit(code) => Effect::Exit(*code),
            TrayEffect::Emit { event, payload } => Effect::Emit {
                event: event@,
                payload: match payload {
                    Some(p) => Some(p@),
                    None => None,
                },
            },
        }
    }
}

/// The views of a sequence of effects.
pub open spec fn effects_view(v: Seq<TrayEffect>) -> Seq<Effect> {
    Seq::new(v.len(), |i: int| v[i]@)
}

/// A bare notification.
pub open spec fn notify(event: Seq<char>) -> Effect {
    Effect::Emit { event, payload: None }
}

/// A notification that carries a model name.
pub open spec fn notify_with(event: Seq<char>, name: Seq<char>) -> Effect {
    Effect::Emit { event, payload: Some(name) }
}

/// What the host does for each action; informational rows and unknown
/// identifiers do nothing.
pub open spec fn effects_for(a: Action) -> Seq<Effect> {
    match a {
        Action::Quit => seq![Effect::DestroyMainWindow, Effect::Exit(0)],
        Action::OpenSettings => seq![Effect::ShowMainWindow],
        Action::ViewLogs => seq![Effect::ShowMainWindow, notify("view-logs"@)],
        Action::StartServer => seq![notify("request-start-server"@)],
        Action::StopServer => seq![notify("request-stop-server"@)],
        Action::ToggleAsr => seq![notify("toggle-asr"@)],
        Action::ToggleEmbed => seq![notify("toggle-embed"@)],
        Action::SelectModel(n) => seq![notify_with("select-model"@, n)],
        Action::StartModel(n) => seq![notify_with("start-model"@, n)],
        Action::DeleteModel(n) => seq![notify_with("delete-model"@, n)],
        Action::DownloadModel(n) => seq![notify_with("download-model"@, n)],
        Action::DisplayOnly => seq![],
        Action::Unrecognized(_) => seq![],
    }
}

/// Informational rows and identifiers that no menu row carries never make
/// the host do anything.
pub proof fn lemma_silent_ids(raw: Seq<char>)
    requires
        is_display_id(raw) || decode_spec(raw) is Unrecognized,
    ensures
        effects_for(decode_spec(raw)).len() == 0,
{
    reveal_strlit("quit");
    reveal_strlit("settings");
    reveal_strlit("view_logs");
    reveal_strlit("start_server");
    reveal_strlit("stop_server");
    reveal_strlit("toggle_asr");
    reveal_strlit("toggle_embed");
    reveal_strlit("current_model");
    reveal_strlit("app_info");
    reveal_strlit("flm_info");
    assert("quit"@[0] == 'q');
    assert("settings"@[0] == 's');
    assert("view_logs"@[0] == 'v');
    assert("start_server"@[0] == 's');
    assert("stop_server"@[0] == 's');
    assert("toggle_asr"@[0] == 't');
    assert("toggle_embed"@[0] == 't');
    assert("current_model"@[0] == 'c');
    assert("app_info"@[0] == 'a');
    assert("flm_info"@[0] == 'f');
}

fn emit(event: &str) -> (r: TrayEffect)
    ensures
        r@ == notify(event@),
{
    TrayEffect::Emit { event: String::from_str(event), payload: None }
}

fn emit_with(event: &str, name: String) -> (r: TrayEffect)
    ensures
        r@ == notify_with(event@, name@),
{
    TrayEffect::Emit { event: String::from_str(event), payload: Some(name) }
}

fn handle_quit() -> (r: Vec<TrayEffect>)
    ensures
        effects_view(r@) == effects_for(Action::Quit),
{
    let mut r: Vec<TrayEffect> = Vec::new();
    r.push(TrayEffect::DestroyMainWindow);
    r.push(TrayEffect::Exit(0));
    assert(effects_view(r@) =~= effects_for(Action::Quit));
    r
}

fn handle_show_window() -> (r: Vec<TrayEffect>)
    ensures
        effects_view(r@) == effects_for(Action::OpenSettings),
{
    let mut r: Vec<TrayEffect> = Vec::new();
    r.push(TrayEffect::ShowMainWindow);
    assert(effects_view(r@) =~= effects_for(Action::OpenSettings));
    r
}

fn handle_view_logs() -> (r: Vec<TrayEffect>)
    ensures
        effects_view(r@) == effects_for(Action::ViewLogs),
{
    let mut r = handle_show_window();
    assert(effects_view(r@).len() == 1);
    assert(effects_view(r@)[0] == r@[0]@);
    r.push(emit("view-logs"));
    assert(effects_view(r@) =~= effects_for(Action::ViewLogs));
    r
}

fn single(e: TrayEffect) -> (r: Vec<TrayEffect>)
    ensures
        effects_view(r@) == seq![e@],
{
    let mut r: Vec<TrayEffect> = Vec::new();
    r.push(e);
    assert(effects_view(r@) =~= seq![e@]);
    r
}

/// What to do for one clicked identifier: the effects of the action it
/// decodes to. Unknown and informational identifiers give no effect.
pub fn handle_menu_event(event_id: &str) -> (r: Vec<TrayEffect>)
    ensures
        effects_view(r@) == effects_for(decode_spec(event_id@)),
{
    match ActionId::decode(event_id) {
        ActionId::Quit => handle_quit(),
        ActionId::OpenSettings => handle_show_window(),
        ActionId::ViewLogs => handle_view_logs(),
        ActionId::StartServer => single(emit("request-start-server")),
        ActionId::StopServer => single(emit("request-stop-server")),
        ActionId::ToggleAsr => single(emit("toggle-asr")),
        ActionId::ToggleEmbed => single(emit("toggle-embed")),
        ActionId::SelectModel(n) => single(emit_with("select-model", n)),
        ActionId::StartModel(n) => single(emit_with("start-model", n)),
        ActionId::DeleteModel(n) => single(emit_with("delete-model", n)),
        ActionId::DownloadModel(n) => single(emit_with("download-model", n)),
        ActionId::DisplayOnly => {
            let r: Vec<TrayEffect> = Vec::new();
            assert(effects_view(r@) =~= Seq::<Effect>::empty());
            r
        },
        ActionId::Unrecognized(_) => {
            let r: Vec<TrayEffect> = Vec::new();
            assert(effects_view(r@) =~= Seq::<Effect>::empty());
            r
        },
    }
}

} // verus!
