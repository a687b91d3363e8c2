use vstd::prelude::*;

verus! {

/// A preset shown in the tray: a named, pre-configured model reference.
#[derive(Clone, Debug)]
pub struct TrayPreset {
    pub id: String,
    pub name: String,
}

/// Mathematical model of a preset.
pub struct PresetView {
    pub id: Seq<char>,
    pub name: Seq<char>,
}

impl View for TrayPreset {
    type V = PresetView;

    open spec fn view(&self) -> PresetView {
        PresetView { id: self.id@, name: self.name@ }
    }
}

/// The views of a sequence of presets.
pub open spec fn presets_view(v: Seq<TrayPreset>) -> Seq<PresetView> {
    Seq::new(v.len(), |i: int| v[i]@)
}

/// The views of a sequence of strings.
pub open spec fn strings_view(v: Seq<String>) -> Seq<Seq<char>> {
    Seq::new(v.len(), |i: int| v[i]@)
}

/// The localized labels of the tray menu.
#[derive(Clone, Debug)]
pub struct TrayMenuTexts {
    pub start: String,
    pub stop: String,
    pub quit: String,
    pub settings: String,
    pub running: String,
    pub stopped: String,
    pub view_logs: String,
    pub features: String,
    pub asr: String,
    pub embed: String,
    pub presets_group: String,
    pub models_group: String,
    pub models_menu: String,
    pub installed: String,
    pub catalog: String,
    pub start_with_model: String,
    pub delete_model: String,
    pub download_model: String,
}

/// One snapshot of the application state that the tray menu renders.
#[derive(Clone, Debug)]
pub struct TrayMenuParams {
    pub is_running: bool,
    pub selected_model: String,
    pub presets: Vec<TrayPreset>,
    pub installed_models: Vec<String>,
    pub available_models: Vec<String>,
    pub startable_models: Vec<String>,
    pub asr_enabled: bool,
    pub embed_enabled: bool,
    pub flm_version: String,
    pub texts: TrayMenuTexts,
}

} // verus!
