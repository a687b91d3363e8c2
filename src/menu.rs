use vstd::prelude::*;

use crate::codec::{encode_spec, Action, ActionId};
use crate::icons::{IconRef, ThemeIcons};
use crate::types::{presets_view, strings_view, PresetView, TrayMenuParams, TrayMenuTexts, TrayPreset};

verus! {

/// One entry of the tray menu.
#[derive(Debug, PartialEq, Eq)]
pub enum MenuNode {
    /// A disabled row that only shows information.
    Display { id: String, label: String },
    /// A plain clickable row.
    Item { id: String, label: String, enabled: bool },
    /// A clickable row with an icon.
    Icon { id: String, label: String, enabled: bool, icon: IconRef },
    /// A row with a check mark.
    Check { id: String, label: String, checked: bool },
    Separator,
    Submenu { label: String, icon: Option<IconRef>, children: Vec<MenuNode> },
}

/// Mathematical model of a `MenuNode`.
pub enum Node {
    Display { id: Seq<char>, label: Seq<char> },
    Item { id: Seq<char>, label: Seq<char>, enabled: bool },
    Icon { id: Seq<char>, label: Seq<char>, enabled: bool, icon: IconRef },
    Check { id: Seq<char>, label: Seq<char>, checked: bool },
    Separator,
    Submenu { label: Seq<char>, icon: Option<IconRef>, children: Seq<Node> },
}

impl View for MenuNode {
    type V = Node;

    open spec fn view(&self) -> Node
        decreases self,
    {
        match self {
            MenuNode::Display { id, label } => Node::Display { id: id@, label: label@ },
            MenuNode::Item { id, label, enabled } => Node::Item {
                id: id@,
                label: label@,
                enabled: *enabled,
            },
            MenuNode::Icon { id, label, enabled, icon } => Node::Icon {
                id: id@,
                label: label@,
                enabled: *enabled,
                icon: *icon,
            },
            MenuNode::Check { id, label, checked } => Node::Check {
                id: id@,
                label: label@,
                checked: *checked,
            },
            MenuNode::Separator => Node::Separator,
            MenuNode::Submenu { label, icon, children } => Node::Submenu {
                label: label@,
                icon: *icon,
                children: Seq::new(
                    children@.len(),
                    |i: int|
                        if 0 <= i < children@.len() {
                            children@[i].view()
                        } else {
                            Node::Separator
                        },
                ),
            },
        }
    }
}

/// The views of a sequence of menu nodes.
pub open spec fn nodes_view(v: Seq<MenuNode>) -> Seq<Node> {
    Seq::new(v.len(), |i: int| v[i]@)
}

/// An enabled row with an icon that triggers `a`.
pub open spec fn action_row(a: Action, label: Seq<char>, icon: IconRef) -> Node {
    Node::Icon { id: encode_spec(a), label, enabled: true, icon }
}

/// The entry of one installed model: start it (where it can be started
/// directly), delete it.
pub open spec fn installed_model_spec(
    name: Seq<char>,
    startable: bool,
    t: TrayMenuTexts,
    icons: ThemeIcons,
) -> Node {
    let delete = action_row(Action::DeleteModel(name), t.delete_model@, icons.trash);
    Node::Submenu {
        label: name,
        icon: None,
        children: if startable {
            seq![action_row(Action::StartModel(name), t.start_with_model@, icons.play), delete]
        } else {
            seq![delete]
        },
    }
}

/// The entry of one model of the catalog: download it.
pub open spec fn catalog_model_spec(name: Seq<char>, t: TrayMenuTexts, icons: ThemeIcons) -> Node {
    Node::Submenu {
        label: name,
        icon: None,
        children: seq![action_row(Action::DownloadModel(name), t.download_model@, icons.download)],
    }
}

/// The models menu: installed models, then the catalog.
pub open spec fn models_menu_spec(p: TrayMenuParams, icons: ThemeIcons) -> Node {
    let installed = strings_view(p.installed_models@);
    let available = strings_view(p.available_models@);
    let startable = strings_view(p.startable_models@);
    Node::Submenu {
        label: p.texts.models_menu@,
        icon: Some(icons.cpu),
        children: seq![
            Node::Submenu {
                label: p.texts.installed@,
                icon: Some(icons.hard_drive),
                children: Seq::new(
                    installed.len(),
                    |i: int|
                        installed_model_spec(
                            installed[i],
                            startable.contains(installed[i]),
                            p.texts,
                            icons,
                        ),
                ),
            },
            Node::Submenu {
                label: p.texts.catalog@,
                icon: Some(icons.download),
                children: Seq::new(
                    available.len(),
                    |i: int| catalog_model_spec(available[i], p.texts, icons),
                ),
            },
        ],
    }
}

/// A submenu node; its view holds the views of `children`.
pub fn submenu(label: String, icon: Option<IconRef>, children: Vec<MenuNode>) -> (r: MenuNode)
    ensures
        r@ == (Node::Submenu { label: label@, icon, children: nodes_view(children@) }),
{
    let ghost cv = children@;
    let r = MenuNode::Submenu { label, icon, children };
    proof {
        reveal_with_fuel(<MenuNode as View>::view, 2);
    }
    assert(r@->Submenu_children =~= nodes_view(cv));
    r
}

/// The name of the first preset whose id is `sel`, if any.
pub open spec fn preset_name_for(presets: Seq<PresetView>, sel: Seq<char>) -> Option<Seq<char>>
    decreases presets.len(),
{
    if presets.len() == 0 {
        None
    } else if presets[0].id == sel {
        Some(presets[0].name)
    } else {
        preset_name_for(presets.drop_first(), sel)
    }
}

/// What the current-selection row shows: a placeholder when nothing is
/// selected, the preset's name when the selection is a preset id, and the
/// selection itself otherwise.
pub open spec fn selection_label(sel: Seq<char>, presets: Seq<PresetView>) -> Seq<char> {
    if sel.len() == 0 {
        "—"@
    } else {
        match preset_name_for(presets, sel) {
            Some(name) => name,
            None => sel,
        }
    }
}

/// Selection is exact and case-sensitive; an empty selection matches nothing.
pub open spec fn is_selected(candidate: Seq<char>, sel: Seq<char>) -> bool {
    sel.len() > 0 && candidate == sel
}

/// A check row that selects `id`, checked when `id` is the selection.
pub open spec fn select_row(id: Seq<char>, label: Seq<char>, sel: Seq<char>) -> Node {
    Node::Check {
        id: encode_spec(Action::SelectModel(id)),
        label,
        checked: is_selected(id, sel),
    }
}

/// The rows of the presets submenu.
pub open spec fn preset_rows(presets: Seq<PresetView>, sel: Seq<char>) -> Seq<Node> {
    Seq::new(presets.len(), |i: int| select_row(presets[i].id, presets[i].name, sel))
}

/// The rows of the installed-models submenu.
pub open spec fn model_rows(names: Seq<Seq<char>>, sel: Seq<char>) -> Seq<Node> {
    Seq::new(names.len(), |i: int| select_row(names[i], names[i], sel))
}

/// The feature toggles.
pub open spec fn feature_rows(t: TrayMenuTexts, asr: bool, embed: bool) -> Seq<Node> {
    seq![
        Node::Check { id: encode_spec(Action::ToggleAsr), label: t.asr@, checked: asr },
        Node::Check { id: encode_spec(Action::ToggleEmbed), label: t.embed@, checked: embed },
    ]
}

/// The server submenu: selection, presets, models, features, start/stop
/// and logs.
pub open spec fn server_menu_spec(p: TrayMenuParams, icons: ThemeIcons) -> Node {
    let sel = p.selected_model@;
    let t = p.texts;
    Node::Submenu {
        label: if p.is_running {
            t.running@
        } else {
            t.stopped@
        },
        icon: Some(icons.status_icon_spec(p.is_running)),
        children: seq![
            Node::Display {
                id: "current_model"@,
                label: selection_label(sel, presets_view(p.presets@)),
            },
            Node::Separator,
            Node::Submenu {
                label: t.presets_group@,
                icon: Some(icons.cog),
                children: preset_rows(presets_view(p.presets@), sel),
            },
            Node::Submenu {
                label: t.models_group@,
                icon: Some(icons.cpu),
                children: model_rows(strings_view(p.installed_models@), sel),
            },
            Node::Submenu {
                label: t.features@,
                icon: Some(icons.cog),
                children: feature_rows(t, p.asr_enabled, p.embed_enabled),
            },
            Node::Separator,
            Node::Icon {
                id: encode_spec(Action::StartServer),
                label: t.start@,
                enabled: !p.is_running,
                icon: icons.play,
            },
            Node::Icon {
                id: encode_spec(Action::StopServer),
                label: t.stop@,
                enabled: p.is_running,
                icon: icons.stop,
            },
            Node::Separator,
            action_row(Action::ViewLogs, t.view_logs@, icons.file_clock),
        ],
    }
}

/// The title row: application name and version.
pub open spec fn app_info_label(app_name: Seq<char>, app_version: Seq<char>) -> Seq<char> {
    app_name + " v"@ + app_version
}

/// The FLM version row; an empty version is unknown.
pub open spec fn flm_label(version: Seq<char>) -> Seq<char> {
    if version.len() == 0 {
        "FLM: —"@
    } else {
        "FLM "@ + version
    }
}

/// The whole tray menu for one state snapshot, top to bottom.
pub open spec fn tray_menu_spec(
    p: TrayMenuParams,
    icons: ThemeIcons,
    app_name: Seq<char>,
    app_version: Seq<char>,
) -> Seq<Node> {
    seq![
        Node::Display { id: "app_info"@, label: app_info_label(app_name, app_version) },
        Node::Display { id: "flm_info"@, label: flm_label(p.flm_version@) },
        Node::Separator,
        models_menu_spec(p, icons),
        server_menu_spec(p, icons),
        action_row(Action::OpenSettings, p.texts.settings@, icons.cog),
        Node::Separator,
        action_row(Action::Quit, p.texts.quit@, icons.power),
    ]
}

/// Two text tables that hold the same labels.
pub open spec fn same_texts(a: TrayMenuTexts, b: TrayMenuTexts) -> bool {
    &&& a.start@ == b.start@
    &&& a.stop@ == b.stop@
    &&& a.quit@ == b.quit@
    &&& a.settings@ == b.settings@
    &&& a.running@ == b.running@
    &&& a.stopped@ == b.stopped@
    &&& a.view_logs@ == b.view_logs@
    &&& a.features@ == b.features@
    &&& a.asr@ == b.asr@
    &&& a.embed@ == b.embed@
    &&& a.presets_group@ == b.presets_group@
    &&& a.models_group@ == b.models_group@
    &&& a.models_menu@ == b.models_menu@
    &&& a.installed@ == b.installed@
    &&& a.catalog@ == b.catalog@
    &&& a.start_with_model@ == b.start_with_model@
    &&& a.delete_model@ == b.delete_model@
    &&& a.download_model@ == b.download_model@
}

/// Two snapshots that hold the same values.
pub open spec fn same_snapshot(a: TrayMenuParams, b: TrayMenuParams) -> bool {
    &&& a.is_running == b.is_running
    &&& a.selected_model@ == b.selected_model@
    &&& presets_view(a.presets@) == presets_view(b.presets@)
    &&& strings_view(a.installed_models@) == strings_view(b.installed_models@)
    &&& strings_view(a.available_models@) == strings_view(b.available_models@)
    &&& strings_view(a.startable_models@) == strings_view(b.startable_models@)
    &&& a.asr_enabled == b.asr_enabled
    &&& a.embed_enabled == b.embed_enabled
    &&& a.flm_version@ == b.flm_version@
    &&& same_texts(a.texts, b.texts)
}

/// The menu is a function of the snapshot's values: two snapshots that hold
/// the same values give structurally equal menus.
pub proof fn lemma_build_deterministic(
    a: TrayMenuParams,
    b: TrayMenuParams,
    icons: ThemeIcons,
    app_name: Seq<char>,
    app_version: Seq<char>,
)
    requires
        same_snapshot(a, b),
    ensures
        tray_menu_spec(a, icons, app_name, app_version) == tray_menu_spec(
            b,
            icons,
            app_name,
            app_version,
        ),
{
    let ma = models_menu_spec(a, icons);
    let mb = models_menu_spec(b, icons);
    assert(ma->Submenu_children[0]->Submenu_children =~= mb->Submenu_children[0]->Submenu_children);
    assert(ma->Submenu_children[1]->Submenu_children =~= mb->Submenu_children[1]->Submenu_children);
    assert(ma->Submenu_children =~= mb->Submenu_children);
    let sa = server_menu_spec(a, icons);
    let sb = server_menu_spec(b, icons);
    assert(sa->Submenu_children =~= sb->Submenu_children);
    assert(tray_menu_spec(a, icons, app_name, app_version) =~= tray_menu_spec(
        b,
        icons,
        app_name,
        app_version,
    ));
}

/// Exactly one of the start and stop rows is enabled: start while the
/// server is stopped, stop while it runs.
pub proof fn lemma_start_stop_exclusive(
    p: TrayMenuParams,
    icons: ThemeIcons,
    app_name: Seq<char>,
    app_version: Seq<char>,
)
    ensures
        ({
            let server = tray_menu_spec(p, icons, app_name, app_version)[4];
            let start = server->Submenu_children[6];
            let stop = server->Submenu_children[7];
            &&& start->Icon_id == encode_spec(Action::StartServer)
            &&& stop->Icon_id == encode_spec(Action::StopServer)
            &&& start->Icon_enabled == !p.is_running
            &&& stop->Icon_enabled == p.is_running
            &&& start->Icon_enabled != stop->Icon_enabled
        }),
{
}

fn icon_row(a: ActionId, label: &String, icon: IconRef) -> (r: MenuNode)
    ensures
        r@ == action_row(a@, label@, icon),
{
    MenuNode::Icon { id: a.encode(), label: label.clone(), enabled: true, icon }
}

fn contains_string(v: &Vec<String>, s: &String) -> (r: bool)
    ensures
        r == strings_view(v@).contains(s@),
{
    let mut i: usize = 0;
    while i < v.len()
        invariant
            i <= v@.len(),
            forall|j: int| 0 <= j < i ==> v@[j]@ != s@,
        decreases v@.len() - i,
    {
        if v[i] == *s {
            assert(strings_view(v@)[i as int] == s@);
            return true;
        }
        i = i + 1;
    }
    assert(!strings_view(v@).contains(s@)) by {
        if strings_view(v@).contains(s@) {
            let k = choose|k: int| 0 <= k < strings_view(v@).len() && strings_view(v@)[k] == s@;
            assert(v@[k]@ == s@);
        }
    }
    false
}

fn installed_model_node(name: &String, startable: bool, t: &TrayMenuTexts, icons: &ThemeIcons) -> (r:
    MenuNode)
    ensures
        r@ == installed_model_spec(name@, startable, *t, *icons),
{
    let mut children: Vec<MenuNode> = Vec::new();
    if startable {
        children.push(icon_row(ActionId::StartModel(name.clone()), &t.start_with_model, icons.play));
    }
    children.push(icon_row(ActionId::DeleteModel(name.clone()), &t.delete_model, icons.trash));
    assert(nodes_view(children@) =~= installed_model_spec(
        name@,
        startable,
        *t,
        *icons,
    )->Submenu_children);
    submenu(name.clone(), None, children)
}

fn catalog_model_node(name: &String, t: &TrayMenuTexts, icons: &ThemeIcons) -> (r: MenuNode)
    ensures
        r@ == catalog_model_spec(name@, *t, *icons),
{
    let mut children: Vec<MenuNode> = Vec::new();
    children.push(icon_row(ActionId::DownloadModel(name.clone()), &t.download_model, icons.download));
    assert(nodes_view(children@) =~= catalog_model_spec(name@, *t, *icons)->Submenu_children);
    submenu(name.clone(), None, children)
}

/// The models menu of the tray: one entry per installed model, with its
/// start and delete actions, and one per model of the catalog, with its
/// download action.
pub fn build_models_menu(params: &TrayMenuParams, icons: &ThemeIcons) -> (r: MenuNode)
    ensures
        r@ == models_menu_spec(*params, *icons),
{
    let t = &params.texts;
    let ghost installed = strings_view(params.installed_models@);
    let ghost available = strings_view(params.available_models@);
    let ghost startable = strings_view(params.startable_models@);
    let ghost expected = models_menu_spec(*params, *icons);

    let mut installed_children: Vec<MenuNode> = Vec::new();
    let mut i: usize = 0;
    while i < params.installed_models.len()
        invariant
            *t == params.texts,
            i <= params.installed_models@.len(),
            installed == strings_view(params.installed_models@),
            startable == strings_view(params.startable_models@),
            installed_children@.len() == i,
            forall|j: int|
                0 <= j < i ==> #[trigger] installed_children@[j]@ == installed_model_spec(
                    installed[j],
                    startable.contains(installed[j]),
                    params.texts,
                    *icons,
                ),
        decreases params.installed_models@.len() - i,
    {
        let name = &params.installed_models[i];
        let can_start = contains_string(&params.startable_models, name);
        assert(installed[i as int] == name@);
        installed_children.push(installed_model_node(name, can_start, t, icons));
        i = i + 1;
    }
    assert(nodes_view(installed_children@) =~= expected->Submenu_children[0]->Submenu_children);
    let installed_menu = submenu(t.installed.clone(), Some(icons.hard_drive), installed_children);

    let mut catalog_children: Vec<MenuNode> = Vec::new();
    let mut k: usize = 0;
    while k < params.available_models.len()
        invariant
            *t == params.texts,
            k <= params.available_models@.len(),
            available == strings_view(params.available_models@),
            catalog_children@.len() == k,
            forall|j: int|
                0 <= j < k ==> #[trigger] catalog_children@[j]@ == catalog_model_spec(
                    available[j],
                    params.texts,
                    *icons,
                ),
        decreases params.available_models@.len() - k,
    {
        assert(available[k as int] == params.available_models@[k as int]@);
        catalog_children.push(catalog_model_node(&params.available_models[k], t, icons));
        k = k + 1;
    }
    assert(nodes_view(catalog_children@) =~= expected->Submenu_children[1]->Submenu_children);
    let catalog_menu = submenu(t.catalog.clone(), Some(icons.download), catalog_children);

    let mut children: Vec<MenuNode> = Vec::new();
    children.push(installed_menu);
    children.push(catalog_menu);
    assert(nodes_view(children@) =~= expected->Submenu_children);
    submenu(t.models_menu.clone(), Some(icons.cpu), children)
}

/// The text of the current-selection row.
fn selection_text(sel: &String, presets: &Vec<TrayPreset>) -> (r: String)
    ensures
        r@ == selection_label(sel@, presets_view(presets@)),
{
    if sel.as_str().is_empty() {
        return String::from_str("—");
    }
    let ghost ps = presets_view(presets@);
    assert(ps.skip(0) =~= ps);
    let mut i: usize = 0;
    while i < presets.len()
        invariant
            i <= presets@.len(),
            sel@.len() > 0,
            ps == presets_view(presets@),
            preset_name_for(ps, sel@) == preset_name_for(ps.skip(i as int), sel@),
        decreases presets@.len() - i,
    {
        assert(ps.skip(i as int).drop_first() =~= ps.skip(i as int + 1));
        assert(ps.skip(i as int)[0] == presets@[i as int]@);
        if presets[i].id == *sel {
            return presets[i].name.clone();
        }
        i = i + 1;
    }
    assert(ps.skip(i as int).len() == 0);
    sel.clone()
}

fn select_item(id: &String, label: &String, sel: &String) -> (r: MenuNode)
    ensures
        r@ == select_row(id@, label@, sel@),
{
    let checked = !sel.as_str().is_empty() && *id == *sel;
    MenuNode::Check { id: ActionId::SelectModel(id.clone()).encode(), label: label.clone(), checked }
}

fn display_item(id: &str, label: String) -> (r: MenuNode)
    ensures
        r@ == (Node::Display { id: id@, label: label@ }),
{
    MenuNode::Display { id: String::from_str(id), label }
}

/// The server submenu of the tray: what is selected, the presets and
/// installed models to choose from, the feature toggles, start and stop
/// (exactly one of them enabled) and the logs.
pub fn build_server_menu(params: &TrayMenuParams, icons: &ThemeIcons) -> (r: MenuNode)
    ensures
        r@ == server_menu_spec(*params, *icons),
{
    let t = &params.texts;
    let sel = &params.selected_model;
    let ghost expected = server_menu_spec(*params, *icons);

    let mut preset_items: Vec<MenuNode> = Vec::new();
    let mut i: usize = 0;
    while i < params.presets.len()
        invariant
            i <= params.presets@.len(),
            *sel == params.selected_model,
            preset_items@.len() == i,
            forall|j: int|
                0 <= j < i ==> #[trigger] preset_items@[j]@ == preset_rows(
                    presets_view(params.presets@),
                    sel@,
                )[j],
        decreases params.presets@.len() - i,
    {
        let p = &params.presets[i];
        preset_items.push(select_item(&p.id, &p.name, sel));
        i = i + 1;
    }
    assert(nodes_view(preset_items@) =~= preset_rows(presets_view(params.presets@), sel@));
    let presets_menu = submenu(t.presets_group.clone(), Some(icons.cog), preset_items);

    let mut model_items: Vec<MenuNode> = Vec::new();
    let mut k: usize = 0;
    while k < params.installed_models.len()
        invariant
            k <= params.installed_models@.len(),
            *sel == params.selected_model,
            model_items@.len() == k,
            forall|j: int|
                0 <= j < k ==> #[trigger] model_items@[j]@ == model_rows(
                    strings_view(params.installed_models@),
                    sel@,
                )[j],
        decreases params.installed_models@.len() - k,
    {
        let name = &params.installed_models[k];
        model_items.push(select_item(name, name, sel));
        k = k + 1;
    }
    assert(nodes_view(model_items@) =~= model_rows(strings_view(params.installed_models@), sel@));
    let models_menu = submenu(t.models_group.clone(), Some(icons.cpu), model_items);

    let mut feature_items: Vec<MenuNode> = Vec::new();
    feature_items.push(
        MenuNode::Check {
            id: ActionId::ToggleAsr.encode(),
            label: t.asr.clone(),
            checked: params.asr_enabled,
        },
    );
    feature_items.push(
        MenuNode::Check {
            id: ActionId::ToggleEmbed.encode(),
            label: t.embed.clone(),
            checked: params.embed_enabled,
        },
    );
    assert(nodes_view(feature_items@) =~= feature_rows(
        params.texts,
        params.asr_enabled,
        params.embed_enabled,
    ));
    let features_menu = submenu(t.features.clone(), Some(icons.cog), feature_items);

    let mut children: Vec<MenuNode> = Vec::new();
    children.push(display_item("current_model", selection_text(sel, &params.presets)));
    children.push(MenuNode::Separator);
    children.push(presets_menu);
    children.push(models_menu);
    children.push(features_menu);
    children.push(MenuNode::Separator);
    children.push(
        MenuNode::Icon {
            id: ActionId::StartServer.encode(),
            label: t.start.clone(),
            enabled: !params.is_running,
            icon: icons.play,
        },
    );
    children.push(
        MenuNode::Icon {
            id: ActionId::StopServer.encode(),
            label: t.stop.clone(),
            enabled: params.is_running,
            icon: icons.stop,
        },
    );
    children.push(MenuNode::Separator);
    children.push(icon_row(ActionId::ViewLogs, &t.view_logs, icons.file_clock));
    assert(nodes_view(children@) =~= expected->Submenu_children);

    let label = if params.is_running {
        t.running.clone()
    } else {
        t.stopped.clone()
    };
    submenu(label, Some(icons.status_icon(params.is_running)), children)
}

/// The tray menu for one state snapshot: application and FLM versions, the
/// models menu, the server menu, settings and quit.
pub fn build_tray_menu(
    params: &TrayMenuParams,
    icons: &ThemeIcons,
    app_name: &str,
    app_version: &str,
) -> (r: Vec<MenuNode>)
    ensures
        nodes_view(r@) == tray_menu_spec(*params, *icons, app_name@, app_version@),
{
    let t = &params.texts;
    let title = String::from_str(app_name).concat(" v").concat(app_version);
    let flm_text = if params.flm_version.as_str().is_empty() {
        String::from_str("FLM: —")
    } else {
        String::from_str("FLM ").concat(params.flm_version.as_str())
    };

    let mut menu: Vec<MenuNode> = Vec::new();
    menu.push(display_item("app_info", title));
    menu.push(display_item("flm_info", flm_text));
    menu.push(MenuNode::Separator);
    menu.push(build_models_menu(params, icons));
    menu.push(build_server_menu(params, icons));
    menu.push(icon_row(ActionId::OpenSettings, &t.settings, icons.cog));
    menu.push(MenuNode::Separator);
    menu.push(icon_row(ActionId::Quit, &t.quit, icons.power));
    assert(nodes_view(menu@) =~= tray_menu_spec(*params, *icons, app_name@, app_version@));
    menu
}

/// The menu shown before the first state snapshot arrives: the server is
/// stopped, so only start is enabled.
pub open spec fn initial_menu_spec(icons: ThemeIcons, app_name: Seq<char>, app_version: Seq<char>) -> Seq<
    Node,
> {
    seq![
        Node::Display { id: "app_info"@, label: app_info_label(app_name, app_version) },
        Node::Separator,
        Node::Item { id: encode_spec(Action::OpenSettings), label: "Settings"@, enabled: true },
        Node::Submenu {
            label: "Server (Stopped)"@,
            icon: Some(icons.red),
            children: seq![
                Node::Icon {
                    id: encode_spec(Action::StartServer),
                    label: "Start"@,
                    enabled: true,
                    icon: icons.play,
                },
                Node::Icon {
                    id: encode_spec(Action::StopServer),
                    label: "Stop"@,
                    enabled: false,
                    icon: icons.stop,
                },
            ],
        },
        Node::Separator,
        Node::Icon { id: encode_spec(Action::Quit), label: "Quit"@, enabled: true, icon: icons.power },
    ]
}

/// The menu the tray starts with, before any state snapshot.
pub fn build_initial_menu(icons: &ThemeIcons, app_name: &str, app_version: &str) -> (r: Vec<
    MenuNode,
>)
    ensures
        nodes_view(r@) == initial_menu_spec(*icons, app_name@, app_version@),
{
    let title = String::from_str(app_name).concat(" v").concat(app_version);

    let mut server_items: Vec<MenuNode> = Vec::new();
    server_items.push(
        MenuNode::Icon {
            id: ActionId::StartServer.encode(),
            label: String::from_str("Start"),
            enabled: true,
            icon: icons.play,
        },
    );
    server_items.push(
        MenuNode::Icon {
            id: ActionId::StopServer.encode(),
            label: String::from_str("Stop"),
            enabled: false,
            icon: icons.stop,
        },
    );
    let ghost expected = initial_menu_spec(*icons, app_name@, app_version@);
    assert(nodes_view(server_items@) =~= expected[3]->Submenu_children);

    let mut menu: Vec<MenuNode> = Vec::new();
    menu.push(display_item("app_info", title));
    menu.push(MenuNode::Separator);
    menu.push(
        MenuNode::Item {
            id: ActionId::OpenSettings.encode(),
            label: String::from_str("Settings"),
            enabled: true,
        },
    );
    menu.push(submenu(String::from_str("Server (Stopped)"), Some(icons.red), server_items));
    menu.push(MenuNode::Separator);
    menu.push(
        MenuNode::Icon {
            id: ActionId::Quit.encode(),
            label: String::from_str("Quit"),
            enabled: true,
            icon: icons.power,
        },
    );
    assert(nodes_view(menu@) =~= expected);
    menu
}

} // verus!
