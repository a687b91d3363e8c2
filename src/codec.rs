use vstd::prelude::*;

verus! {

/// What a clicked menu identifier means to the application.
#[derive(Clone, Debug, PartialEq, Eq)]
pub enum ActionId {
    Quit,
    OpenSettings,
    ViewLogs,
    StartServer,
    StopServer,
    SelectModel(String),
    StartModel(String),
    DeleteModel(String),
    DownloadModel(String),
    ToggleAsr,
    ToggleEmbed,
    DisplayOnly,
    Unrecognized(String),
}

/// Mathematical model of an `ActionId`: names are character sequences.
pub enum Action {
    Quit,
    OpenSettings,
    ViewLogs,
    StartServer,
    StopServer,
    SelectModel(Seq<char>),
    StartModel(Seq<char>),
    DeleteModel(Seq<char>),
    DownloadModel(Seq<char>),
    ToggleAsr,
    ToggleEmbed,
    DisplayOnly,
    Unrecognized(Seq<char>),
}

impl View for ActionId {
    type V = Action;

    open spec fn view(&self) -> Action {
        match self {
            ActionId::Quit => Action::Quit,
            ActionId::OpenSettings => Action::OpenSettings,
            ActionId::ViewLogs => Action::ViewLogs,
            ActionId::StartServer => Action::StartServer,
            ActionId::StopServer => Action::StopServer,
            ActionId::SelectModel(n) => Action::SelectModel(n@),
            ActionId::StartModel(n) => Action::StartModel(n@),
            ActionId::DeleteModel(n) => Action::DeleteModel(n@),
            ActionId::DownloadModel(n) => Action::DownloadModel(n@),
            ActionId::ToggleAsr => Action::ToggleAsr,
            ActionId::ToggleEmbed => Action::ToggleEmbed,
            ActionId::DisplayOnly => Action::DisplayOnly,
            ActionId::Unrecognized(r) => Action::Unrecognized(r@),
        }
    }
}

/// Actions that a menu item can carry, i.e. those with an identifier of their own.
pub open spec fn is_encodable(a: Action) -> bool {
    !(a is DisplayOnly) && !(a is Unrecognized)
}

/// The identifier of an encodable action.
pub open spec fn encode_spec(a: Action) -> Seq<char> {
    match a {
        Action::Quit => "quit"@,
        Action::OpenSettings => "settings"@,
        Action::ViewLogs => "view_logs"@,
        Action::StartServer => "start_server"@,
        Action::StopServer => "stop_server"@,
        Action::SelectModel(n) => "model_"@ + n,
        Action::StartModel(n) => "start_model_"@ + n,
        Action::DeleteModel(n) => "delete_model_"@ + n,
        Action::DownloadModel(n) => "download_model_"@ + n,
        Action::ToggleAsr => "toggle_asr"@,
        Action::ToggleEmbed => "toggle_embed"@,
        Action::DisplayOnly => Seq::empty(),
        Action::Unrecognized(r) => r,
    }
}

/// Identifiers of the informational rows, which are never dispatched.
pub open spec fn is_display_id(raw: Seq<char>) -> bool {
    raw == "current_model"@ || raw == "app_info"@ || raw == "flm_info"@
}

/// The action an identifier stands for: fixed tokens first, then the
/// parameterized prefixes, most specific first.
pub open spec fn decode_spec(raw: Seq<char>) -> Action {
    if raw == "quit"@ {
        Action::Quit
    } else if raw == "settings"@ {
        Action::OpenSettings
    } else if raw == "view_logs"@ {
        Action::ViewLogs
    } else if raw == "start_server"@ {
        Action::StartServer
    } else if raw == "stop_server"@ {
        Action::StopServer
    } else if raw == "toggle_asr"@ {
        Action::ToggleAsr
    } else if raw == "toggle_embed"@ {
        Action::ToggleEmbed
    } else if is_display_id(raw) {
        Action::DisplayOnly
    } else if "start_model_"@.is_prefix_of(raw) {
        Action::StartModel(raw.skip("start_model_"@.len() as int))
    } else if "delete_model_"@.is_prefix_of(raw) {
        Action::DeleteModel(raw.skip("delete_model_"@.len() as int))
    } else if "download_model_"@.is_prefix_of(raw) {
        Action::DownloadModel(raw.skip("download_model_"@.len() as int))
    } else if "model_"@.is_prefix_of(raw) {
        Action::SelectModel(raw.skip("model_"@.len() as int))
    } else {
        Action::Unrecognized(raw)
    }
}

/// The identifier of `p + name` starts with `p` and leaves `name` after it.
proof fn lemma_prefixed(p: Seq<char>, name: Seq<char>)
    ensures
        p.is_prefix_of(p + name),
        (p + name).skip(p.len() as int) == name,
        forall|i: int| 0 <= i < p.len() ==> #[trigger] (p + name)[i] == p[i],
{
    assert((p + name).subrange(0, p.len() as int) =~= p);
    assert((p + name).skip(p.len() as int) =~= name);
}

/// Decoding the identifier of any encodable action gives that action back.
pub proof fn lemma_round_trip(a: Action)
    requires
        is_encodable(a),
    ensures
        decode_spec(encode_spec(a)) == a,
{
    reveal_strlit("quit");
    reveal_strlit("settings");
    reveal_strlit("view_logs");
    reveal_strlit("start_server");
    reveal_strlit("stop_server");
    reveal_strlit("toggle_asr");
    reveal_strlit("toggle_embed");
    reveal_strlit("current_model");
    reveal_strlit("app_info");
    reveal_strlit("flm_info");
    reveal_strlit("start_model_");
    reveal_strlit("delete_model_");
    reveal_strlit("download_model_");
    reveal_strlit("model_");
    assert("quit"@.len() == 4 && "quit"@[0] == 'q');
    assert("settings"@.len() == 8 && "settings"@[0] == 's');
    assert("view_logs"@.len() == 9 && "view_logs"@[0] == 'v');
    assert("start_server"@.len() == 12 && "start_server"@[0] == 's');
    assert("stop_server"@.len() == 11 && "stop_server"@[0] == 's');
    assert("toggle_asr"@.len() == 10 && "toggle_asr"@[0] == 't');
    assert("toggle_embed"@.len() == 12 && "toggle_embed"@[0] == 't');
    assert("current_model"@.len() == 13 && "current_model"@[0] == 'c');
    assert("app_info"@.len() == 8 && "app_info"@[0] == 'a');
    assert("flm_info"@.len() == 8 && "flm_info"@[0] == 'f');
    assert("start_model_"@.len() == 12 && "start_model_"@[0] == 's');
    assert("delete_model_"@.len() == 13 && "delete_model_"@[0] == 'd');
    assert("download_model_"@.len() == 15 && "download_model_"@[0] == 'd');
    assert("model_"@.len() == 6 && "model_"@[0] == 'm');
    match a {
        Action::SelectModel(n) => {
            lemma_prefixed("model_"@, n);
            let raw = "model_"@ + n;
            assert(raw[0] == 'm');
            assert(!"start_model_"@.is_prefix_of(raw)) by {
                if "start_model_"@.is_prefix_of(raw) {
                    assert(raw.subrange(0, 12)[0] == raw[0]);
                }
            }
            assert(!"delete_model_"@.is_prefix_of(raw)) by {
                if "delete_model_"@.is_prefix_of(raw) {
                    assert(raw.subrange(0, 13)[0] == raw[0]);
                }
            }
            assert(!"download_model_"@.is_prefix_of(raw)) by {
                if "download_model_"@.is_prefix_of(raw) {
                    assert(raw.subrange(0, 15)[0] == raw[0]);
                }
            }
        },
        Action::StartModel(n) => {
            lemma_prefixed("start_model_"@, n);
            let raw = "start_model_"@ + n;
            assert(raw[0] == 's' && raw[6] == 'm' && raw[11] == '_');
        },
        Action::DeleteModel(n) => {
            lemma_prefixed("delete_model_"@, n);
            let raw = "delete_model_"@ + n;
            assert(raw[0] == 'd' && raw[1] == 'e' && raw[12] == '_');
        },
        Action::DownloadModel(n) => {
            lemma_prefixed("download_model_"@, n);
            let raw = "download_model_"@ + n;
            assert(raw[0] == 'd' && raw[1] == 'o' && raw[14] == '_');
        },
        Action::StartServer => {
            assert(!"start_model_"@.is_prefix_of("start_server"@)) by {
                if "start_model_"@.is_prefix_of("start_server"@) {
                    assert("start_server"@.subrange(0, 12)[6] == "start_server"@[6]);
                }
            }
        },
        _ => {},
    }
}

/// The identifiers of an installed model's rows (start, delete) never equal
/// the identifier of a catalog row (download), whatever the two names.
pub proof fn lemma_installed_catalog_ids_distinct(a: Seq<char>, b: Seq<char>)
    ensures
        encode_spec(Action::StartModel(a)) != encode_spec(Action::DownloadModel(b)),
        encode_spec(Action::DeleteModel(a)) != encode_spec(Action::DownloadModel(b)),
{
    lemma_round_trip(Action::StartModel(a));
    lemma_round_trip(Action::DeleteModel(a));
    lemma_round_trip(Action::DownloadModel(b));
}

/// Whether two strings hold the same characters.
fn str_equal(a: &str, b: &str) -> (r: bool)
    ensures
        r == (a@ == b@),
{
    let n = a.unicode_len();
    let m = b.unicode_len();
    if n != m {
        return false;
    }
    let mut i: usize = 0;
    while i < n
        invariant
            n == a@.len(),
            m == b@.len(),
            n == m,
            i <= n,
            forall|j: int| 0 <= j < i ==> a@[j] == b@[j],
        decreases n - i,
    {
        if a.get_char(i) != b.get_char(i) {
            return false;
        }
        i = i + 1;
    }
    assert(a@ =~= b@);
    true
}

/// Whether `s` begins with the characters of `p`.
fn has_prefix(s: &str, p: &str) -> (r: bool)
    ensures
        r == p@.is_prefix_of(s@),
{
    let n = s.unicode_len();
    let k = p.unicode_len();
    if k > n {
        return false;
    }
    let mut i: usize = 0;
    while i < k
        invariant
            n == s@.len(),
            k == p@.len(),
            k <= n,
            i <= k,
            forall|j: int| 0 <= j < i ==> p@[j] == s@[j],
        decreases k - i,
    {
        if s.get_char(i) != p.get_char(i) {
            assert(s@.subrange(0, k as int)[i as int] != p@[i as int]);
            return false;
        }
        i = i + 1;
    }
    assert(p@ =~= s@.subrange(0, k as int));
    true
}

/// The characters of `s` that follow the prefix `p`, as a new string.
fn strip_known_prefix(s: &str, p: &str) -> (r: String)
    requires
        p@.is_prefix_of(s@),
    ensures
        r@ == s@.skip(p@.len() as int),
{
    let n = s.unicode_len();
    let k = p.unicode_len();
    let rest = s.substring_char(k, n);
    assert(rest@ =~= s@.skip(p@.len() as int));
    String::from_str(rest)
}

/// A new string made of `p` followed by `name`.
fn prefixed(p: &str, name: &String) -> (r: String)
    ensures
        r@ == p@ + name@,
{
    String::from_str(p).concat(name.as_str())
}

impl ActionId {
    /// The identifier under which this action is attached to a menu item.
    /// An `Unrecognized` action gives back the identifier it holds, and
    /// `DisplayOnly` the empty string.
    pub fn encode(&self) -> (r: String)
        ensures
            r@ == encode_spec(self@),
    {
        match self {
            ActionId::Quit => String::from_str("quit"),
            ActionId::OpenSettings => String::from_str("settings"),
            ActionId::ViewLogs => String::from_str("view_logs"),
            ActionId::StartServer => String::from_str("start_server"),
            ActionId::StopServer => String::from_str("stop_server"),
            ActionId::SelectModel(n) => prefixed("model_", n),
            ActionId::StartModel(n) => prefixed("start_model_", n),
            ActionId::DeleteModel(n) => prefixed("delete_model_", n),
            ActionId::DownloadModel(n) => prefixed("download_model_", n),
            ActionId::ToggleAsr => String::from_str("toggle_asr"),
            ActionId::ToggleEmbed => String::from_str("toggle_embed"),
            ActionId::DisplayOnly => String::new(),
            ActionId::Unrecognized(r) => r.clone(),
        }
    }

    /// The action that a raw identifier stands for; anything unknown is
    /// `Unrecognized` and carries the identifier.
    pub fn decode(raw: &str) -> (r: ActionId)
        ensures
            r@ == decode_spec(raw@),
    {
        if str_equal(raw, "quit") {
            ActionId::Quit
        } else if str_equal(raw, "settings") {
            ActionId::OpenSettings
        } else if str_equal(raw, "view_logs") {
            ActionId::ViewLogs
        } else if str_equal(raw, "start_server") {
            ActionId::StartServer
        } else if str_equal(raw, "stop_server") {
            ActionId::StopServer
        } else if str_equal(raw, "toggle_asr") {
            ActionId::ToggleAsr
        } else if str_equal(raw, "toggle_embed") {
            ActionId::ToggleEmbed
        } else if str_equal(raw, "current_model") || str_equal(raw, "app_info") || str_equal(
            raw,
            "flm_info",
        ) {
            ActionId::DisplayOnly
        } else if has_prefix(raw, "start_model_") {
            ActionId::StartModel(strip_known_prefix(raw, "start_model_"))
        } else if has_prefix(raw, "delete_model_") {
            ActionId::DeleteModel(strip_known_prefix(raw, "delete_model_"))
        } else if has_prefix(raw, "download_model_") {
            ActionId::DownloadModel(strip_known_prefix(raw, "download_model_"))
        } else if has_prefix(raw, "model_") {
            ActionId::SelectModel(strip_known_prefix(raw, "model_"))
        } else {
            ActionId::Unrecognized(String::from_str(raw))
        }
    }
}

} // verus!
