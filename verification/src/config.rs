//! The desktop app's saved configuration and where wrec keeps its files.

use vstd::prelude::*;
use crate::paths::{join_path, path_join, path_parent, plain_name};
use crate::settings::{default_settings, RecorderSettings};
use crate::text::is_lit;

verus! {

/// The name of the folder wrec keeps its data in.
pub const APP_DATA_DIR_NAME: &'static str = "Wrec";

/// What the desktop app saves between runs.
#[derive(Clone, Debug)]
pub struct AppConfig {
    pub settings: RecorderSettings,
    pub selected_target_key: Option<String>,
    pub show_nerd_logs: bool,
}

impl AppConfig {
    /// The configuration of a first run: the default settings saving into
    /// `output_dir`, no target chosen, the detailed log hidden.
    pub fn with_output_dir(output_dir: String) -> (r: AppConfig)
        ensures
            r.settings == default_settings(output_dir),
            r.selected_target_key is None,
            !r.show_nerd_logs,
    {
        AppConfig { settings: RecorderSettings::with_output_dir(output_dir), selected_target_key: None, show_nerd_logs: false }
    }
}

fn join_lit(dir: &String, name: &str) -> (r: String)
    ensures
        r@ == path_join(dir@, name@),
        plain_name(name@) ==> forall|other: Seq<char>|
            plain_name(other) ==> #[trigger] path_parent(path_join(dir@, other)) == path_parent(r@),
{
    join_path(dir, &name.to_string())
}

/// The configuration file in wrec's data folder `wrec_dir`.
pub fn config_path(wrec_dir: &String) -> (r: String)
    ensures
        r@ == path_join(wrec_dir@, "config.json"@),
{
    join_lit(wrec_dir, "config.json")
}

/// The recording history database in wrec's data folder `wrec_dir`, in
/// the same folder as the configuration file.
pub fn store_path(wrec_dir: &String) -> (r: String)
    ensures
        r@ == path_join(wrec_dir@, "wrec.sqlite"@),
        path_parent(r@) == path_parent(path_join(wrec_dir@, "config.json"@)),
{
    proof {
        reveal_strlit("wrec.sqlite");
        reveal_strlit("config.json");
        crate::paths::lemma_not_dots("wrec.sqlite"@);
        crate::paths::lemma_not_dots("config.json"@);
    }
    join_lit(wrec_dir, "wrec.sqlite")
}

/// The desktop app's log file in wrec's data folder `wrec_dir`, in the
/// same folder as the configuration file.
pub fn log_path(wrec_dir: &String) -> (r: String)
    ensures
        r@ == path_join(wrec_dir@, "wrec.log"@),
        path_parent(r@) == path_parent(path_join(wrec_dir@, "config.json"@)),
{
    proof {
        reveal_strlit("wrec.log");
        reveal_strlit("config.json");
        crate::paths::lemma_not_dots("wrec.log"@);
        crate::paths::lemma_not_dots("config.json"@);
    }
    join_lit(wrec_dir, "wrec.log")
}

/// wrec's data folder: `WREC_DATA_DIR` when it is set (`data_dir_env`),
/// else the platform's default folder `default_dir`.
pub fn wrec_dir(data_dir_env: Option<String>, default_dir: String) -> (r: String)
    ensures
        r@ == (match data_dir_env {
            Some(d) => d@,
            None => default_dir@,
        }),
{
    match data_dir_env {
        Some(d) => d,
        None => default_dir,
    }
}

/// The platform's default data folder under the home folder `home`, or
/// under the current folder without one: `Library/Application Support/Wrec`
/// on macOS, `.wrec` elsewhere.
pub open spec fn default_wrec_dir_spec(home: Option<Seq<char>>, macos: bool) -> Seq<char> {
    let base = match home {
        Some(h) => h,
        None => "."@,
    };
    if macos {
        match home {
            Some(h) => path_join(path_join(path_join(h, "Library"@), "Application Support"@), "Wrec"@),
            None => path_join("."@, "Wrec"@),
        }
    } else {
        path_join(base, ".wrec"@)
    }
}

/// The platform's default data folder, given the home folder and whether
/// the platform is macOS.
pub fn default_wrec_dir(home: &Option<String>, macos: bool) -> (r: String)
    ensures
        r@ == default_wrec_dir_spec(match home { Some(h) => Some(h@), None => None }, macos),
{
    proof {
        reveal_strlit(".");
    }
    let dot = ".".to_string();
    let base = match home {
        Some(h) => h,
        None => &dot,
    };
    if macos {
        match home {
            Some(h) => join_lit(&join_lit(&join_lit(h, "Library"), "Application Support"), APP_DATA_DIR_NAME),
            None => join_lit(&dot, APP_DATA_DIR_NAME),
        }
    } else {
        join_lit(base, ".wrec")
    }
}

/// The app support folder names an older macOS build may have saved its
/// configuration under: `Wrec Dev`, and the name of the running app bundle
/// when it is neither `Wrec` nor `Wrec Dev`.
pub open spec fn legacy_app_support_names(runtime_app_name: Seq<char>) -> Seq<Seq<char>> {
    if runtime_app_name != "Wrec"@ && runtime_app_name != "Wrec Dev"@ {
        seq!["Wrec Dev"@, runtime_app_name]
    } else {
        seq!["Wrec Dev"@]
    }
}

/// Where older builds saved the configuration, in the order they are
/// tried. `runtime_app_name` is the running app bundle's name on macOS and
/// `None` elsewhere.
pub open spec fn legacy_config_paths_spec(home: Option<Seq<char>>, runtime_app_name: Option<Seq<char>>) -> Seq<Seq<char>> {
    match home {
        None => seq![path_join("."@, "wrec.json"@)],
        Some(h) => {
            let app_support: Seq<Seq<char>> = match runtime_app_name {
                Some(name) => {
                    let dir = path_join(path_join(h, "Library"@), "Application Support"@);
                    legacy_app_support_names(name).map_values(|n: Seq<char>| path_join(path_join(dir, n), "config.json"@))
                },
                None => Seq::empty(),
            };
            app_support + seq![
                path_join(path_join(h, ".wrec"@), "config.json"@),
                path_join(path_join(path_join(h, ".config"@), "wrec"@), "config.json"@),
                path_join(path_join(h, ".config"@), "wrec.json"@),
            ]
        },
    }
}

/// The text of each path.
pub open spec fn path_texts(v: Seq<String>) -> Seq<Seq<char>> {
    v.map_values(|p: String| p@)
}

/// Where older builds saved the configuration, given the home folder and,
/// on macOS, the running app bundle's name.
pub fn legacy_config_paths(home: &Option<String>, runtime_app_name: &Option<String>) -> (r: Vec<String>)
    ensures
        path_texts(r@) == legacy_config_paths_spec(
            match home { Some(h) => Some(h@), None => None },
            match runtime_app_name { Some(n) => Some(n@), None => None },
        ),
{
    proof {
        reveal_strlit(".");
        reveal_strlit("Wrec");
        reveal_strlit("Wrec Dev");
    }
    let ghost want = legacy_config_paths_spec(
        match home { Some(h) => Some(h@), None => None },
        match runtime_app_name { Some(n) => Some(n@), None => None },
    );
    let mut out: Vec<String> = Vec::new();
    match home {
        None => {
            out.push(join_lit(&".".to_string(), "wrec.json"));
            assert(path_texts(out@) =~= want);
            out
        },
        Some(h) => {
            match runtime_app_name {
                Some(name) => {
                    let dir = join_lit(&join_lit(h, "Library"), "Application Support");
                    out.push(join_lit(&join_lit(&dir, "Wrec Dev"), "config.json"));
                    let n = crate::text::chars_of(name.as_str());
                    if !is_lit(&n, "Wrec") && !is_lit(&n, "Wrec Dev") {
                        out.push(join_lit(&join_path(&dir, name), "config.json"));
                    }
                },
                None => {},
            }
            out.push(join_lit(&join_lit(h, ".wrec"), "config.json"));
            out.push(join_lit(&join_lit(&join_lit(h, ".config"), "wrec"), "config.json"));
            out.push(join_lit(&join_lit(h, ".config"), "wrec.json"));
            assert(path_texts(out@) =~= want);
            out
        },
    }
}

} // verus!
