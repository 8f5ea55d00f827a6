//! The program's settings: game paths and the default game.
//!
//! Reading and writing the settings file is plain serialization and I/O and
//! lives with the application shell; here are the settings values
//! themselves and their defaults.

use vstd::prelude::*;

verus! {

/// Every setting of the program. The default game is its position in the
/// list of games:
/// - 0 -> Warhammer 2.
/// - 1 -> Warhammer 1.
/// - 2 -> Attila.
/// - 3 -> Rome 2.
#[derive(Clone, Debug)]
pub struct Settings {
    pub paths: Paths,
    pub default_game: i32,
}

/// Any path we need to keep in the settings, each one optional.
#[derive(Clone, Debug)]
pub struct Paths {
    pub my_mods_base_path: Option<String>,
    pub warhammer_2: Option<String>,
    pub warhammer_1: Option<String>,
    pub attila: Option<String>,
    pub rome_2: Option<String>,
}

impl Settings {
    /// A settings value with default contents, for when no settings file
    /// exists yet at startup.
    pub fn new() -> (s: Settings)
        ensures
            s.paths.my_mods_base_path is None,
            s.paths.warhammer_2 is None,
            s.paths.warhammer_1 is None,
            s.paths.attila is None,
            s.paths.rome_2 is None,
            s.default_game == 0,
    {
        Settings { paths: Paths::new(), default_game: 0 }
    }
}

impl Paths {
    /// A set of empty paths, for the initial creation of the settings.
    pub fn new() -> (p: Paths)
        ensures
            p.my_mods_base_path is None,
            p.warhammer_2 is None,
            p.warhammer_1 is None,
            p.attila is None,
            p.rome_2 is None,
    {
        Paths {
            my_mods_base_path: None,
            warhammer_2: None,
            warhammer_1: None,
            attila: None,
            rome_2: None,
        }
    }
}

} // verus!
