//! Where an application keeps its data.
//!
//! The directory depends on the operating system and on a few directories
//! that the environment names. Nothing is read here: the caller says what the
//! environment holds, and gets the directory as a base and the names to join
//! to it.

use crate::dcrjson::rpc_types::same_text;
use vstd::prelude::*;
use vstd::string::*;

verus! {

/// What the directory of an application depends on.
#[derive(Debug, Clone, PartialEq, Eq)]
pub struct Environment {
    /// The name of the operating system: `windows`, `macos`, `plan9`, or any
    /// other for a POSIX system.
    pub os: String,
    /// The home directory of the user, if it is known.
    pub home_dir: Option<String>,
    /// The directory for local application data (Windows), if it is set.
    pub local_app_data: Option<String>,
    /// The directory for roaming application data (Windows), if it is set.
    pub app_data: Option<String>,
}

/// A directory: a base and the names that lead from it to the directory,
/// the outermost first.
#[derive(Debug, Clone, PartialEq, Eq)]
pub struct AppDataDir {
    pub base: String,
    pub components: Vec<String>,
}

/// A request for the directory of an application.
#[derive(Debug, Clone, PartialEq, Eq)]
pub struct DirData {
    pub os: String,
    pub app_name: String,
    pub roaming: bool,
}

/// The upper case of an ASCII letter; any other character as it is.
pub open spec fn upper(c: char) -> char {
    if 'a' <= c && c <= 'z' {
        ((c as u32) - 32) as char
    } else {
        c
    }
}

/// The lower case of an ASCII letter; any other character as it is.
pub open spec fn lower(c: char) -> char {
    if 'A' <= c && c <= 'Z' {
        ((c as u32) + 32) as char
    } else {
        c
    }
}

/// `std`'s `str::to_ascii_uppercase`: a copy of the string in which each
/// ASCII letter stands in upper case and every other character as it was.
pub assume_specification[ str::to_ascii_uppercase ](s: &str) -> (r: String)
    ensures
        r@ == Seq::new(s@.len(), |i: int| upper(s@[i])),
;

/// `std`'s `str::to_ascii_lowercase`: a copy of the string in which each
/// ASCII letter stands in lower case and every other character as it was.
pub assume_specification[ str::to_ascii_lowercase ](s: &str) -> (r: String)
    ensures
        r@ == Seq::new(s@.len(), |i: int| lower(s@[i])),
;

/// The name with its first character in upper case.
pub open spec fn capitalized(name: Seq<char>) -> Seq<char> {
    if name.len() == 0 {
        name
    } else {
        seq![upper(name[0])] + name.subrange(1, name.len() as int)
    }
}

/// The name with its first character in lower case.
pub open spec fn uncapitalized(name: Seq<char>) -> Seq<char> {
    if name.len() == 0 {
        name
    } else {
        seq![lower(name[0])] + name.subrange(1, name.len() as int)
    }
}

/// The name of the application without the period that may stand before it.
pub open spec fn bare_name(app_name: Seq<char>) -> Seq<char> {
    if app_name.len() > 0 && app_name[0] == '.' {
        app_name.subrange(1, app_name.len() as int)
    } else {
        app_name
    }
}

/// A directory as a base and the names joined to it.
pub open spec fn dir(base: Seq<char>, components: Seq<Seq<char>>) -> Option<(
    Seq<char>,
    Seq<Seq<char>>,
)> {
    Some((base, components))
}

/// The directory of the application `name` on the operating system `os`,
/// for a user whose home directory is `home`.
///
/// - Windows: the name, capitalized, under the directory for local
///   application data; under the one for roaming data if `roaming` is set or
///   the local one is empty. Without the directory that is needed there is
///   none.
/// - macOS: `Library/Application Support` and the name, capitalized, under
///   the home directory.
/// - Plan 9: the name in lower case, and that only while the home directory
///   is empty.
/// - any other system: the name in lower case behind a period, under the
///   home directory.
///
/// Where the home directory is needed and empty, there is no directory.
pub open spec fn app_dir(
    os: Seq<char>,
    name: Seq<char>,
    roaming: bool,
    home: Seq<char>,
    local_app_data: Option<Seq<char>>,
    app_data: Option<Seq<char>>,
) -> Option<(Seq<char>, Seq<Seq<char>>)> {
    if os == "windows"@ {
        match local_app_data {
            Some(local) => if local.len() == 0 || roaming {
                match app_data {
                    Some(roam) => dir(roam, seq![capitalized(name)]),
                    None => None,
                }
            } else {
                dir(local, seq![capitalized(name)])
            },
            None => None,
        }
    } else if os == "macos"@ {
        if home.len() > 0 {
            dir(home, seq!["Library"@, "Application Support"@, capitalized(name)])
        } else {
            None
        }
    } else if os == "plan9"@ {
        if home.len() > 0 {
            None
        } else {
            dir(home, seq![uncapitalized(name)])
        }
    } else {
        if home.len() == 0 {
            None
        } else {
            dir(home, seq!["."@ + uncapitalized(name)])
        }
    }
}

/// The directory of the application `app_name` in the given environment.
/// An empty name and a single period ask for the current directory, which is
/// no directory of an application; a period before the name is dropped.
/// Without a home directory there is none.
pub open spec fn app_data_dir(
    os: Seq<char>,
    app_name: Seq<char>,
    roaming: bool,
    home_dir: Option<Seq<char>>,
    local_app_data: Option<Seq<char>>,
    app_data: Option<Seq<char>>,
) -> Option<(Seq<char>, Seq<Seq<char>>)> {
    if app_name.len() == 0 || app_name == "."@ {
        None
    } else {
        match home_dir {
            Some(home) => app_dir(
                os,
                bare_name(app_name),
                roaming,
                home,
                local_app_data,
                app_data,
            ),
            None => None,
        }
    }
}

/// The text of a string that may be there.
pub open spec fn text_of(s: Option<String>) -> Option<Seq<char>> {
    match s {
        Some(s) => Some(s@),
        None => None,
    }
}

impl AppDataDir {
    /// The names joined to the base.
    pub open spec fn names(self) -> Seq<Seq<char>> {
        Seq::new(self.components@.len(), |i: int| self.components@[i]@)
    }
}

/// The base and the names of a directory that may be there.
pub open spec fn dir_view(d: Option<AppDataDir>) -> Option<(Seq<char>, Seq<Seq<char>>)> {
    match d {
        Some(d) => Some((d.base@, d.names())),
        None => None,
    }
}

/// The name with its first character in upper case.
pub fn capitalize(name: &str) -> (r: String)
    ensures
        r@ == capitalized(name@),
{
    let n = name.unicode_len();
    if n == 0 {
        return String::from_str(name);
    }
    let mut r = name.substring_char(0, 1).to_ascii_uppercase();
    r.append(name.substring_char(1, n));
    assert(r@ =~= capitalized(name@));
    r
}

/// The name with its first character in lower case.
pub fn uncapitalize(name: &str) -> (r: String)
    ensures
        r@ == uncapitalized(name@),
{
    let n = name.unicode_len();
    if n == 0 {
        return String::from_str(name);
    }
    let mut r = name.substring_char(0, 1).to_ascii_lowercase();
    r.append(name.substring_char(1, n));
    assert(r@ =~= uncapitalized(name@));
    r
}

fn one(base: &str, name: String) -> (d: Option<AppDataDir>)
    ensures
        dir_view(d) == dir(base@, seq![name@]),
{
    let mut components: Vec<String> = Vec::new();
    components.push(name);
    let d = AppDataDir { base: String::from_str(base), components };
    assert(d.names() =~= seq![name@]);
    Some(d)
}

impl DirData {
    /// The directory of the application in the given environment.
    pub fn get_app_data_dir(&self, environment: &Environment) -> (d: Option<AppDataDir>)
        ensures
            dir_view(d) == app_data_dir(
                self.os@,
                self.app_name@,
                self.roaming,
                text_of(environment.home_dir),
                text_of(environment.local_app_data),
                text_of(environment.app_data),
            ),
    {
        let app_name = self.app_name.as_str();
        let n = app_name.unicode_len();
        if n == 0 || same_text(app_name, ".") {
            return None;
        }
        proof {
            reveal_strlit(".");
        }
        let name = if app_name.get_char(0) == '.' {
            app_name.substring_char(1, n)
        } else {
            app_name
        };
        match &environment.home_dir {
            Some(home) => self.retrieve_from_os(name, home.as_str(), environment),
            None => None,
        }
    }

    /// The directory of the application `name` for a user whose home
    /// directory is `home_dir`.
    pub fn retrieve_from_os(&self, name: &str, home_dir: &str, environment: &Environment) -> (d:
        Option<AppDataDir>)
        ensures
            dir_view(d) == app_dir(
                self.os@,
                name@,
                self.roaming,
                home_dir@,
                text_of(environment.local_app_data),
                text_of(environment.app_data),
            ),
    {
        let os = self.os.as_str();
        let home_empty = home_dir.unicode_len() == 0;
        if same_text(os, "windows") {
            match &environment.local_app_data {
                Some(local) => {
                    if local.as_str().unicode_len() == 0 || self.roaming {
                        match &environment.app_data {
                            Some(roam) => one(roam.as_str(), capitalize(name)),
                            None => None,
                        }
                    } else {
                        one(local.as_str(), capitalize(name))
                    }
                },
                None => None,
            }
        } else if same_text(os, "macos") {
            if !home_empty {
                let mut components: Vec<String> = Vec::new();
                components.push(String::from_str("Library"));
                components.push(String::from_str("Application Support"));
                let last = capitalize(name);
                components.push(last);
                let d = AppDataDir { base: String::from_str(home_dir), components };
                assert(d.names() =~= seq!["Library"@, "Application Support"@, last@]);
                Some(d)
            } else {
                None
            }
        } else if same_text(os, "plan9") {
            if !home_empty {
                None
            } else {
                one(home_dir, uncapitalize(name))
            }
        } else {
            if home_empty {
                None
            } else {
                let mut dotted = String::from_str(".");
                dotted.append(uncapitalize(name).as_str());
                one(home_dir, dotted)
            }
        }
    }
}

/// The directory in which the application `app_name` keeps its data, in the
/// given environment. `roaming` asks, on Windows, for the directory that
/// follows the user from machine to machine.
pub fn get_app_data_dir(app_name: &str, roaming: bool, environment: &Environment) -> (d: Option<
    AppDataDir,
>)
    ensures
        dir_view(d) == app_data_dir(
            environment.os@,
            app_name@,
            roaming,
            text_of(environment.home_dir),
            text_of(environment.local_app_data),
            text_of(environment.app_data),
        ),
{
    let dir_data = DirData {
        app_name: String::from_str(app_name),
        os: environment.os.clone(),
        roaming,
    };
    dir_data.get_app_data_dir(environment)
}

} // verus!
