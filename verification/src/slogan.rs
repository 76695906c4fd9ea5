//! The emblem and the name banner shown when the program starts.

use vstd::prelude::*;

verus! {

/// The emblem, drawn in characters.
pub const EMBLEM: &'static str = r#"
      		....                 ....
                 -+++++=:       .-=+++++
                  =+++++++:    =+++++++-
                   -++++==+-  ++==++++:
                     :=++=-+:===+++=:
                        .++:+=-+.
                            +:
                            =-
                         .-=++-:.
                       -++++-==++=:
                      =++ ._||. :+++-
                     :+++  |__]  +++:
                     -+++ _|__]  +++-
                      ++=   ||  -+++-
                       =++==:=++++:
                        .:=++++-:
                            :.
  "#;

/// The program's name, drawn in characters, up to where the version follows.
pub const NAME_BANNER: &'static str = r#"
             ___             _  ___ _____ _
            / __| ___ ___ __| |/ __|_   _| |
            \__ \/ -_) -_) _` | (__  | | | |__
            |___/\___\___\__,_|\___| |_| |____| "#;

/// What ends the banner after the version.
pub const BANNER_END: &'static str = "\n  ";

/// The words that introduce the version.
pub const VERSION_LABEL: &'static str = "version: ";

/// The emblem.
pub fn slogan() -> (text: String)
    ensures
        text@ == EMBLEM@,
{
    String::from_str(EMBLEM)
}

/// The banner for `version`: the name, then `version: <version>` unless the
/// version is empty, then the end of the banner.
pub open spec fn banner_text(version: Seq<char>) -> Seq<char> {
    if version.len() == 0 {
        NAME_BANNER@ + BANNER_END@
    } else {
        NAME_BANNER@ + VERSION_LABEL@ + version + BANNER_END@
    }
}

/// The program's name as a banner, with the version beside it if one is
/// given.
pub fn program_name_banner(version: &str) -> (text: String)
    ensures
        text@ == banner_text(version@),
{
    let mut text = String::from_str(NAME_BANNER);
    if !version.is_empty() {
        text.append(VERSION_LABEL);
        text.append(version);
    }
    text.append(BANNER_END);
    text
}

/// The line that tells the version: `<name> <version> (<commit> <date>)`.
pub open spec fn version_line_text(
    name: Seq<char>,
    version: Seq<char>,
    commit: Seq<char>,
    date: Seq<char>,
) -> Seq<char> {
    name + " "@ + version + " ("@ + commit + " "@ + date + ")"@
}

/// The line that tells the version, the commit it was built from and the
/// commit's date.
pub fn version_line(name: &str, version: &str, commit: &str, date: &str) -> (text: String)
    ensures
        text@ == version_line_text(name@, version@, commit@, date@),
{
    let mut text = String::from_str(name);
    text.append(" ");
    text.append(version);
    text.append(" (");
    text.append(commit);
    text.append(" ");
    text.append(date);
    text.append(")");
    text
}

} // verus!
