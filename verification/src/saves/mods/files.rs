//! Mod files by name: which mod a file is for, which save slot it belongs
//! to, and which reader its document goes to.
use vstd::prelude::*;

use std::num::ParseIntError;

use crate::mods::meta::{parse_u8, u8_text};
use crate::saves::mods::auroras_additions::AurorasAdditionsSave;
use crate::saves::mods::collab_utils2::CollabsUtils2Save;
use crate::utils::text::{lemma_pieces_len, decimal, decimal_text, has_part, pieces, push_str, split_all, str_contains, str_eq};
use crate::utils::yaml::{FromYaml, Yaml, YamlParseError, YamlParseErrorV, YamlV, YamlWriteError};

verus! {

/// Why a file name is not that of a mod file of the kind asked for.
#[derive(Debug, Clone)]
pub enum ModFileNameError {
    /// The name does not contain `.celeste`.
    NotCelesteFile,
    /// The name does not contain the kind of file asked for.
    NotOfType,
    /// The name has no `-`, or too few parts to name a mod.
    InvalidName,
    /// The save slot at the start of the name is not a number that fits in a byte.
    InvalidIndex(ParseIntError),
}

/// The kinds of [ModFileNameError].
pub enum NameFailure {
    NotCelesteFile,
    NotOfType,
    InvalidName,
    InvalidIndex,
}

impl ModFileNameError {
    pub open spec fn kind(self) -> NameFailure {
        match self {
            ModFileNameError::NotCelesteFile => NameFailure::NotCelesteFile,
            ModFileNameError::NotOfType => NameFailure::NotOfType,
            ModFileNameError::InvalidName => NameFailure::InvalidName,
            ModFileNameError::InvalidIndex(_) => NameFailure::InvalidIndex,
        }
    }
}

/// The pieces between dashes of the name's part before its first dot.
pub open spec fn name_parts(name: Seq<char>) -> Seq<Seq<char>> {
    pieces(pieces(name, '.')[0], '-')
}

/// Whether the name passes the checks that come before it is split.
pub open spec fn name_shaped(file_type: Seq<char>, name: Seq<char>) -> bool {
    has_part(name, ".celeste"@) && has_part(name, file_type) && has_part(name, "-"@)
}

/// The save slot and mod name that a mod file's name gives, such as
/// `1-modsave-CollabUtils2.celeste`: the slot is the number before the first
/// dash (255 for a file shared by all slots, `global`, which has no slot),
/// and the mod is the piece after the dash that follows the kind of file.
pub open spec fn mod_file_name(file_type: Seq<char>, global: bool, name: Seq<char>) -> Result<(u8, Seq<char>), NameFailure> {
    if !has_part(name, ".celeste"@) {
        Err(NameFailure::NotCelesteFile)
    } else if !has_part(name, file_type) {
        Err(NameFailure::NotOfType)
    } else if !has_part(name, "-"@) {
        Err(NameFailure::InvalidName)
    } else {
        let parts = name_parts(name);
        if !global {
            match u8_text(parts[0]) {
                None => Err(NameFailure::InvalidIndex),
                Some(i) => if parts.len() >= 3 {
                    Ok((i, parts[2]))
                } else {
                    Err(NameFailure::InvalidName)
                },
            }
        } else if parts.len() >= 2 {
            Ok((255u8, parts[1]))
        } else {
            Err(NameFailure::InvalidName)
        }
    }
}

/// The names on which checking stops short: a slot number followed by no
/// dash before the first dot, which leaves no piece where the kind should be.
pub open spec fn mod_file_name_fails_hard(file_type: Seq<char>, global: bool, name: Seq<char>) -> bool {
    &&& name_shaped(file_type, name)
    &&& !global
    &&& u8_text(name_parts(name)[0]) is Some
    &&& name_parts(name).len() < 2
}

/// Whether checking the name stops short (see [mod_file_name_fails_hard]).
pub fn name_stops_short(file_type: &str, global: bool, file_name: &str) -> (r: bool)
    ensures
        r == mod_file_name_fails_hard(file_type@, global, file_name@),
{
    if global || !str_contains(file_name, ".celeste") || !str_contains(file_name, file_type) || !str_contains(
        file_name,
        "-",
    ) {
        return false;
    }
    let stems = split_all(file_name, '.');
    proof {
        lemma_pieces_len(file_name@, '.');
        assert(stems.deep_view().len() == stems@.len());
        assert(stems.deep_view()[0] == stems@[0]@);
    }
    let parts = split_all(stems[0].as_str(), '-');
    proof {
        lemma_pieces_len(stems@[0]@, '-');
        assert(parts.deep_view() == name_parts(file_name@));
        assert(parts.deep_view()[0] == parts@[0]@);
    }
    parse_u8(parts[0].as_str()).is_ok() && parts.len() < 2
}

/// Checks that `file_name` is the name of a mod file of kind `file_type`,
/// giving its save slot and the mod it is for.
pub fn check_yaml_file(file_type: &str, global: bool, file_name: &str) -> (r: Result<(u8, String), ModFileNameError>)
    requires
        !mod_file_name_fails_hard(file_type@, global, file_name@),
    ensures
        match mod_file_name(file_type@, global, file_name@) {
            Ok((i, n)) => r matches Ok(x) && x.0 == i && x.1@ == n,
            Err(k) => r matches Err(e) && e.kind() == k,
        },
{
    if !str_contains(file_name, ".celeste") {
        return Err(ModFileNameError::NotCelesteFile);
    }
    if !str_contains(file_name, file_type) {
        return Err(ModFileNameError::NotOfType);
    }
    if !str_contains(file_name, "-") {
        return Err(ModFileNameError::InvalidName);
    }
    let stems = split_all(file_name, '.');
    proof {
        lemma_pieces_len(file_name@, '.');
        assert(stems.deep_view().len() == stems@.len());
        assert(stems.deep_view()[0] == stems@[0]@);
    }
    let parts = split_all(stems[0].as_str(), '-');
    proof {
        assert(parts.deep_view() == name_parts(file_name@));
        assert forall|i: int| 0 <= i < parts@.len() implies #[trigger] parts@[i]@ == name_parts(file_name@)[i] by {
            assert(parts.deep_view()[i] == parts@[i]@);
        }
    }
    if !global {
        let file_index = match parse_u8(parts[0].as_str()) {
            Ok(i) => i,
            Err(e) => {
                return Err(ModFileNameError::InvalidIndex(e));
            },
        };
        if parts.len() < 3 {
            return Err(ModFileNameError::InvalidName);
        }
        Ok((file_index, parts[2].clone()))
    } else {
        if parts.len() < 2 {
            return Err(ModFileNameError::InvalidName);
        }
        Ok((255, parts[1].clone()))
    }
}

/// A mod related file<br>
/// Either a `*-modsave`, `*-modsession`, or `modsettings-*`.
pub trait ModFile: Sized {
    /// The unlocalized name of the mod the file is for: the third part of
    /// the file name.
    spec fn mod_name_spec() -> Seq<char>;

    /// The unlocalized name of the mod the file is for.
    fn mod_name() -> (r: &'static str)
        ensures
            r@ == Self::mod_name_spec(),
    ;
}

/// A `*-modsave-*.celeste` file.
///
/// These save data across sessions
pub trait ModSave: ModFile {}

/// A `*-modsession-*.celeste` file.
///
/// These save data per-session. Usually data is more directly related to gameplay.
pub trait ModSession: ModFile {}

/// A `modsettings-*.celeste` file
///
/// These store settings for each mod, and are shared among save files
pub trait ModSettings: ModFile {}

impl ModFile for AurorasAdditionsSave {
    open spec fn mod_name_spec() -> Seq<char> {
        "AurorasAdditions"@
    }

    fn mod_name() -> (r: &'static str) {
        AurorasAdditionsSave::MOD_NAME
    }
}

impl ModSave for AurorasAdditionsSave {}

impl ModFile for CollabsUtils2Save {
    open spec fn mod_name_spec() -> Seq<char> {
        "CollabUtils2"@
    }

    fn mod_name() -> (r: &'static str) {
        CollabsUtils2Save::MOD_NAME
    }
}

impl ModSave for CollabsUtils2Save {}

impl ModFile for DynYamlDoc {
    open spec fn mod_name_spec() -> Seq<char> {
        ""@
    }

    fn mod_name() -> (r: &'static str) {
        ""
    }
}

impl ModSave for DynYamlDoc {}

impl ModSession for DynYamlDoc {}

impl ModSettings for DynYamlDoc {}

/// A generic YAML document that no reader of this library knows, with the
/// name of the mod it is for.
pub struct DynYamlDoc(pub String, pub Yaml);

impl DynYamlDoc {
    /// The document, for the mod named `mod_name`.
    pub fn from_yaml_and_mod_name(yaml: &Yaml, mod_name: &str) -> (r: Self)
        ensures
            r.0@ == mod_name@,
            r.1@ == yaml@,
    {
        DynYamlDoc(mod_name.to_owned(), yaml.duplicate())
    }

    /// The document as it is.
    pub fn to_yaml(&self) -> (r: Yaml)
        ensures
            r@ == self.1@,
    {
        self.1.duplicate()
    }
}

/// Why a mod file could not be read.
#[derive(Debug)]
pub enum ModFileError {
    Name(ModFileNameError),
    Parse(YamlParseError),
}

/// The name of a file: the slot, the kind and the mod, as in `0-modsave-CollabUtils2.celeste`.
pub open spec fn slot_file_name(index: u8, kind: Seq<char>, mod_name: Seq<char>) -> Seq<char> {
    decimal(index as nat) + "-"@ + kind + "-"@ + mod_name + ".celeste"@
}

/// Builds a file name from a slot, a kind and a mod name.
fn slot_file_name_text(index: u8, kind: &str, mod_name: &str) -> (r: String)
    ensures
        r@ == slot_file_name(index, kind@, mod_name@),
{
    let mut out = decimal_text(index as u64);
    push_str(&mut out, "-");
    push_str(&mut out, kind);
    push_str(&mut out, "-");
    push_str(&mut out, mod_name);
    push_str(&mut out, ".celeste");
    out
}

/// A `*-modsave-*.celeste` file, read by the reader of its mod where this
/// library has one.
pub enum ParsedModSave {
    AurorasAdditions(AurorasAdditionsSave),
    CollabUtils2(CollabsUtils2Save),
    Unknown(DynYamlDoc),
}

impl ParsedModSave {
    /// The name of the mod the save is for.
    pub open spec fn mod_name(&self) -> Seq<char> {
        match self {
            ParsedModSave::AurorasAdditions(_) => "AurorasAdditions"@,
            ParsedModSave::CollabUtils2(_) => "CollabUtils2"@,
            ParsedModSave::Unknown(d) => d.0@,
        }
    }

    /// The name of the file the save is stored in, for save slot `file_index`.
    pub fn get_file_name(&self, file_index: u8) -> (r: String)
        ensures
            r@ == slot_file_name(file_index, "modsave"@, self.mod_name()),
    {
        let name = match self {
            ParsedModSave::AurorasAdditions(_) => AurorasAdditionsSave::MOD_NAME,
            ParsedModSave::CollabUtils2(_) => CollabsUtils2Save::MOD_NAME,
            ParsedModSave::Unknown(DynYamlDoc(mod_name, _)) => mod_name.as_str(),
        };
        slot_file_name_text(file_index, "modsave", name)
    }

    /// Reads the first document of the mod save file named `file_name`: the
    /// save slot from the name, and the save, read by its mod's reader when
    /// the name gives a mod this library reads, else kept as it is.
    pub fn from_yaml_and_file_name(file_name: &str, yaml: &Yaml) -> (r: Result<(u8, Self), ModFileError>)
        requires
            !mod_file_name_fails_hard("modsave"@, false, file_name@),
        ensures
            match mod_file_name("modsave"@, false, file_name@) {
                Err(k) => r matches Err(ModFileError::Name(e)) && e.kind() == k,
                Ok((i, n)) => if n == "AurorasAdditions"@ {
                    match r {
                        Ok((j, ParsedModSave::AurorasAdditions(s))) => j == i && AurorasAdditionsSave::readable(yaml@)
                            && AurorasAdditionsSave::reads_as(yaml@, s),
                        Err(ModFileError::Parse(e)) => !AurorasAdditionsSave::readable(yaml@) && e@
                            == AurorasAdditionsSave::read_error(yaml@),
                        _ => false,
                    }
                } else if n == "CollabUtils2"@ {
                    match r {
                        Ok((j, ParsedModSave::CollabUtils2(s))) => j == i && CollabsUtils2Save::readable(yaml@)
                            && CollabsUtils2Save::reads_as(yaml@, s),
                        Err(ModFileError::Parse(e)) => !CollabsUtils2Save::readable(yaml@) && e@
                            == CollabsUtils2Save::read_error(yaml@),
                        _ => false,
                    }
                } else {
                    r matches Ok((j, ParsedModSave::Unknown(d))) && j == i && d.0@ == n && d.1@ == yaml@
                },
            },
    {
        let (file_index, mod_name) = match check_yaml_file("modsave", false, file_name) {
            Ok(x) => x,
            Err(e) => {
                return Err(ModFileError::Name(e));
            },
        };
        if str_eq(mod_name.as_str(), AurorasAdditionsSave::MOD_NAME) {
            match AurorasAdditionsSave::parse_from_yaml(yaml) {
                Ok(s) => Ok((file_index, ParsedModSave::AurorasAdditions(s))),
                Err(e) => Err(ModFileError::Parse(e)),
            }
        } else if str_eq(mod_name.as_str(), CollabsUtils2Save::MOD_NAME) {
            match CollabsUtils2Save::parse_from_yaml(yaml) {
                Ok(s) => Ok((file_index, ParsedModSave::CollabUtils2(s))),
                Err(e) => Err(ModFileError::Parse(e)),
            }
        } else {
            Ok((file_index, ParsedModSave::Unknown(DynYamlDoc::from_yaml_and_mod_name(yaml, mod_name.as_str()))))
        }
    }

    /// The document the save is written as.
    pub fn to_yaml(&self) -> (r: Result<Yaml, YamlWriteError>)
        ensures
            match self {
                ParsedModSave::AurorasAdditions(s) => r matches Ok(y) && y@ == AurorasAdditionsSave::written(*s),
                ParsedModSave::CollabUtils2(s) => r matches Ok(y) && y@ == CollabsUtils2Save::written(*s),
                ParsedModSave::Unknown(d) => r matches Ok(y) && y@ == d.1@,
            },
    {
        match self {
            ParsedModSave::AurorasAdditions(a) => a.to_yaml(),
            ParsedModSave::CollabUtils2(c) => c.to_yaml(),
            ParsedModSave::Unknown(doc) => Ok(doc.to_yaml()),
        }
    }
}

/// A `*-modsession-*.celeste` file, kept as it is.
pub enum ParsedModSession {
    Unknown(DynYamlDoc),
}

impl ParsedModSession {
    /// The name of the file the session is stored in, for save slot `file_index`.
    pub fn get_file_name(&self, file_index: u8) -> (r: String)
        ensures
            r@ == slot_file_name(
                file_index,
                "modsession"@,
                match self {
                    ParsedModSession::Unknown(d) => d.0@,
                },
            ),
    {
        match self {
            ParsedModSession::Unknown(DynYamlDoc(mod_name, _)) => slot_file_name_text(
                file_index,
                "modsession",
                mod_name.as_str(),
            ),
        }
    }

    /// Reads the first document of the mod session file named `file_name`.
    pub fn from_yaml_and_file_name(file_name: &str, yaml: &Yaml) -> (r: Result<(u8, Self), ModFileError>)
        requires
            !mod_file_name_fails_hard("modsession"@, false, file_name@),
        ensures
            match mod_file_name("modsession"@, false, file_name@) {
                Err(k) => r matches Err(ModFileError::Name(e)) && e.kind() == k,
                Ok((i, n)) => r matches Ok((j, ParsedModSession::Unknown(d))) && j == i && d.0@ == n && d.1@
                    == yaml@,
            },
    {
        match check_yaml_file("modsession", false, file_name) {
            Ok((file_index, mod_name)) => Ok(
                (file_index, ParsedModSession::Unknown(DynYamlDoc::from_yaml_and_mod_name(yaml, mod_name.as_str()))),
            ),
            Err(e) => Err(ModFileError::Name(e)),
        }
    }

    /// The document the session is written as.
    pub fn to_yaml(&self) -> (r: Yaml)
        ensures
            match self {
                ParsedModSession::Unknown(d) => r@ == d.1@,
            },
    {
        match self {
            ParsedModSession::Unknown(doc) => doc.to_yaml(),
        }
    }
}

/// A `modsettings-*.celeste` file, kept as it is.
pub enum ParsedModSetting {
    Unknown(DynYamlDoc),
}

impl ParsedModSetting {
    /// The name of the file the settings are stored in.
    pub fn get_file_name(&self) -> (r: String)
        ensures
            r@ == "modsettings-"@ + match self {
                ParsedModSetting::Unknown(d) => d.0@,
            } + ".celeste"@,
    {
        match self {
            ParsedModSetting::Unknown(DynYamlDoc(mod_name, _)) => {
                let mut out = "modsettings-".to_owned();
                push_str(&mut out, mod_name.as_str());
                push_str(&mut out, ".celeste");
                out
            },
        }
    }

    /// Reads the first document of the mod settings file named `file_name`;
    /// settings files are shared by all slots, so the slot is 255.
    pub fn from_yaml_and_file_name(file_name: &str, yaml: &Yaml) -> (r: Result<(u8, Self), ModFileError>)
        ensures
            match mod_file_name("modsettings"@, true, file_name@) {
                Err(k) => r matches Err(ModFileError::Name(e)) && e.kind() == k,
                Ok((i, n)) => r matches Ok((j, ParsedModSetting::Unknown(d))) && j == i && d.0@ == n && d.1@
                    == yaml@,
            },
    {
        match check_yaml_file("modsettings", true, file_name) {
            Ok((file_index, mod_name)) => Ok(
                (file_index, ParsedModSetting::Unknown(DynYamlDoc::from_yaml_and_mod_name(yaml, mod_name.as_str()))),
            ),
            Err(e) => Err(ModFileError::Name(e)),
        }
    }

    /// The document the settings are written as.
    pub fn to_yaml(&self) -> (r: Yaml)
        ensures
            match self {
                ParsedModSetting::Unknown(d) => r@ == d.1@,
            },
    {
        match self {
            ParsedModSetting::Unknown(doc) => doc.to_yaml(),
        }
    }
}

} // verus!
