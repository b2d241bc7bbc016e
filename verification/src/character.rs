//! What a character is allowed to do, and the sheet that describes it.

use vstd::prelude::*;

use crate::brain::strategic_output::Goal;
use crate::config::ConfigCore;
use crate::text::{blank, is_blank, optional_text};

verus! {

/// One body capability. A character can only perform the operations its
/// capabilities grant.
#[derive(Debug, Clone, Copy, PartialEq, Eq, Hash, Structural)]
pub enum Capability {
    Speak,
    TalkToFolk,
    Walk,
    Doors,
    Fight,
    Duel,
    Money,
    Trade,
    Purpose,
}

/// A finite set of capabilities.
#[derive(Debug, Clone)]
pub struct CapabilitySet {
    members: Vec<Capability>,
}

impl View for CapabilitySet {
    type V = Set<Capability>;

    closed spec fn view(&self) -> Set<Capability> {
        self.members@.to_set()
    }
}

impl CapabilitySet {
    /// The empty set.
    pub fn new() -> (set: CapabilitySet)
        ensures
            set@ == Set::<Capability>::empty(),
    {
        let set = CapabilitySet { members: Vec::new() };
        assert(set@ =~= Set::<Capability>::empty());
        set
    }

    /// The set holding exactly the listed capabilities.
    pub fn from_list(capabilities: &[Capability]) -> (set: CapabilitySet)
        ensures
            set@ == capabilities@.to_set(),
    {
        let mut set = CapabilitySet::new();
        let mut i: usize = 0;
        while i < capabilities.len()
            invariant
                i <= capabilities@.len(),
                set@ == capabilities@.take(i as int).to_set(),
            decreases capabilities@.len() - i,
        {
            set.insert(capabilities[i]);
            assert(capabilities@.take(i + 1) =~= capabilities@.take(i as int).push(
                capabilities@[i as int],
            ));
            proof {
                capabilities@.take(i as int).lemma_push_to_set_commute(capabilities@[i as int]);
            }
            i = i + 1;
        }
        assert(capabilities@.take(i as int) =~= capabilities@);
        set
    }

    /// Add one capability.
    pub fn insert(&mut self, capability: Capability)
        ensures
            final(self)@ == old(self)@.insert(capability),
    {
        proof {
            self.members@.lemma_push_to_set_commute(capability);
        }
        self.members.push(capability);
    }

    /// Whether `capability` is in the set.
    pub fn contains(&self, capability: Capability) -> (present: bool)
        ensures
            present == self@.contains(capability),
    {
        let mut i: usize = 0;
        while i < self.members.len()
            invariant
                i <= self.members@.len(),
                forall|j: int| 0 <= j < i ==> self.members@[j] != capability,
            decreases self.members@.len() - i,
        {
            if self.members[i] == capability {
                assert(self.members@.contains(capability));
                return true;
            }
            i = i + 1;
        }
        assert(!self.members@.contains(capability));
        false
    }

    /// Whether the set has no member.
    pub fn is_empty(&self) -> (empty: bool)
        ensures
            empty == (self@ == Set::<Capability>::empty()),
    {
        if self.members.len() == 0 {
            assert(self@ =~= Set::<Capability>::empty());
            true
        } else {
            assert(self@.contains(self.members@[0]));
            false
        }
    }
}


/// A loaded character: who it is, how it registers, what it may do, and the
/// models that think for it.
#[derive(Debug, Clone)]
pub struct CharacterSheet {
    pub id: String,
    pub player_name: String,
    pub registration_version: u32,
    pub class_path: Option<String>,
    pub home_scene: String,
    pub persona: String,
    pub capabilities: CapabilitySet,
    pub strategist_model: String,
    pub tactician_model: String,
    pub initial_goal: Option<Goal>,
    pub remembers: bool,
}

/// A character sheet document as written, before it is checked. Secrets and
/// backend identity are intentionally absent: they come from the session
/// configuration.
#[derive(Debug, Clone)]
pub struct CharacterSheetDocument {
    pub id: String,
    pub player_name: String,
    pub registration_version: u32,
    pub class_path: Option<String>,
    pub home_scene: String,
    pub persona: Option<String>,
    pub persona_file: Option<String>,
    pub capabilities: CapabilitySet,
    pub strategist_model: Option<String>,
    pub tactician_model: Option<String>,
    pub initial_goal: Option<Goal>,
    pub remembers: bool,
}

/// Why a character sheet could not be loaded. `path` is the document's or the
/// persona file's path; `message` is the underlying error's text.
#[derive(Debug, Clone, PartialEq, Eq)]
pub enum CharacterError {
    Read { path: String, message: String },
    Parse { path: String, message: String },
    Invalid { path: String, reason: String },
    ReadPersona { path: String, message: String },
}

/// A character error with its texts as characters.
pub enum CharacterErrorView {
    Read { path: Seq<char>, message: Seq<char> },
    Parse { path: Seq<char>, message: Seq<char> },
    Invalid { path: Seq<char>, reason: Seq<char> },
    ReadPersona { path: Seq<char>, message: Seq<char> },
}

impl View for CharacterError {
    type V = CharacterErrorView;

    open spec fn view(&self) -> CharacterErrorView {
        match self {
            CharacterError::Read { path, message } => CharacterErrorView::Read { path: path@, message: message@ },
            CharacterError::Parse { path, message } => CharacterErrorView::Parse { path: path@, message: message@ },
            CharacterError::Invalid { path, reason } => CharacterErrorView::Invalid { path: path@, reason: reason@ },
            CharacterError::ReadPersona { path, message } => CharacterErrorView::ReadPersona {
                path: path@,
                message: message@,
            },
        }
    }
}

/// The human-readable text of a character error.
pub open spec fn character_error_text(error: CharacterErrorView) -> Seq<char> {
    match error {
        CharacterErrorView::Read { path, message } => "could not read character sheet "@ + path + ": "@ + message,
        CharacterErrorView::Parse { path, message } => "character sheet "@ + path + " is not valid JSON: "@
            + message,
        CharacterErrorView::Invalid { path, reason } => "character sheet "@ + path + " is invalid: "@ + reason,
        CharacterErrorView::ReadPersona { path, message } => "could not read persona "@ + path + ": "@ + message,
    }
}

impl CharacterError {
    /// The human-readable text of the error.
    pub fn message(&self) -> (text: String)
        ensures
            text@ == character_error_text(self@),
    {
        match self {
            CharacterError::Read { path, message } => {
                let mut text = String::from_str("could not read character sheet ");
                text.append(path.as_str());
                text.append(": ");
                text.append(message.as_str());
                text
            },
            CharacterError::Parse { path, message } => {
                let mut text = String::from_str("character sheet ");
                text.append(path.as_str());
                text.append(" is not valid JSON: ");
                text.append(message.as_str());
                text
            },
            CharacterError::Invalid { path, reason } => {
                let mut text = String::from_str("character sheet ");
                text.append(path.as_str());
                text.append(" is invalid: ");
                text.append(reason.as_str());
                text
            },
            CharacterError::ReadPersona { path, message } => {
                let mut text = String::from_str("could not read persona ");
                text.append(path.as_str());
                text.append(": ");
                text.append(message.as_str());
                text
            },
        }
    }
}

/// The registration version a document that names none registers with.
pub fn default_registration_version() -> (version: u32)
    ensures
        version == 1,
{
    1
}

/// Whether a character that a document does not say about remembers.
pub fn default_remembers() -> (remembers: bool)
    ensures
        remembers,
{
    true
}

/// The first problem of `doc`, in the order the fields are checked, as the
/// reason that the sheet is invalid.
pub open spec fn document_problem(doc: CharacterSheetDocument) -> Option<Seq<char>> {
    if is_blank(doc.id@) {
        Some("id must not be empty"@)
    } else if is_blank(doc.player_name@) {
        Some("player_name must not be empty"@)
    } else if is_blank(doc.home_scene@) {
        Some("home_scene must not be empty"@)
    } else if doc.registration_version == 0 {
        Some("registration_version must be positive"@)
    } else if doc.capabilities@ == Set::<Capability>::empty() {
        Some("capabilities must not be empty"@)
    } else if doc.persona is Some && doc.persona_file is Some {
        Some("set exactly one of persona or persona_file"@)
    } else if doc.persona_file is None && (doc.persona matches Some(p) ==> is_blank(p@)) {
        Some("set a non-empty persona or a persona_file"@)
    } else {
        None
    }
}

/// A valid document whose persona is read from its persona file.
pub open spec fn persona_from_file(doc: CharacterSheetDocument) -> bool {
    document_problem(doc) is None && doc.persona_file is Some
}

/// `value` when it is present and not blank, else `fallback`.
pub open spec fn nonblank_or(value: Option<String>, fallback: Seq<char>) -> Seq<char> {
    match value {
        Some(v) => if is_blank(v@) {
            fallback
        } else {
            v@
        },
        None => fallback,
    }
}

/// The error that reports `reason` for the document at `path`.
pub open spec fn invalid_document(error: CharacterError, path: Seq<char>, reason: Seq<char>) -> bool {
    error@ == (CharacterErrorView::Invalid { path, reason })
}

/// `sheet` is the sheet made from the valid document `doc`, with the persona
/// file holding `persona_file_text` when the document names one.
pub open spec fn sheet_made_from(
    doc: CharacterSheetDocument,
    persona_file_text: Option<String>,
    player_name_override: Option<String>,
    config: ConfigCore,
    sheet: CharacterSheet,
) -> bool {
    &&& document_problem(doc) is None
    &&& sheet.id == doc.id
    &&& sheet.player_name@ == nonblank_or(player_name_override, doc.player_name@)
    &&& sheet.registration_version == doc.registration_version
    &&& sheet.class_path == doc.class_path
    &&& sheet.home_scene == doc.home_scene
    &&& (persona_from_file(doc) ==> Some(sheet.persona) == persona_file_text)
    &&& (!persona_from_file(doc) ==> Some(sheet.persona) == doc.persona)
    &&& sheet.capabilities@ == doc.capabilities@
    &&& sheet.strategist_model@ == nonblank_or(doc.strategist_model, config.strategist_model@)
    &&& sheet.tactician_model@ == nonblank_or(doc.tactician_model, config.tactician_model@)
    &&& sheet.initial_goal == doc.initial_goal
    &&& sheet.remembers == doc.remembers
}

/// A loaded sheet names its character, player and home scene, registers with
/// a positive version, grants at least one capability, and (unless read from
/// a file) carries a persona.
pub proof fn law_loaded_sheet_is_well_formed(
    doc: CharacterSheetDocument,
    persona_file_text: Option<String>,
    player_name_override: Option<String>,
    config: ConfigCore,
    sheet: CharacterSheet,
)
    requires
        sheet_made_from(doc, persona_file_text, player_name_override, config, sheet),
    ensures
        !is_blank(sheet.id@),
        !is_blank(sheet.player_name@),
        !is_blank(sheet.home_scene@),
        sheet.registration_version > 0,
        sheet.capabilities@ != Set::<Capability>::empty(),
        !persona_from_file(doc) ==> !is_blank(sheet.persona@),
{
}

fn require_nonempty(path: &str, field: &str, value: &str) -> (result: Result<(), CharacterError>)
    ensures
        match result {
            Ok(()) => !is_blank(value@),
            Err(e) => is_blank(value@) && invalid_document(e, path@, field@ + " must not be empty"@),
        },
{
    if blank(value) {
        let mut reason = String::from_str(field);
        reason.append(" must not be empty");
        return Err(invalid(path, reason));
    }
    Ok(())
}

fn invalid(path: &str, reason: String) -> (error: CharacterError)
    ensures
        invalid_document(error, path@, reason@),
{
    CharacterError::Invalid { path: String::from_str(path), reason }
}

/// `value` when it is present and not blank, else a copy of `fallback`.
pub fn nonempty_or(value: Option<String>, fallback: &str) -> (chosen: String)
    ensures
        chosen@ == nonblank_or(value, fallback@),
{
    match value {
        Some(v) => if blank(v.as_str()) {
            String::from_str(fallback)
        } else {
            v
        },
        None => String::from_str(fallback),
    }
}

impl CharacterSheetDocument {
    /// Check the document. On success, the persona file that must be read
    /// before the sheet can be made, if the document names one; else the
    /// reason the document at `document_path` is invalid.
    pub fn persona_file_to_read(&self, document_path: &str) -> (result: Result<Option<String>, CharacterError>)
        ensures
            match result {
                Ok(file) => document_problem(*self) is None && optional_text(file) == optional_text(
                    self.persona_file,
                ),
                Err(e) => document_problem(*self) matches Some(reason) && invalid_document(
                    e,
                    document_path@,
                    reason,
                ),
            },
    {
        proof {
            reveal_strlit("id");
            reveal_strlit("player_name");
            reveal_strlit("home_scene");
            reveal_strlit(" must not be empty");
            reveal_strlit("id must not be empty");
            reveal_strlit("player_name must not be empty");
            reveal_strlit("home_scene must not be empty");
            assert("id"@ + " must not be empty"@ =~= "id must not be empty"@);
            assert("player_name"@ + " must not be empty"@ =~= "player_name must not be empty"@);
            assert("home_scene"@ + " must not be empty"@ =~= "home_scene must not be empty"@);
        }
        if let Err(e) = require_nonempty(document_path, "id", self.id.as_str()) {
            return Err(e);
        }
        if let Err(e) = require_nonempty(document_path, "player_name", self.player_name.as_str()) {
            return Err(e);
        }
        if let Err(e) = require_nonempty(document_path, "home_scene", self.home_scene.as_str()) {
            return Err(e);
        }
        if self.registration_version == 0 {
            return Err(invalid(document_path, String::from_str("registration_version must be positive")));
        }
        if self.capabilities.is_empty() {
            return Err(invalid(document_path, String::from_str("capabilities must not be empty")));
        }
        match (&self.persona, &self.persona_file) {
            (Some(persona), None) => {
                if blank(persona.as_str()) {
                    Err(invalid(document_path, String::from_str("set a non-empty persona or a persona_file")))
                } else {
                    Ok(None)
                }
            },
            (None, Some(file)) => Ok(Some(file.clone())),
            (Some(_), Some(_)) => Err(
                invalid(document_path, String::from_str("set exactly one of persona or persona_file")),
            ),
            (None, None) => Err(invalid(document_path, String::from_str("set a non-empty persona or a persona_file"))),
        }
    }

    /// Make the sheet. `persona_file_text` is what the persona file holds, when
    /// the document names one; `player_name_override` replaces the document's
    /// player name when it is not blank; omitted or blank models inherit the
    /// configured ones.
    pub fn into_sheet(
        self,
        document_path: &str,
        persona_file_text: Option<String>,
        player_name_override: Option<String>,
        config: &ConfigCore,
    ) -> (result: Result<CharacterSheet, CharacterError>)
        requires
            persona_from_file(self) ==> persona_file_text is Some,
        ensures
            match result {
                Ok(sheet) => sheet_made_from(self, persona_file_text, player_name_override, *config, sheet),
                Err(e) => document_problem(self) matches Some(reason) && invalid_document(e, document_path@, reason),
            },
    {
        let checked = self.persona_file_to_read(document_path);
        match checked {
            Err(e) => Err(e),
            Ok(file) => {
                let persona = match file {
                    Some(_) => match persona_file_text {
                        Some(text) => text,
                        None => String::new(),
                    },
                    None => match self.persona {
                        Some(text) => text,
                        None => String::new(),
                    },
                };
                let player_name = nonempty_or(player_name_override, self.player_name.as_str());
                Ok(
                    CharacterSheet {
                        id: self.id,
                        player_name,
                        registration_version: self.registration_version,
                        class_path: self.class_path,
                        home_scene: self.home_scene,
                        persona,
                        capabilities: self.capabilities,
                        strategist_model: nonempty_or(self.strategist_model, config.strategist_model.as_str()),
                        tactician_model: nonempty_or(self.tactician_model, config.tactician_model.as_str()),
                        initial_goal: self.initial_goal,
                        remembers: self.remembers,
                    },
                )
            },
        }
    }
}

} // verus!
