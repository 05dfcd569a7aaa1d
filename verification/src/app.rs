//! The editor's state and the operations that change it.

use crate::json::{encode_object, json_object, parse_object};
use crate::pairs::{map_of, Pairs};
use vstd::prelude::*;

verus! {

/// The top-level view that is on display. The caller assigns it; no
/// operation of the state changes it.
#[derive(Clone, Copy, Debug, PartialEq, Eq, Structural)]
pub enum CurrentScreen {
    Main,
    Editing,
    Exiting,
    Loading,
}

/// The buffer that receives input while a pair is being composed.
#[derive(Clone, Copy, Debug, PartialEq, Eq, Structural)]
pub enum CurrentlyEditing {
    Key,
    Value,
}

/// How far a load has come.
#[derive(Clone, Copy, Debug, PartialEq, Eq, Structural)]
pub enum CurrentlyLoading {
    Load,
    Done,
}

/// Why a load did not happen.
#[derive(Debug)]
pub enum LoadError {
    /// The file could not be opened or read; the text says why.
    Io(String),
    /// The content is not a JSON object whose values are all strings.
    Parse(serde_json::Error),
}

/// The encoder gave up on the pairs.
#[derive(Debug)]
pub struct SerializeError {
    pub source: serde_json::Error,
}

/// The field that has the focus after the focus moves on: a new pair starts
/// at its key, and from then on the focus alternates between key and value.
pub open spec fn next_editing(editing: Option<CurrentlyEditing>) -> Option<CurrentlyEditing> {
    match editing {
        None => Some(CurrentlyEditing::Key),
        Some(CurrentlyEditing::Key) => Some(CurrentlyEditing::Value),
        Some(CurrentlyEditing::Value) => Some(CurrentlyEditing::Key),
    }
}

/// The load phase after it is advanced: an unset phase becomes `Done`, and a
/// set phase stays what it is.
pub open spec fn next_loading(loading: Option<CurrentlyLoading>) -> Option<CurrentlyLoading> {
    match loading {
        None => Some(CurrentlyLoading::Done),
        Some(phase) => Some(phase),
    }
}

/// The state as a mathematical value: texts as sequences of characters, the
/// pairs as a map.
pub struct AppView {
    pub key_input: Seq<char>,
    pub value_input: Seq<char>,
    pub pairs: Map<Seq<char>, Seq<char>>,
    pub current_screen: CurrentScreen,
    pub currently_editing: Option<CurrentlyEditing>,
    pub currently_loading: Option<CurrentlyLoading>,
    pub print_json: Seq<char>,
}

impl AppView {
    /// The state at start: nothing typed, nothing committed, the main screen.
    pub open spec fn initial() -> AppView {
        AppView {
            key_input: Seq::empty(),
            value_input: Seq::empty(),
            pairs: Map::empty(),
            current_screen: CurrentScreen::Main,
            currently_editing: None,
            currently_loading: None,
            print_json: Seq::empty(),
        }
    }

    /// The state after the two buffers are committed as a pair: the pair is
    /// in the map, the buffers are empty and no field has the focus.
    pub open spec fn saved(self) -> AppView {
        AppView {
            key_input: Seq::empty(),
            value_input: Seq::empty(),
            pairs: self.pairs.insert(self.key_input, self.value_input),
            currently_editing: None,
            ..self
        }
    }

    /// The state after the focus moves on.
    pub open spec fn toggled_editing(self) -> AppView {
        AppView { currently_editing: next_editing(self.currently_editing), ..self }
    }

    /// The state after the load phase is advanced.
    pub open spec fn toggled_loading(self) -> AppView {
        AppView { currently_loading: next_loading(self.currently_loading), ..self }
    }

    /// The state after `loaded` is merged into the pairs: a loaded key takes
    /// the loaded value, every other key keeps its own.
    pub open spec fn merged(self, loaded: Map<Seq<char>, Seq<char>>) -> AppView {
        AppView { pairs: self.pairs.union_prefer_right(loaded), ..self }
    }

    /// The state after `content` is loaded: merged with the object that the
    /// content spells, or unchanged where it spells none.
    pub open spec fn loaded(self, content: Seq<char>) -> AppView {
        match json_object(content) {
            Some(object) => self.merged(object),
            None => self,
        }
    }

    /// The state after `text` is recorded as the latest output.
    pub open spec fn printed(self, text: Seq<char>) -> AppView {
        AppView { print_json: text, ..self }
    }
}

/// The editor's state.
#[derive(Debug)]
pub struct App {
    /// The key that is being typed.
    pub key_input: String,
    /// The value that is being typed.
    pub value_input: String,
    /// The committed pairs.
    pub pairs: Pairs,
    /// The screen on display.
    pub current_screen: CurrentScreen,
    /// The buffer that has the focus; `None` while no pair is being composed.
    pub currently_editing: Option<CurrentlyEditing>,
    /// The progress of a load; `None` before any.
    pub currently_loading: Option<CurrentlyLoading>,
    /// The text that the pairs were last written out as.
    pub print_json: String,
}

impl View for App {
    type V = AppView;

    open spec fn view(&self) -> AppView {
        AppView {
            key_input: self.key_input@,
            value_input: self.value_input@,
            pairs: self.pairs@,
            current_screen: self.current_screen,
            currently_editing: self.currently_editing,
            currently_loading: self.currently_loading,
            print_json: self.print_json@,
        }
    }
}

impl App {
    /// A fresh state.
    pub fn new() -> (app: App)
        ensures
            app@ == AppView::initial(),
    {
        App {
            key_input: String::new(),
            value_input: String::new(),
            pairs: Pairs::new(),
            current_screen: CurrentScreen::Main,
            currently_editing: None,
            currently_loading: None,
            print_json: String::new(),
        }
    }

    /// Commits the two buffers as a pair. An empty key is a key like any
    /// other.
    pub fn save_key_value(&mut self)
        ensures
            final(self)@ == old(self)@.saved(),
            final(self).currently_editing is None,
            final(self).key_input@ == Seq::<char>::empty(),
            final(self).value_input@ == Seq::<char>::empty(),
    {
        self.pairs.insert(self.key_input.clone(), self.value_input.clone());
        self.key_input = String::new();
        self.value_input = String::new();
        self.currently_editing = None;
    }

    /// Moves the focus on: to the key where no pair is being composed, else
    /// to the other buffer.
    pub fn toggle_editing(&mut self)
        ensures
            final(self)@ == old(self)@.toggled_editing(),
    {
        self.currently_editing = match self.currently_editing {
            None => Some(CurrentlyEditing::Key),
            Some(CurrentlyEditing::Key) => Some(CurrentlyEditing::Value),
            Some(CurrentlyEditing::Value) => Some(CurrentlyEditing::Key),
        };
    }

    /// Advances the load phase: an unset phase becomes `Done`, a set phase
    /// stays.
    pub fn toggle_loading(&mut self)
        ensures
            final(self)@ == old(self)@.toggled_loading(),
    {
        self.currently_loading = match self.currently_loading {
            None => Some(CurrentlyLoading::Done),
            Some(CurrentlyLoading::Load) => Some(CurrentlyLoading::Load),
            Some(CurrentlyLoading::Done) => Some(CurrentlyLoading::Done),
        };
    }

    /// Finishes a load from the outcome of parsing: merges the entries into
    /// the pairs, or passes the parser's error on and changes nothing.
    pub fn merge_parsed(
        &mut self,
        parsed: Result<Vec<(String, String)>, serde_json::Error>,
    ) -> (result: Result<(), LoadError>)
        ensures
            match parsed {
                Ok(entries) => {
                    &&& result is Ok
                    &&& final(self)@ == old(self)@.merged(map_of(entries@))
                },
                Err(error) => {
                    &&& result == Err::<(), LoadError>(LoadError::Parse(error))
                    &&& final(self)@ == old(self)@
                },
            },
    {
        match parsed {
            Ok(entries) => {
                self.pairs.extend(entries);
                Ok(())
            },
            Err(error) => Err(LoadError::Parse(error)),
        }
    }

    /// Loads the pairs that `json_content` spells as a JSON object of
    /// strings and merges them into the state. Content that is not such an
    /// object is refused as a whole, and the state stays as it was.
    pub fn load_from_json(&mut self, json_content: &str) -> (result: Result<(), LoadError>)
        ensures
            final(self)@ == old(self)@.loaded(json_content@),
            result is Ok <==> json_object(json_content@) is Some,
            result is Err ==> result->Err_0 is Parse,
            result is Err ==> final(self)@ == old(self)@,
    {
        let parsed = parse_object(json_content);
        self.merge_parsed(parsed)
    }

    /// Loads from what reading the file gave: its content, or the reason why
    /// it could not be read. A failed read is reported as `Io` and changes
    /// nothing.
    pub fn load_from_read(&mut self, read: Result<String, String>) -> (result: Result<(), LoadError>)
        ensures
            match read {
                Ok(content) => {
                    &&& final(self)@ == old(self)@.loaded(content@)
                    &&& (result is Ok <==> json_object(content@) is Some)
                    &&& (result is Err ==> result->Err_0 is Parse)
                    &&& (result is Err ==> final(self)@ == old(self)@)
                },
                Err(reason) => {
                    &&& result == Err::<(), LoadError>(LoadError::Io(reason))
                    &&& final(self)@ == old(self)@
                },
            },
    {
        match read {
            Ok(content) => self.load_from_json(content.as_str()),
            Err(reason) => Err(LoadError::Io(reason)),
        }
    }

    /// Finishes writing the pairs out from the outcome of encoding: records
    /// the text as the latest output and returns it, or passes the encoder's
    /// error on and changes nothing.
    pub fn record_output(
        &mut self,
        encoded: Result<String, serde_json::Error>,
    ) -> (result: Result<String, SerializeError>)
        ensures
            match encoded {
                Ok(text) => {
                    &&& result == Ok::<String, SerializeError>(text)
                    &&& final(self)@ == old(self)@.printed(text@)
                },
                Err(error) => {
                    &&& result == Err::<String, SerializeError>((SerializeError { source: error }))
                    &&& final(self)@ == old(self)@
                },
            },
    {
        match encoded {
            Ok(text) => {
                self.print_json = text.clone();
                Ok(text)
            },
            Err(error) => Err(SerializeError { source: error }),
        }
    }

    /// Writes the pairs out as a JSON object. This succeeds for all pairs:
    /// the text that comes back reads as the same pairs and is recorded as
    /// the latest output. The order of its members is left open. The pairs
    /// themselves never change.
    pub fn print_json(&mut self) -> (result: Result<String, SerializeError>)
        ensures
            result is Ok,
            json_object(result->Ok_0@) == Some(old(self)@.pairs),
            final(self)@ == old(self)@.printed(result->Ok_0@),
    {
        let encoded = encode_object(self.pairs.entries());
        self.record_output(encoded)
    }
}

} // verus!
