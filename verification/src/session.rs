//! What the converter's window remembers between the user's actions: the
//! input that was picked and the choices offered for it.

use crate::convert::{lemma_offered_choice_goes_ahead, prepare, spec_invocation, Invocation};
use crate::format::{resolve, spec_resolve, ExtensionEntry, OutputFormat};
use crate::path::{
    input_extension, output_file_name, output_stem, spec_input_extension,
    spec_output_file_name, spec_output_stem,
};
use vstd::prelude::*;

verus! {

/// The formats offered once `input_path` is picked, the default first.
pub open spec fn spec_offered(input_path: Option<Seq<char>>) -> Seq<OutputFormat> {
    match input_path {
        Some(path) => spec_resolve(spec_input_extension(path)),
        None => Seq::empty(),
    }
}

/// The format selected in a list of `offered` formats whose active row is
/// `active`: the first where no row is active, none where the row is not in
/// the list.
pub open spec fn spec_selected(offered: Seq<OutputFormat>, active: Option<u32>) -> Option<
    OutputFormat,
> {
    let row: int = match active {
        Some(row) => row as int,
        None => 0,
    };
    if row < offered.len() {
        Some(offered[row])
    } else {
        None
    }
}

/// The state of one window. Its view is the path of the input picked, if any.
pub struct Session {
    input_path: Option<String>,
    choices: Vec<ExtensionEntry>,
}

impl View for Session {
    type V = Option<Seq<char>>;

    closed spec fn view(&self) -> Option<Seq<char>> {
        match self.input_path {
            Some(path) => Some(path@),
            None => None,
        }
    }
}

impl Session {
    /// The choices held are those offered for the input picked.
    #[verifier::type_invariant]
    spec fn well_formed(&self) -> bool {
        &&& self.choices@.len() == spec_offered(self@).len()
        &&& forall|i: int|
            0 <= i < self.choices@.len() ==> (#[trigger] self.choices@[i])@ == spec_offered(
                self@,
            )[i].spec_entry()
    }

    /// A session in which no input is picked yet.
    pub fn new() -> (session: Session)
        ensures
            session@ is None,
    {
        Session { input_path: None, choices: Vec::new() }
    }

    /// Records that the file at `path` was picked, and works out what is
    /// offered for it.
    pub fn select_file(&mut self, path: &str)
        ensures
            final(self)@ == Some(path@),
    {
        let extension = input_extension(path);
        let choices = resolve(extension.as_str());
        *self = Session { input_path: Some(path.to_owned()), choices };
    }

    /// The path of the input picked, if any.
    pub fn input_path(&self) -> (path: Option<&str>)
        ensures
            match path {
                Some(p) => self@ == Some(p@),
                None => self@ is None,
            },
    {
        match &self.input_path {
            Some(path) => Some(path.as_str()),
            None => None,
        }
    }

    /// The choices to show, in order; the first is the default.
    pub fn choices(&self) -> (choices: &Vec<ExtensionEntry>)
        ensures
            choices@.len() == spec_offered(self@).len(),
            forall|i: int|
                0 <= i < choices@.len() ==> (#[trigger] choices@[i])@ == spec_offered(
                    self@,
                )[i].spec_entry(),
    {
        proof {
            use_type_invariant(self);
        }
        &self.choices
    }

    /// Whether converting is possible: an input is picked and something is
    /// offered for it.
    pub fn can_convert(&self) -> (possible: bool)
        ensures
            possible == (self@ is Some && spec_offered(self@).len() > 0),
    {
        proof {
            use_type_invariant(self);
        }
        self.input_path.is_some() && self.choices.len() > 0
    }

    /// The choice selected when the list's active row is `active`.
    pub fn selected(&self, active: Option<u32>) -> (choice: Option<ExtensionEntry>)
        ensures
            match spec_selected(spec_offered(self@), active) {
                Some(format) => choice is Some && choice->0@ == format.spec_entry(),
                None => choice is None,
            },
    {
        proof {
            use_type_invariant(self);
        }
        let row: usize = match active {
            Some(row) => row as usize,
            None => 0,
        };
        if row < self.choices.len() {
            Some(self.choices[row])
        } else {
            None
        }
    }

    /// The extension shown for the selection; `unknown` where there is none.
    pub open spec fn spec_selected_extension(self, active: Option<u32>) -> Seq<char> {
        match spec_selected(spec_offered(self@), active) {
            Some(format) => format.spec_extension(),
            None => "unknown"@,
        }
    }

    /// The line that tells the user which file would be written; none while
    /// no input is picked.
    pub fn preview(&self, active: Option<u32>) -> (line: Option<String>)
        ensures
            match self@ {
                Some(path) => line is Some && line->0@ == "Will output: "@
                    + spec_output_file_name(
                    spec_output_stem(path),
                    self.spec_selected_extension(active),
                ),
                None => line is None,
            },
    {
        match &self.input_path {
            None => None,
            Some(path) => {
                let extension = match self.selected(active) {
                    Some(choice) => choice.extension,
                    None => "unknown",
                };
                let name = output_file_name(output_stem(path.as_str()), extension);
                let mut line = "Will output: ".to_owned();
                line.append(name.as_str());
                Some(line)
            },
        }
    }

    /// The command for converting the input picked to the selected choice;
    /// none while no input is picked or nothing is selected. A choice that
    /// was offered is never refused.
    pub fn plan(&self, active: Option<u32>) -> (plan: Option<Invocation>)
        ensures
            match (self@, spec_selected(spec_offered(self@), active)) {
                (Some(path), Some(format)) => plan is Some && plan->0@ == spec_invocation(
                    path,
                    format,
                ),
                _ => plan is None,
            },
    {
        match &self.input_path {
            None => None,
            Some(path) => match self.selected(active) {
                None => None,
                Some(choice) => {
                    proof {
                        let format = spec_selected(spec_offered(self@), active)->0;
                        lemma_offered_choice_goes_ahead(path@, format);
                    }
                    match prepare(path.as_str(), choice.extension) {
                        Ok(command) => Some(command),
                        Err(_) => None,
                    }
                },
            },
        }
    }
}

} // verus!
