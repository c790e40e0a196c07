//! What a run is configured with.
use crate::status::KillBehavior;
use vstd::prelude::*;

verus! {

/// One command to run.
#[derive(Debug)]
pub struct CommandSpec {
    /// The executable.
    pub program: String,
    /// Its arguments.
    pub args: Vec<String>,
    /// The variables of the environment that the command is started with, on top
    /// of the environment it inherits. A later entry overrides an earlier one of
    /// the same name.
    pub envs: Vec<(String, String)>,
    /// The label under which its output is shown.
    pub label: String,
}

/// The configuration of a run.
#[derive(Debug)]
pub struct RunConfig {
    /// The commands, in the order in which they are started and reported.
    pub commands: Vec<CommandSpec>,
    /// The width that the labels of the run are held to.
    pub max_label_length: usize,
    /// Variables of the environment that every command is started with. The
    /// variables of a command itself override them.
    pub envs: Option<Vec<(String, String)>>,
    /// When the exit of one command terminates the others.
    pub kill: KillBehavior,
}

/// The label of a command, with the width that the labels of its run are held to.
#[derive(Debug)]
pub struct Label {
    label: String,
    max_length: usize,
}

impl Label {
    /// The text of the label.
    pub closed spec fn text(&self) -> Seq<char> {
        self.label@
    }

    /// The width that the label is held to.
    pub closed spec fn width(&self) -> usize {
        self.max_length
    }

    /// The label with the text `label` in a run whose labels are held to
    /// `max_length`.
    pub fn from_label(label: String, max_length: usize) -> (made: Label)
        ensures
            made.text() == label@,
            made.width() == max_length,
    {
        Label { label, max_length }
    }

    /// The text of the label.
    pub fn label(&self) -> (text: &str)
        ensures
            text@ == self.text(),
    {
        self.label.as_str()
    }

    /// The width that the label is held to.
    pub fn max_length(&self) -> (width: usize)
        ensures
            width == self.width(),
    {
        self.max_length
    }
}

impl Clone for Label {
    fn clone(&self) -> (copy: Self)
        ensures
            copy.text() == self.text(),
            copy.width() == self.width(),
    {
        Label { label: self.label.clone(), max_length: self.max_length }
    }
}

/// What a command is started with, before the plugin has seen its output.
#[derive(Debug)]
pub struct LabeledCommandData {
    pub label: Label,
}

impl Clone for LabeledCommandData {
    fn clone(&self) -> (copy: Self)
        ensures
            copy.label.text() == self.label.text(),
            copy.label.width() == self.label.width(),
    {
        LabeledCommandData { label: self.label.clone() }
    }
}

/// The variables that a command is started with: those of the run, then its own.
pub open spec fn merged_envs(
    shared: Option<Vec<(String, String)>>,
    own: Seq<(String, String)>,
) -> Seq<(String, String)> {
    match shared {
        None => own,
        Some(shared) => shared@ + own,
    }
}

/// Puts the variables of the run before those of the command, so that the
/// command's own override them.
pub fn merge_envs(shared: &Option<Vec<(String, String)>>, own: Vec<(String, String)>) -> (merged:
    Vec<(String, String)>)
    ensures
        merged@ == merged_envs(*shared, own@),
{
    match shared {
        None => own,
        Some(shared) => {
            let mut merged: Vec<(String, String)> = Vec::new();
            let mut i: usize = 0;
            while i < shared.len()
                invariant
                    i <= shared.len(),
                    merged@ == shared@.take(i as int),
                decreases shared.len() - i,
            {
                let entry = &shared[i];
                merged.push((entry.0.clone(), entry.1.clone()));
                assert(merged@ =~= shared@.take(i + 1));
                i += 1;
            }
            let ghost rest = own@;
            let mut own = own;
            merged.append(&mut own);
            assert(merged@ =~= shared@ + rest) by {
                assert(shared@.take(shared.len() as int) =~= shared@);
            }
            merged
        },
    }
}

} // verus!
