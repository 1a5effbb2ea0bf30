//! CommandLine lines for child processes.

use crate::path::{texts, ToolPath};
use vstd::prelude::*;

verus! {

/// One argument of a command line: plain text, or a place in the file
/// system.
#[derive(Clone, Debug, PartialEq, Eq)]
pub enum Argument {
    Text(String),
    Path(ToolPath),
}

/// What an `Argument` is in contracts.
pub enum ArgumentView {
    Text(Seq<char>),
    Path(Seq<Seq<char>>),
}

impl View for Argument {
    type V = ArgumentView;

    open spec fn view(&self) -> ArgumentView {
        match self {
            Argument::Text(text) => ArgumentView::Text(text@),
            Argument::Path(path) => ArgumentView::Path(path@),
        }
    }
}

/// The arguments of a sequence, each as what it is in contracts.
pub open spec fn argument_views(items: Seq<Argument>) -> Seq<ArgumentView> {
    Seq::new(items.len(), |i: int| items[i]@)
}

/// The texts of a sequence, each as a plain-text argument.
pub open spec fn text_arguments(items: Seq<Seq<char>>) -> Seq<ArgumentView> {
    Seq::new(items.len(), |i: int| ArgumentView::Text(items[i]))
}

/// A command line, and where the child finds a runtime SDK that was
/// installed for this project alone.
#[derive(Clone, Debug, PartialEq, Eq)]
pub struct CommandLine {
    pub program: ToolPath,
    pub arguments: Vec<Argument>,
    /// The directory of a project-local SDK. The child must find it first on
    /// its command search path.
    pub sdk: Option<ToolPath>,
}

/// What a `CommandLine` is in contracts.
pub struct CommandLineView {
    pub program: Seq<Seq<char>>,
    pub arguments: Seq<ArgumentView>,
    pub sdk: Option<Seq<Seq<char>>>,
}

/// The segments of a path that may be missing.
pub open spec fn optional_path(path: Option<ToolPath>) -> Option<Seq<Seq<char>>> {
    match path {
        Some(path) => Some(path@),
        None => None,
    }
}

impl View for CommandLine {
    type V = CommandLineView;

    open spec fn view(&self) -> CommandLineView {
        CommandLineView {
            program: self.program@,
            arguments: argument_views(self.arguments@),
            sdk: optional_path(self.sdk),
        }
    }
}

impl CommandLine {
    /// The command that runs `program` without arguments.
    pub fn new(program: ToolPath, sdk: Option<ToolPath>) -> (command: CommandLine)
        ensures
            command@ == (CommandLineView {
                program: program@,
                arguments: Seq::empty(),
                sdk: optional_path(sdk),
            }),
    {
        let command = CommandLine { program, arguments: Vec::new(), sdk };
        assert(command@.arguments =~= Seq::empty());
        command
    }

    /// Adds a plain-text argument.
    pub fn text(self, text: &str) -> (command: CommandLine)
        ensures
            command@ == (CommandLineView {
                arguments: self@.arguments.push(ArgumentView::Text(text@)),
                ..self@
            }),
    {
        let mut command = self;
        command.arguments.push(Argument::Text(String::from_str(text)));
        assert(command@.arguments =~= self@.arguments.push(ArgumentView::Text(text@)));
        command
    }

    /// Adds an argument that names a place in the file system.
    pub fn path(self, path: ToolPath) -> (command: CommandLine)
        ensures
            command@ == (CommandLineView {
                arguments: self@.arguments.push(ArgumentView::Path(path@)),
                ..self@
            }),
    {
        let mut command = self;
        command.arguments.push(Argument::Path(path));
        assert(command@.arguments =~= self@.arguments.push(ArgumentView::Path(path@)));
        command
    }

    /// Adds plain-text arguments, in their order.
    pub fn texts(self, items: &Vec<String>) -> (command: CommandLine)
        ensures
            command@ == (CommandLineView {
                arguments: self@.arguments + text_arguments(texts(items@)),
                ..self@
            }),
    {
        let mut command = self;
        let mut i: usize = 0;
        while i < items.len()
            invariant
                i <= items.len(),
                command.program == self.program,
                command.sdk == self.sdk,
                command@.arguments == self@.arguments + text_arguments(texts(items@)).subrange(
                    0,
                    i as int,
                ),
            decreases items.len() - i,
        {
            let ghost before = command@.arguments;
            command.arguments.push(Argument::Text(items[i].clone()));
            assert(command@.arguments =~= before.push(ArgumentView::Text(items[i as int]@)));
            assert(command@.arguments =~= self@.arguments + text_arguments(
                texts(items@),
            ).subrange(0, i + 1));
            i = i + 1;
        }
        assert(text_arguments(texts(items@)).subrange(0, i as int) =~= text_arguments(
            texts(items@),
        ));
        command
    }
}

} // verus!
