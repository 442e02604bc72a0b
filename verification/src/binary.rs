//! The binary a resolution ends with, and what the user may configure in its
//! place.

use vstd::prelude::*;

verus! {

/// What the user configured for the language server's binary.
#[derive(Clone, Debug, PartialEq, Eq)]
pub struct BinarySettings {
    /// The path to run in place of anything this crate would find.
    pub path: Option<String>,
    /// Arguments to start the language server with.
    pub arguments: Option<Vec<String>>,
}

/// [`BinarySettings`] with its texts as sequences of characters.
pub struct BinarySettingsView {
    pub path: Option<Seq<char>>,
    pub arguments: Option<Seq<Seq<char>>>,
}

impl View for BinarySettings {
    type V = BinarySettingsView;

    open spec fn view(&self) -> BinarySettingsView {
        BinarySettingsView { path: self.path.deep_view(), arguments: self.arguments.deep_view() }
    }
}

/// The language server as it is to be started. It is handed on as it is:
/// nothing reads the arguments or the environment again.
#[derive(Clone, Debug, PartialEq, Eq)]
pub struct ZlsBinary {
    pub path: String,
    pub args: Option<Vec<String>>,
    pub environment: Option<Vec<(String, String)>>,
}

/// A [`ZlsBinary`] with its texts as sequences of characters.
pub struct ZlsBinaryView {
    pub path: Seq<char>,
    pub args: Option<Seq<Seq<char>>>,
    pub environment: Option<Seq<(Seq<char>, Seq<char>)>>,
}

impl View for ZlsBinary {
    type V = ZlsBinaryView;

    open spec fn view(&self) -> ZlsBinaryView {
        ZlsBinaryView {
            path: self.path@,
            args: self.args.deep_view(),
            environment: self.environment.deep_view(),
        }
    }
}

/// A command line with its environment.
#[derive(Clone, Debug, PartialEq, Eq)]
pub struct Command {
    pub command: String,
    pub args: Vec<String>,
    pub env: Vec<(String, String)>,
}

/// A [`Command`] with its texts as sequences of characters.
pub struct CommandView {
    pub command: Seq<char>,
    pub args: Seq<Seq<char>>,
    pub env: Seq<(Seq<char>, Seq<char>)>,
}

impl View for Command {
    type V = CommandView;

    open spec fn view(&self) -> CommandView {
        CommandView {
            command: self.command@,
            args: self.args.deep_view(),
            env: self.env.deep_view(),
        }
    }
}

/// The command that starts a binary: its path, with no arguments and an empty
/// environment where it has none.
pub open spec fn command_of(binary: ZlsBinaryView) -> CommandView {
    CommandView {
        command: binary.path,
        args: match binary.args {
            Some(args) => args,
            None => Seq::empty(),
        },
        env: match binary.environment {
            Some(env) => env,
            None => Seq::empty(),
        },
    }
}

impl ZlsBinary {
    /// The command that starts this binary.
    pub fn into_command(self) -> (r: Command)
        ensures
            r@ == command_of(self@),
    {
        let args = match self.args {
            Some(args) => args,
            None => Vec::new(),
        };
        let env = match self.environment {
            Some(env) => env,
            None => Vec::new(),
        };
        let r = Command { command: self.path, args, env };
        proof {
            assert(r@.args =~= command_of(self@).args);
            assert(r@.env =~= command_of(self@).env);
        }
        r
    }
}

/// What the user's settings decide before anything is looked for.
#[derive(Clone, Debug, PartialEq, Eq)]
pub enum Override {
    /// A path is configured: it is the binary, with the configured arguments,
    /// whether or not it exists.
    Use { path: String, arguments: Option<Vec<String>> },
    /// Arguments are configured without a path: they go with whatever binary
    /// the resolution ends with.
    Remember(Vec<String>),
    /// Nothing is configured: the search path is looked at next.
    Search,
}

/// An [`Override`] with its texts as sequences of characters.
pub enum OverrideView {
    Use { path: Seq<char>, arguments: Option<Seq<Seq<char>>> },
    Remember(Seq<Seq<char>>),
    Search,
}

impl View for Override {
    type V = OverrideView;

    open spec fn view(&self) -> OverrideView {
        match self {
            Override::Use { path, arguments } => OverrideView::Use {
                path: path@,
                arguments: arguments.deep_view(),
            },
            Override::Remember(arguments) => OverrideView::Remember(arguments.deep_view()),
            Override::Search => OverrideView::Search,
        }
    }
}

/// The settings as they were read, with their texts as sequences of
/// characters.
pub open spec fn settings_view(settings: Option<BinarySettings>) -> Option<BinarySettingsView> {
    match settings {
        Some(s) => Some(s@),
        None => None,
    }
}

/// What the settings decide: a configured path wins over everything,
/// configured arguments alone are kept for later, and without either the
/// search path is next.
pub open spec fn override_of(settings: Option<BinarySettingsView>) -> OverrideView {
    match settings {
        Some(BinarySettingsView { path: Some(path), arguments }) => OverrideView::Use {
            path,
            arguments,
        },
        Some(BinarySettingsView { path: None, arguments: Some(arguments) }) => OverrideView::Remember(
            arguments,
        ),
        _ => OverrideView::Search,
    }
}

/// What the user's settings decide, see [`override_of`].
pub fn decide_override(settings: Option<BinarySettings>) -> (r: Override)
    ensures
        r@ == override_of(settings_view(settings)),
{
    match settings {
        Some(BinarySettings { path: Some(path), arguments }) => Override::Use { path, arguments },
        Some(BinarySettings { path: None, arguments: Some(arguments) }) => Override::Remember(
            arguments,
        ),
        _ => Override::Search,
    }
}

} // verus!
