//! One parsed invocation of the adapter, and what the adapter has observed
//! of the machine it runs on.

use crate::options::{
    AddRemoveOptions, AddRemoveOptionsView, CleanOptions, CleanOptionsView, DescribeOptions,
    DescribeOptionsView, DubOptions, DubOptionsView, FetchOptions, FetchOptionsView, Format,
    InitOptions, InitOptionsView, LintOptions, LintOptionsView,
};
use vstd::prelude::*;

verus! {

/// The operations of the underlying tool that the adapter models.
#[derive(Clone, Debug)]
pub enum DubCommands {
    /// Build and run the package.
    Run(DubOptions),
    /// Build the package.
    Build(DubOptions),
    /// Convert between the two manifest formats.
    Convert { format: Format },
    /// Hand the tokens to the tool as they are.
    Raw { args: Vec<String> },
    /// Print the build description of the package and its dependencies.
    Describe(DescribeOptions),
    /// Add packages as dependencies.
    Add(AddRemoveOptions),
    /// Remove packages from the dependencies.
    Remove(AddRemoveOptions),
    /// Fetch a package to a shared location.
    Fetch(FetchOptions),
    /// Initialize an empty package.
    Init(InitOptions),
    /// Remove cached build files.
    Clean(CleanOptions),
    /// Run the linter.
    Lint(LintOptions),
}

/// The mathematical model of [`DubCommands`].
pub enum DubCommandsView {
    Run(DubOptionsView),
    Build(DubOptionsView),
    Convert { format: Format },
    Raw { args: Seq<Seq<char>> },
    Describe(DescribeOptionsView),
    Add(AddRemoveOptionsView),
    Remove(AddRemoveOptionsView),
    Fetch(FetchOptionsView),
    Init(InitOptionsView),
    Clean(CleanOptionsView),
    Lint(LintOptionsView),
}

impl DubCommandsView {
    /// The subcommand's name in the tool's grammar. A raw request has none
    /// of its own: its first token is whatever the caller put there.
    pub open spec fn subcommand(self) -> Option<Seq<char>> {
        match self {
            DubCommandsView::Run(_) => Some("run"@),
            DubCommandsView::Build(_) => Some("build"@),
            DubCommandsView::Convert { .. } => Some("convert"@),
            DubCommandsView::Raw { .. } => None,
            DubCommandsView::Describe(_) => Some("describe"@),
            DubCommandsView::Add(_) => Some("add"@),
            DubCommandsView::Remove(_) => Some("remove"@),
            DubCommandsView::Fetch(_) => Some("fetch"@),
            DubCommandsView::Init(_) => Some("init"@),
            DubCommandsView::Clean(_) => Some("clean"@),
            DubCommandsView::Lint(_) => Some("lint"@),
        }
    }

    /// The shared build options that the command carries, where it
    /// carries any.
    pub open spec fn options(self) -> Option<DubOptionsView> {
        match self {
            DubCommandsView::Run(opts) => Some(opts),
            DubCommandsView::Build(opts) => Some(opts),
            DubCommandsView::Convert { .. } => None,
            DubCommandsView::Raw { .. } => None,
            DubCommandsView::Describe(opts) => Some(opts.options),
            DubCommandsView::Add(opts) => Some(opts.options),
            DubCommandsView::Remove(opts) => Some(opts.options),
            DubCommandsView::Fetch(opts) => Some(opts.options),
            DubCommandsView::Init(opts) => Some(opts.options),
            DubCommandsView::Clean(opts) => Some(opts.options),
            DubCommandsView::Lint(opts) => Some(opts.options),
        }
    }

    /// The file that must exist before the command may be handed to the
    /// tool, where there is one.
    pub open spec fn required_source(self) -> Option<Seq<char>> {
        match self {
            DubCommandsView::Convert { format } => Some(format.spec_source_file()),
            _ => None,
        }
    }
}

impl View for DubCommands {
    type V = DubCommandsView;

    open spec fn view(&self) -> DubCommandsView {
        match self {
            DubCommands::Run(opts) => DubCommandsView::Run(opts@),
            DubCommands::Build(opts) => DubCommandsView::Build(opts@),
            DubCommands::Convert { format } => DubCommandsView::Convert { format: *format },
            DubCommands::Raw { args } => DubCommandsView::Raw { args: args.deep_view() },
            DubCommands::Describe(opts) => DubCommandsView::Describe(opts@),
            DubCommands::Add(opts) => DubCommandsView::Add(opts@),
            DubCommands::Remove(opts) => DubCommandsView::Remove(opts@),
            DubCommands::Fetch(opts) => DubCommandsView::Fetch(opts@),
            DubCommands::Init(opts) => DubCommandsView::Init(opts@),
            DubCommands::Clean(opts) => DubCommandsView::Clean(opts@),
            DubCommands::Lint(opts) => DubCommandsView::Lint(opts@),
        }
    }
}

/// The two ways the adapter is called: as a plugin of a host build tool,
/// which passes its own subcommand name first, or directly.
#[derive(Clone, Debug)]
pub enum Commands {
    Dub { cmd: Option<DubCommands> },
    Direct(DubCommands),
}

/// The mathematical model of [`Commands`].
pub enum CommandsView {
    Dub { cmd: Option<DubCommandsView> },
    Direct(DubCommandsView),
}

impl View for Commands {
    type V = CommandsView;

    open spec fn view(&self) -> CommandsView {
        match self {
            Commands::Dub { cmd } => CommandsView::Dub {
                cmd: match cmd {
                    Some(c) => Some(c@),
                    None => None,
                },
            },
            Commands::Direct(c) => CommandsView::Direct(c@),
        }
    }
}

/// One parsed command line.
#[derive(Clone, Debug)]
pub struct Cli {
    pub command: Option<Commands>,
}

/// The mathematical model of [`Cli`].
pub struct CliView {
    pub command: Option<CommandsView>,
}

impl CliView {
    /// The operation asked for: the one named, or `run` with default
    /// options where none is.
    pub open spec fn selected(self) -> DubCommandsView {
        match self.command {
            Some(CommandsView::Dub { cmd: Some(c) }) => c,
            Some(CommandsView::Direct(c)) => c,
            _ => DubCommandsView::Run(DubOptionsView::empty()),
        }
    }
}

impl View for Cli {
    type V = CliView;

    open spec fn view(&self) -> CliView {
        CliView {
            command: match self.command {
                Some(c) => Some(c@),
                None => None,
            },
        }
    }
}

impl Cli {
    /// The operation asked for.
    pub fn into_command(self) -> (cmd: DubCommands)
        ensures
            cmd@ == self@.selected(),
    {
        match self.command {
            Some(Commands::Dub { cmd }) => match cmd {
                Some(c) => c,
                None => DubCommands::Run(DubOptions::default()),
            },
            Some(Commands::Direct(c)) => c,
            None => DubCommands::Run(DubOptions::default()),
        }
    }

    /// The file whose presence the caller has to establish before the
    /// request can be planned, where there is one.
    pub fn required_source(&self) -> (file: Option<&'static str>)
        ensures
            file.deep_view() == self@.selected().required_source(),
    {
        match &self.command {
            Some(Commands::Dub { cmd: Some(DubCommands::Convert { format }) }) => Some(
                format.source_file(),
            ),
            Some(Commands::Direct(DubCommands::Convert { format })) => Some(format.source_file()),
            _ => None,
        }
    }
}

/// What the adapter has observed of its surroundings before it plans an
/// invocation.
#[derive(Clone, Debug)]
pub struct Host {
    /// The value of the `DC` environment variable, where it is set.
    pub dc: Option<String>,
    /// Whether the file named by [`Cli::required_source`] exists in the
    /// working directory.
    pub source_exists: bool,
}

/// The mathematical model of [`Host`].
pub struct HostView {
    pub dc: Option<Seq<char>>,
    pub source_exists: bool,
}

impl View for Host {
    type V = HostView;

    open spec fn view(&self) -> HostView {
        HostView { dc: self.dc.deep_view(), source_exists: self.source_exists }
    }
}

} // verus!
