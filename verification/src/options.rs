//! The typed option records that the subcommands carry, each with its
//! mathematical model.

use vstd::prelude::*;

verus! {

/// The manifest format that `convert` produces.
#[derive(Clone, Copy, Debug, PartialEq, Eq, Structural)]
pub enum Format {
    Json,
    Sdl,
}

impl Format {
    /// The manifest that a conversion to this format reads: the companion
    /// of the one it writes.
    pub open spec fn spec_source_file(self) -> Seq<char> {
        match self {
            Format::Json => "dub.sdl"@,
            Format::Sdl => "dub.json"@,
        }
    }

    /// The format's name in the tool's grammar.
    pub open spec fn spec_name(self) -> Seq<char> {
        match self {
            Format::Json => "json"@,
            Format::Sdl => "sdl"@,
        }
    }

    /// The file that must exist in the working directory before a
    /// conversion to this format.
    pub fn source_file(self) -> (file: &'static str)
        ensures
            file@ == self.spec_source_file(),
    {
        match self {
            Format::Json => "dub.sdl",
            Format::Sdl => "dub.json",
        }
    }

    /// The value of the `--format=` flag for this format.
    pub fn name(self) -> (name: &'static str)
        ensures
            name@ == self.spec_name(),
    {
        match self {
            Format::Json => "json",
            Format::Sdl => "sdl",
        }
    }
}

/// The package template that `init` starts from.
#[derive(Clone, Copy, Debug, PartialEq, Eq, Structural)]
pub enum ProjectType {
    Minimal,
    VibeD,
    Deimos,
    Custom,
}

impl ProjectType {
    /// The template's name in the tool's grammar.
    pub open spec fn spec_name(self) -> Seq<char> {
        match self {
            ProjectType::Minimal => "minimal"@,
            ProjectType::VibeD => "vibe.d"@,
            ProjectType::Deimos => "deimos"@,
            ProjectType::Custom => "custom"@,
        }
    }

    /// The value of the `--type=` flag for this template.
    pub fn name(self) -> (name: &'static str)
        ensures
            name@ == self.spec_name(),
    {
        match self {
            ProjectType::Minimal => "minimal",
            ProjectType::VibeD => "vibe.d",
            ProjectType::Deimos => "deimos",
            ProjectType::Custom => "custom",
        }
    }
}

/// The build options shared by every subcommand that drives a build.
#[derive(Clone, Debug)]
pub struct DubOptions {
    pub compiler: Option<String>,
    pub build: Option<String>,
    pub config: Option<String>,
    pub arch: Option<String>,
    pub rdmd: bool,
    pub temp_build: bool,
    pub force: bool,
    pub nodeps: bool,
    pub deep: bool,
    pub d_versions: Vec<String>,
    pub debug: Vec<String>,
    pub override_config: Vec<String>,
    pub yes: bool,
    pub non_interactive: bool,
}

/// The mathematical model of [`DubOptions`].
pub struct DubOptionsView {
    pub compiler: Option<Seq<char>>,
    pub build: Option<Seq<char>>,
    pub config: Option<Seq<char>>,
    pub arch: Option<Seq<char>>,
    pub rdmd: bool,
    pub temp_build: bool,
    pub force: bool,
    pub nodeps: bool,
    pub deep: bool,
    pub d_versions: Seq<Seq<char>>,
    pub debug: Seq<Seq<char>>,
    pub override_config: Seq<Seq<char>>,
    pub yes: bool,
    pub non_interactive: bool,
}

impl DubOptionsView {
    /// No scalar given, no switch set, every list empty.
    pub open spec fn empty() -> DubOptionsView {
        DubOptionsView {
            compiler: None,
            build: None,
            config: None,
            arch: None,
            rdmd: false,
            temp_build: false,
            force: false,
            nodeps: false,
            deep: false,
            d_versions: Seq::empty(),
            debug: Seq::empty(),
            override_config: Seq::empty(),
            yes: false,
            non_interactive: false,
        }
    }
}

impl View for DubOptions {
    type V = DubOptionsView;

    open spec fn view(&self) -> DubOptionsView {
        DubOptionsView {
            compiler: self.compiler.deep_view(),
            build: self.build.deep_view(),
            config: self.config.deep_view(),
            arch: self.arch.deep_view(),
            rdmd: self.rdmd,
            temp_build: self.temp_build,
            force: self.force,
            nodeps: self.nodeps,
            deep: self.deep,
            d_versions: self.d_versions.deep_view(),
            debug: self.debug.deep_view(),
            override_config: self.override_config.deep_view(),
            yes: self.yes,
            non_interactive: self.non_interactive,
        }
    }
}

impl Default for DubOptions {
    fn default() -> (opts: DubOptions)
        ensures
            opts@ == DubOptionsView::empty(),
    {
        let opts = DubOptions {
            compiler: None,
            build: None,
            config: None,
            arch: None,
            rdmd: false,
            temp_build: false,
            force: false,
            nodeps: false,
            deep: false,
            d_versions: Vec::new(),
            debug: Vec::new(),
            override_config: Vec::new(),
            yes: false,
            non_interactive: false,
        };
        assert(opts@.d_versions =~= Seq::empty());
        assert(opts@.debug =~= Seq::empty());
        assert(opts@.override_config =~= Seq::empty());
        opts
    }
}

/// The options of `describe`.
#[derive(Clone, Debug)]
pub struct DescribeOptions {
    pub data: Option<Vec<String>>,
    pub data_list: bool,
    pub options: DubOptions,
}

/// The mathematical model of [`DescribeOptions`].
pub struct DescribeOptionsView {
    pub data: Option<Seq<Seq<char>>>,
    pub data_list: bool,
    pub options: DubOptionsView,
}

impl View for DescribeOptions {
    type V = DescribeOptionsView;

    open spec fn view(&self) -> DescribeOptionsView {
        DescribeOptionsView {
            data: self.data.deep_view(),
            data_list: self.data_list,
            options: self.options@,
        }
    }
}

/// The options of `add` and of `remove`.
#[derive(Clone, Debug)]
pub struct AddRemoveOptions {
    pub packages: Vec<String>,
    pub options: DubOptions,
}

/// The mathematical model of [`AddRemoveOptions`].
pub struct AddRemoveOptionsView {
    pub packages: Seq<Seq<char>>,
    pub options: DubOptionsView,
}

impl View for AddRemoveOptions {
    type V = AddRemoveOptionsView;

    open spec fn view(&self) -> AddRemoveOptionsView {
        AddRemoveOptionsView { packages: self.packages.deep_view(), options: self.options@ }
    }
}

/// The options of `fetch`.
#[derive(Clone, Debug)]
pub struct FetchOptions {
    pub package: String,
    pub cache: Option<String>,
    pub options: DubOptions,
}

/// The mathematical model of [`FetchOptions`].
pub struct FetchOptionsView {
    pub package: Seq<char>,
    pub cache: Option<Seq<char>>,
    pub options: DubOptionsView,
}

impl View for FetchOptions {
    type V = FetchOptionsView;

    open spec fn view(&self) -> FetchOptionsView {
        FetchOptionsView {
            package: self.package@,
            cache: self.cache.deep_view(),
            options: self.options@,
        }
    }
}

/// The options of `init`.
#[derive(Clone, Debug)]
pub struct InitOptions {
    pub directory: Option<String>,
    pub dependencies: Vec<String>,
    pub project_type: ProjectType,
    pub non_interactive: bool,
    pub options: DubOptions,
}

/// The mathematical model of [`InitOptions`].
pub struct InitOptionsView {
    pub directory: Option<Seq<char>>,
    pub dependencies: Seq<Seq<char>>,
    pub project_type: ProjectType,
    pub non_interactive: bool,
    pub options: DubOptionsView,
}

impl View for InitOptions {
    type V = InitOptionsView;

    open spec fn view(&self) -> InitOptionsView {
        InitOptionsView {
            directory: self.directory.deep_view(),
            dependencies: self.dependencies.deep_view(),
            project_type: self.project_type,
            non_interactive: self.non_interactive,
            options: self.options@,
        }
    }
}

/// The options of `clean`.
#[derive(Clone, Debug)]
pub struct CleanOptions {
    pub package: Option<String>,
    pub all_packages: bool,
    pub options: DubOptions,
}

/// The mathematical model of [`CleanOptions`].
pub struct CleanOptionsView {
    pub package: Option<Seq<char>>,
    pub all_packages: bool,
    pub options: DubOptionsView,
}

impl View for CleanOptions {
    type V = CleanOptionsView;

    open spec fn view(&self) -> CleanOptionsView {
        CleanOptionsView {
            package: self.package.deep_view(),
            all_packages: self.all_packages,
            options: self.options@,
        }
    }
}

/// The options of `lint`.
#[derive(Clone, Debug)]
pub struct LintOptions {
    pub package: Option<String>,
    pub syntax_check: bool,
    pub style_check: bool,
    pub error_format: Option<String>,
    pub report: bool,
    pub report_format: Option<String>,
    pub report_file: Option<String>,
    pub import_paths: Option<Vec<String>>,
    pub dscanner_config: Option<String>,
    pub options: DubOptions,
}

/// The mathematical model of [`LintOptions`].
pub struct LintOptionsView {
    pub package: Option<Seq<char>>,
    pub syntax_check: bool,
    pub style_check: bool,
    pub error_format: Option<Seq<char>>,
    pub report: bool,
    pub report_format: Option<Seq<char>>,
    pub report_file: Option<Seq<char>>,
    pub import_paths: Option<Seq<Seq<char>>>,
    pub dscanner_config: Option<Seq<char>>,
    pub options: DubOptionsView,
}

impl View for LintOptions {
    type V = LintOptionsView;

    open spec fn view(&self) -> LintOptionsView {
        LintOptionsView {
            package: self.package.deep_view(),
            syntax_check: self.syntax_check,
            style_check: self.style_check,
            error_format: self.error_format.deep_view(),
            report: self.report,
            report_format: self.report_format.deep_view(),
            report_file: self.report_file.deep_view(),
            import_paths: self.import_paths.deep_view(),
            dscanner_config: self.dscanner_config.deep_view(),
            options: self.options@,
        }
    }
}

} // verus!
