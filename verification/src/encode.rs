//! The argument encoder: from a typed request to the tokens of the
//! underlying tool's grammar.

use crate::invocation::{
    flag, lemma_extended_twice, optional_flag, optional_repeated_flag, optional_token,
    repeated_flag, switch, ToolInvocation, ToolInvocationView,
};
use crate::error::DubError;
use crate::options::{
    AddRemoveOptions, AddRemoveOptionsView, CleanOptions, CleanOptionsView, DescribeOptions,
    DescribeOptionsView, DubOptions, DubOptionsView, FetchOptions, FetchOptionsView, Format,
    InitOptions, InitOptionsView, LintOptions, LintOptionsView,
};
use crate::request::{Cli, DubCommands, DubCommandsView, Host, HostView};
use crate::resolve::DubExecutable;
use vstd::prelude::*;

verus! {

/// The compiler that an invocation names: the explicit option where there
/// is one, else the fallback from the environment.
pub open spec fn effective_compiler(opts: DubOptionsView, dc: Option<Seq<char>>) -> Option<
    Seq<char>,
> {
    match opts.compiler {
        Some(c) => Some(c),
        None => dc,
    }
}

/// The valued scalar flags, in their fixed order.
pub open spec fn scalar_flags(opts: DubOptionsView, dc: Option<Seq<char>>) -> Seq<Seq<char>> {
    optional_flag("--compiler="@, effective_compiler(opts, dc)) + optional_flag(
        "--build="@,
        opts.build,
    ) + optional_flag("--config="@, opts.config) + optional_flag("--arch="@, opts.arch)
}

/// The boolean switches, in their fixed order.
pub open spec fn switch_flags(opts: DubOptionsView) -> Seq<Seq<char>> {
    switch("--rdmd"@, opts.rdmd) + switch("--temp-build"@, opts.temp_build) + switch(
        "--force"@,
        opts.force,
    ) + switch("--deep"@, opts.deep) + switch("--nodeps"@, opts.nodeps) + switch(
        "--yes"@,
        opts.yes,
    ) + switch("--non-interactive"@, opts.non_interactive)
}

/// The repeatable flags, list after list, each in the order of its list.
pub open spec fn list_flags(opts: DubOptionsView) -> Seq<Seq<char>> {
    repeated_flag("--d-version="@, opts.d_versions) + repeated_flag("--debug="@, opts.debug)
        + repeated_flag("--override-config="@, opts.override_config)
}

/// The canonical encoding of the shared build options: scalars, then
/// switches, then lists.
pub open spec fn dub_args(opts: DubOptionsView, dc: Option<Seq<char>>) -> Seq<Seq<char>> {
    scalar_flags(opts, dc) + switch_flags(opts) + list_flags(opts)
}

/// Appends the encoding of the shared build options to `cmd`. `dc` is the
/// value of the `DC` environment variable, which names the compiler when
/// the options do not.
pub fn build_dub_args(cmd: &mut ToolInvocation, opts: &DubOptions, dc: &Option<String>)
    ensures
        final(cmd)@ == old(cmd)@.extended(dub_args(opts@, dc.deep_view())),
{
    let ghost start = cmd@;
    let ghost o = opts@;
    let ghost fallback = dc.deep_view();

    let ghost compiler = optional_flag("--compiler="@, effective_compiler(o, fallback));
    let ghost build = optional_flag("--build="@, o.build);
    let ghost config = optional_flag("--config="@, o.config);
    let ghost arch = optional_flag("--arch="@, o.arch);
    match &opts.compiler {
        Some(_) => cmd.optional_flag("--compiler=", &opts.compiler),
        None => cmd.optional_flag("--compiler=", dc),
    }
    cmd.optional_flag("--build=", &opts.build);
    cmd.optional_flag("--config=", &opts.config);
    cmd.optional_flag("--arch=", &opts.arch);
    proof {
        lemma_extended_twice(start, compiler, build);
        lemma_extended_twice(start, compiler + build, config);
        lemma_extended_twice(start, compiler + build + config, arch);
    }
    let ghost scalars = cmd@;
    assert(scalars == start.extended(scalar_flags(o, fallback)));

    let ghost rdmd = switch("--rdmd"@, o.rdmd);
    let ghost temp_build = switch("--temp-build"@, o.temp_build);
    let ghost force = switch("--force"@, o.force);
    let ghost deep = switch("--deep"@, o.deep);
    let ghost nodeps = switch("--nodeps"@, o.nodeps);
    let ghost yes = switch("--yes"@, o.yes);
    let ghost non_interactive = switch("--non-interactive"@, o.non_interactive);
    cmd.switch("--rdmd", opts.rdmd);
    cmd.switch("--temp-build", opts.temp_build);
    cmd.switch("--force", opts.force);
    cmd.switch("--deep", opts.deep);
    cmd.switch("--nodeps", opts.nodeps);
    cmd.switch("--yes", opts.yes);
    cmd.switch("--non-interactive", opts.non_interactive);
    proof {
        lemma_extended_twice(scalars, rdmd, temp_build);
        lemma_extended_twice(scalars, rdmd + temp_build, force);
        lemma_extended_twice(scalars, rdmd + temp_build + force, deep);
        lemma_extended_twice(scalars, rdmd + temp_build + force + deep, nodeps);
        lemma_extended_twice(scalars, rdmd + temp_build + force + deep + nodeps, yes);
        lemma_extended_twice(
            scalars,
            rdmd + temp_build + force + deep + nodeps + yes,
            non_interactive,
        );
    }
    let ghost switches = cmd@;
    assert(switches == scalars.extended(switch_flags(o)));

    let ghost d_versions = repeated_flag("--d-version="@, o.d_versions);
    let ghost debug = repeated_flag("--debug="@, o.debug);
    let ghost override_config = repeated_flag("--override-config="@, o.override_config);
    cmd.repeated_flag("--d-version=", &opts.d_versions);
    cmd.repeated_flag("--debug=", &opts.debug);
    cmd.repeated_flag("--override-config=", &opts.override_config);
    proof {
        lemma_extended_twice(switches, d_versions, debug);
        lemma_extended_twice(switches, d_versions + debug, override_config);
        lemma_extended_twice(start, scalar_flags(o, fallback), switch_flags(o));
        lemma_extended_twice(
            start,
            scalar_flags(o, fallback) + switch_flags(o),
            list_flags(o),
        );
    }
}

/// The tokens of `lint`: the subcommand, the package where one is named,
/// the linter's own flags in their fixed order, then the build options.
pub open spec fn lint_tokens(opts: LintOptionsView, dc: Option<Seq<char>>) -> Seq<Seq<char>> {
    seq!["lint"@] + optional_token(opts.package) + switch("--syntax-check"@, opts.syntax_check)
        + switch("--style-check"@, opts.style_check) + optional_flag(
        "--error-format="@,
        opts.error_format,
    ) + switch("--report"@, opts.report) + optional_flag("--report-format="@, opts.report_format)
        + optional_flag("--report-file="@, opts.report_file) + optional_repeated_flag(
        "--import-paths="@,
        opts.import_paths,
    ) + optional_flag("--dscanner-config="@, opts.dscanner_config) + dub_args(opts.options, dc)
}

/// Plans a run of the linter.
pub fn execute_lint(dub: &DubExecutable, opts: &LintOptions, dc: &Option<String>) -> (cmd:
    ToolInvocation)
    ensures
        cmd@ == ToolInvocationView::bare(dub@.path).extended(lint_tokens(opts@, dc.deep_view())),
{
    let ghost o = opts@;
    let ghost start = ToolInvocationView::bare(dub@.path);
    let ghost name = seq!["lint"@];
    let ghost package = optional_token(o.package);
    let ghost syntax_check = switch("--syntax-check"@, o.syntax_check);
    let ghost style_check = switch("--style-check"@, o.style_check);
    let ghost error_format = optional_flag("--error-format="@, o.error_format);
    let ghost report = switch("--report"@, o.report);
    let ghost report_format = optional_flag("--report-format="@, o.report_format);
    let ghost report_file = optional_flag("--report-file="@, o.report_file);
    let ghost import_paths = optional_repeated_flag("--import-paths="@, o.import_paths);
    let ghost dscanner_config = optional_flag("--dscanner-config="@, o.dscanner_config);
    let ghost options = dub_args(o.options, dc.deep_view());

    let mut cmd = dub.command();
    cmd.arg("lint");
    cmd.optional_token(&opts.package);
    cmd.switch("--syntax-check", opts.syntax_check);
    cmd.switch("--style-check", opts.style_check);
    cmd.optional_flag("--error-format=", &opts.error_format);
    cmd.switch("--report", opts.report);
    cmd.optional_flag("--report-format=", &opts.report_format);
    cmd.optional_flag("--report-file=", &opts.report_file);
    cmd.optional_repeated_flag("--import-paths=", &opts.import_paths);
    cmd.optional_flag("--dscanner-config=", &opts.dscanner_config);
    build_dub_args(&mut cmd, &opts.options, dc);
    proof {
        let t1 = name + package;
        let t2 = t1 + syntax_check;
        let t3 = t2 + style_check;
        let t4 = t3 + error_format;
        let t5 = t4 + report;
        let t6 = t5 + report_format;
        let t7 = t6 + report_file;
        let t8 = t7 + import_paths;
        let t9 = t8 + dscanner_config;
        lemma_extended_twice(start, name, package);
        lemma_extended_twice(start, t1, syntax_check);
        lemma_extended_twice(start, t2, style_check);
        lemma_extended_twice(start, t3, error_format);
        lemma_extended_twice(start, t4, report);
        lemma_extended_twice(start, t5, report_format);
        lemma_extended_twice(start, t6, report_file);
        lemma_extended_twice(start, t7, import_paths);
        lemma_extended_twice(start, t8, dscanner_config);
        lemma_extended_twice(start, t9, options);
    }
    cmd
}

/// The tokens of `init`: the subcommand, the directory where one is named,
/// the dependencies, the package template, then the build options.
pub open spec fn init_tokens(opts: InitOptionsView, dc: Option<Seq<char>>) -> Seq<Seq<char>> {
    seq!["init"@] + optional_token(opts.directory) + opts.dependencies + seq![
        flag("--type="@, opts.project_type.spec_name()),
    ] + switch("--non-interactive"@, opts.non_interactive) + dub_args(opts.options, dc)
}

/// Plans the initialization of a package.
pub fn execute_init(dub: &DubExecutable, opts: &InitOptions, dc: &Option<String>) -> (cmd:
    ToolInvocation)
    ensures
        cmd@ == ToolInvocationView::bare(dub@.path).extended(init_tokens(opts@, dc.deep_view())),
{
    let ghost o = opts@;
    let ghost start = ToolInvocationView::bare(dub@.path);
    let ghost name = seq!["init"@];
    let ghost directory = optional_token(o.directory);
    let ghost project_type = seq![flag("--type="@, o.project_type.spec_name())];
    let ghost non_interactive = switch("--non-interactive"@, o.non_interactive);
    let ghost options = dub_args(o.options, dc.deep_view());

    let mut cmd = dub.command();
    cmd.arg("init");
    cmd.optional_token(&opts.directory);
    cmd.args(&opts.dependencies);
    cmd.flag("--type=", opts.project_type.name());
    cmd.switch("--non-interactive", opts.non_interactive);
    build_dub_args(&mut cmd, &opts.options, dc);
    proof {
        let t1 = name + directory;
        let t2 = t1 + o.dependencies;
        let t3 = t2 + project_type;
        let t4 = t3 + non_interactive;
        lemma_extended_twice(start, name, directory);
        lemma_extended_twice(start, t1, o.dependencies);
        lemma_extended_twice(start, t2, project_type);
        lemma_extended_twice(start, t3, non_interactive);
        lemma_extended_twice(start, t4, options);
    }
    cmd
}

/// The tokens of `describe`: the subcommand, one `--data=` per requested
/// item, the list switch, then the build options.
pub open spec fn describe_tokens(opts: DescribeOptionsView, dc: Option<Seq<char>>) -> Seq<
    Seq<char>,
> {
    seq!["describe"@] + optional_repeated_flag("--data="@, opts.data) + switch(
        "--data-list"@,
        opts.data_list,
    ) + dub_args(opts.options, dc)
}

/// Plans a description of the package.
pub fn execute_describe(dub: &DubExecutable, opts: &DescribeOptions, dc: &Option<String>) -> (cmd:
    ToolInvocation)
    ensures
        cmd@ == ToolInvocationView::bare(dub@.path).extended(describe_tokens(opts@, dc.deep_view())),
{
    let ghost o = opts@;
    let ghost start = ToolInvocationView::bare(dub@.path);
    let ghost name = seq!["describe"@];
    let ghost data = optional_repeated_flag("--data="@, o.data);
    let ghost data_list = switch("--data-list"@, o.data_list);
    let ghost options = dub_args(o.options, dc.deep_view());

    let mut cmd = dub.command();
    cmd.arg("describe");
    cmd.optional_repeated_flag("--data=", &opts.data);
    cmd.switch("--data-list", opts.data_list);
    build_dub_args(&mut cmd, &opts.options, dc);
    proof {
        lemma_extended_twice(start, name, data);
        lemma_extended_twice(start, name + data, data_list);
        lemma_extended_twice(start, name + data + data_list, options);
    }
    cmd
}

/// The tokens of `convert`.
pub open spec fn convert_tokens(format: Format) -> Seq<Seq<char>> {
    seq!["convert"@, flag("--format="@, format.spec_name())]
}

/// The model of a planning result: of the invocation where there is one,
/// the failure as it is.
pub open spec fn plan_view(planned: Result<ToolInvocation, DubError>) -> Result<
    ToolInvocationView,
    DubError,
> {
    match planned {
        Ok(cmd) => Ok(cmd@),
        Err(e) => Err(e),
    }
}

/// What a conversion comes to: the invocation where the manifest to be
/// read exists, else the failure that names it.
pub open spec fn convert_plan(dub: Seq<char>, format: Format, source_exists: bool) -> Result<
    ToolInvocationView,
    DubError,
> {
    if source_exists {
        Ok(ToolInvocationView::bare(dub).extended(convert_tokens(format)))
    } else {
        Err(DubError::MissingSource(format))
    }
}

/// Plans a conversion of the manifest to `format`. `source_exists` says
/// whether [`Format::source_file`] is present in the working directory;
/// without it nothing is to be invoked.
pub fn convert_format(dub: &DubExecutable, format: Format, source_exists: bool) -> (plan: Result<
    ToolInvocation,
    DubError,
>)
    ensures
        plan_view(plan) == convert_plan(dub@.path, format, source_exists),
{
    if !source_exists {
        return Err(DubError::MissingSource(format));
    }
    let mut cmd = dub.command();
    cmd.arg("convert");
    cmd.flag("--format=", format.name());
    proof {
        lemma_extended_twice(
            ToolInvocationView::bare(dub@.path),
            seq!["convert"@],
            seq![flag("--format="@, format.spec_name())],
        );
        assert(seq!["convert"@] + seq![flag("--format="@, format.spec_name())] =~= convert_tokens(
            format,
        ));
    }
    Ok(cmd)
}

/// The tokens of `clean`: the subcommand, the package where one is named,
/// the all-packages switch, then the build options.
pub open spec fn clean_tokens(opts: CleanOptionsView, dc: Option<Seq<char>>) -> Seq<Seq<char>> {
    seq!["clean"@] + optional_token(opts.package) + switch("--all-packages"@, opts.all_packages)
        + dub_args(opts.options, dc)
}

/// Plans the removal of cached build files.
pub fn execute_clean(dub: &DubExecutable, opts: &CleanOptions, dc: &Option<String>) -> (cmd:
    ToolInvocation)
    ensures
        cmd@ == ToolInvocationView::bare(dub@.path).extended(clean_tokens(opts@, dc.deep_view())),
{
    let ghost o = opts@;
    let ghost start = ToolInvocationView::bare(dub@.path);
    let ghost name = seq!["clean"@];
    let ghost package = optional_token(o.package);
    let ghost all_packages = switch("--all-packages"@, o.all_packages);
    let ghost options = dub_args(o.options, dc.deep_view());

    let mut cmd = dub.command();
    cmd.arg("clean");
    cmd.optional_token(&opts.package);
    cmd.switch("--all-packages", opts.all_packages);
    build_dub_args(&mut cmd, &opts.options, dc);
    proof {
        lemma_extended_twice(start, name, package);
        lemma_extended_twice(start, name + package, all_packages);
        lemma_extended_twice(start, name + package + all_packages, options);
    }
    cmd
}

/// The tokens of `fetch`: the subcommand, the package, the cache where one
/// is named, then the build options.
pub open spec fn fetch_tokens(opts: FetchOptionsView, dc: Option<Seq<char>>) -> Seq<Seq<char>> {
    seq!["fetch"@, opts.package] + optional_flag("--cache="@, opts.cache) + dub_args(
        opts.options,
        dc,
    )
}

/// Plans the fetching of a package.
pub fn execute_fetch(dub: &DubExecutable, opts: &FetchOptions, dc: &Option<String>) -> (cmd:
    ToolInvocation)
    ensures
        cmd@ == ToolInvocationView::bare(dub@.path).extended(fetch_tokens(opts@, dc.deep_view())),
{
    let ghost o = opts@;
    let ghost start = ToolInvocationView::bare(dub@.path);
    let ghost head = seq!["fetch"@, o.package];
    let ghost cache = optional_flag("--cache="@, o.cache);
    let ghost options = dub_args(o.options, dc.deep_view());

    let mut cmd = dub.command();
    cmd.arg("fetch");
    cmd.arg(opts.package.as_str());
    cmd.optional_flag("--cache=", &opts.cache);
    build_dub_args(&mut cmd, &opts.options, dc);
    proof {
        lemma_extended_twice(start, seq!["fetch"@], seq![o.package]);
        assert(seq!["fetch"@] + seq![o.package] =~= head);
        lemma_extended_twice(start, head, cache);
        lemma_extended_twice(start, head + cache, options);
    }
    cmd
}

/// The tokens of `add` and of `remove`: the subcommand, the packages in
/// the order given, then the build options.
pub open spec fn add_remove_tokens(
    subcommand: Seq<char>,
    opts: AddRemoveOptionsView,
    dc: Option<Seq<char>>,
) -> Seq<Seq<char>> {
    seq![subcommand] + opts.packages + dub_args(opts.options, dc)
}

/// Plans a change to the package's dependencies; `subcommand` is `add` or
/// `remove`.
pub fn execute_add_remove(
    dub: &DubExecutable,
    subcommand: &str,
    opts: &AddRemoveOptions,
    dc: &Option<String>,
) -> (cmd: ToolInvocation)
    ensures
        cmd@ == ToolInvocationView::bare(dub@.path).extended(
            add_remove_tokens(subcommand@, opts@, dc.deep_view()),
        ),
{
    let ghost o = opts@;
    let ghost start = ToolInvocationView::bare(dub@.path);
    let ghost options = dub_args(o.options, dc.deep_view());

    let mut cmd = dub.command();
    cmd.arg(subcommand);
    cmd.args(&opts.packages);
    build_dub_args(&mut cmd, &opts.options, dc);
    proof {
        lemma_extended_twice(start, seq![subcommand@], o.packages);
        lemma_extended_twice(start, seq![subcommand@] + o.packages, options);
    }
    cmd
}

/// The tokens of `run` and of `build`: the subcommand, then the build
/// options.
pub open spec fn dub_tokens(subcommand: Seq<char>, opts: DubOptionsView, dc: Option<Seq<char>>)
    -> Seq<Seq<char>> {
    seq![subcommand] + dub_args(opts, dc)
}

/// Plans a build; `subcommand` is `run` or `build`.
pub fn execute_dub(dub: &DubExecutable, subcommand: &str, opts: &DubOptions, dc: &Option<String>)
    -> (cmd: ToolInvocation)
    ensures
        cmd@ == ToolInvocationView::bare(dub@.path).extended(
            dub_tokens(subcommand@, opts@, dc.deep_view()),
        ),
{
    let mut cmd = dub.command();
    cmd.arg(subcommand);
    build_dub_args(&mut cmd, opts, dc);
    proof {
        lemma_extended_twice(
            ToolInvocationView::bare(dub@.path),
            seq![subcommand@],
            dub_args(opts@, dc.deep_view()),
        );
    }
    cmd
}

/// Plans an invocation whose tokens are the caller's own, handed on
/// unchanged and in the order given.
pub fn execute_raw(dub: &DubExecutable, args: &Vec<String>) -> (cmd: ToolInvocation)
    ensures
        cmd@ == ToolInvocationView::bare(dub@.path).extended(args.deep_view()),
{
    let mut cmd = dub.command();
    cmd.args(args);
    cmd
}

/// The tokens that a request comes to.
pub open spec fn request_tokens(cmd: DubCommandsView, dc: Option<Seq<char>>) -> Seq<Seq<char>> {
    match cmd {
        DubCommandsView::Run(opts) => dub_tokens("run"@, opts, dc),
        DubCommandsView::Build(opts) => dub_tokens("build"@, opts, dc),
        DubCommandsView::Convert { format } => convert_tokens(format),
        DubCommandsView::Raw { args } => args,
        DubCommandsView::Describe(opts) => describe_tokens(opts, dc),
        DubCommandsView::Add(opts) => add_remove_tokens("add"@, opts, dc),
        DubCommandsView::Remove(opts) => add_remove_tokens("remove"@, opts, dc),
        DubCommandsView::Fetch(opts) => fetch_tokens(opts, dc),
        DubCommandsView::Init(opts) => init_tokens(opts, dc),
        DubCommandsView::Clean(opts) => clean_tokens(opts, dc),
        DubCommandsView::Lint(opts) => lint_tokens(opts, dc),
    }
}

/// What a request comes to on a given host: a transparent invocation of
/// the executable with the request's tokens, unless the request needs a
/// file that is not there.
pub open spec fn plan(dub: Seq<char>, cmd: DubCommandsView, host: HostView) -> Result<
    ToolInvocationView,
    DubError,
> {
    match cmd {
        DubCommandsView::Convert { format } if !host.source_exists => Err(
            DubError::MissingSource(format),
        ),
        _ => Ok(ToolInvocationView::bare(dub).extended(request_tokens(cmd, host.dc))),
    }
}

/// Plans the invocation that a parsed command line asks for: the
/// operation it names, or `run` with default options where it names none.
pub fn run(dub: &DubExecutable, args: Cli, host: &Host) -> (planned: Result<
    ToolInvocation,
    DubError,
>)
    ensures
        plan_view(planned) == plan(dub@.path, args@.selected(), host@),
{
    let cmd = args.into_command();
    match cmd {
        DubCommands::Run(opts) => Ok(execute_dub(dub, "run", &opts, &host.dc)),
        DubCommands::Build(opts) => Ok(execute_dub(dub, "build", &opts, &host.dc)),
        DubCommands::Convert { format } => convert_format(dub, format, host.source_exists),
        DubCommands::Raw { args } => Ok(execute_raw(dub, &args)),
        DubCommands::Describe(opts) => Ok(execute_describe(dub, &opts, &host.dc)),
        DubCommands::Add(opts) => Ok(execute_add_remove(dub, "add", &opts, &host.dc)),
        DubCommands::Remove(opts) => Ok(execute_add_remove(dub, "remove", &opts, &host.dc)),
        DubCommands::Fetch(opts) => Ok(execute_fetch(dub, &opts, &host.dc)),
        DubCommands::Init(opts) => Ok(execute_init(dub, &opts, &host.dc)),
        DubCommands::Clean(opts) => Ok(execute_clean(dub, &opts, &host.dc)),
        DubCommands::Lint(opts) => Ok(execute_lint(dub, &opts, &host.dc)),
    }
}

} // verus!
