//! The pipeline builder.
//!
//! The builder configures a [`crate::pipeline::Pipeline`] before it is built.
//! Each mutator consumes the builder and returns the updated builder, so the
//! calls can be chained; `build` produces the pipeline in its initial state.

use vstd::prelude::*;
use crate::config::{CIOpts, Config, GlobalOpts, MiscOpts, PipelineType, RootOpts};
use crate::pipeline::{Pipeline, PipelineError, PipelineStatus, execute_outcome};

verus! {

/// Builder for a [`Pipeline`].
#[derive(Debug, Clone, PartialEq)]
pub struct PipelineBuilder {
    /// The verbosity level of the pipeline.
    pub verbosity: u8,
    /// Dry run mode.
    pub dry_run: bool,
    /// The project name.
    pub name: Option<String>,
    /// The pipeline configuration.
    pub config: Config,
}

/// The configuration a builder starts from: the command-line defaults.
pub open spec fn default_config_spec(c: Config) -> bool {
    &&& c.global_opts == (GlobalOpts { verbosity: 0, full: false, dry_run: false, overwrite: false })
    &&& c.ci_opts == (CIOpts { with_ci: false, ci_yml: None })
    &&& c.misc_opts == (MiscOpts { etc: false, assets: false })
    &&& c.root_opts.directory@ == "."@
    &&& c.root_opts.name@ == "example"@
    &&& c.root_opts.description is None
    &&& c.root_opts.authors is None
    &&& !c.root_opts.gitignore
    &&& !c.root_opts.license
    &&& c.root_opts.with_license is None
    &&& c.root_opts.dependencies is None
    &&& !c.root_opts.without_readme
    &&& c.ptype == PipelineType::Workspace
}

impl Default for Config {
    /// The defaults of the command-line surface: project name `example`,
    /// current directory as target, workspace mode, every switch off.
    fn default() -> (r: Self)
        ensures
            default_config_spec(r),
    {
        Config {
            global_opts: GlobalOpts { verbosity: 0, full: false, dry_run: false, overwrite: false },
            ci_opts: CIOpts { with_ci: false, ci_yml: None },
            misc_opts: MiscOpts { etc: false, assets: false },
            root_opts: RootOpts {
                directory: ".".to_owned(),
                name: "example".to_owned(),
                description: None,
                authors: None,
                gitignore: false,
                license: false,
                with_license: None,
                dependencies: None,
                without_readme: false,
            },
            ptype: PipelineType::Workspace,
        }
    }
}

impl Default for PipelineBuilder {
    /// A fresh builder: zero verbosity, no dry run, no name override, and the
    /// default configuration.
    fn default() -> (r: Self)
        ensures
            r.verbosity == 0,
            !r.dry_run,
            r.name is None,
            default_config_spec(r.config),
    {
        PipelineBuilder { verbosity: 0, dry_run: false, name: None, config: Config::default() }
    }
}

impl PipelineBuilder {
    /// Constructs a new builder with the default configuration.
    pub fn new() -> (r: Self)
        ensures
            r.verbosity == 0,
            !r.dry_run,
            r.name is None,
            default_config_spec(r.config),
    {
        PipelineBuilder::default()
    }

    /// Wraps an already parsed configuration in a fresh builder.
    pub fn parse(config: Config) -> (r: Self)
        ensures
            r.verbosity == 0,
            !r.dry_run,
            r.name is None,
            r.config == config,
    {
        PipelineBuilder { config, verbosity: 0, dry_run: false, name: None }
    }

    /// Sets the pipeline to use dry run mode.
    pub fn dry_run(self, dry: bool) -> (r: Self)
        ensures
            r == (PipelineBuilder { dry_run: dry, ..self }),
    {
        PipelineBuilder { dry_run: dry, ..self }
    }

    /// Sets the project name.
    pub fn with_name(self, name: String) -> (r: Self)
        ensures
            r == (PipelineBuilder { name: Some(name), ..self }),
    {
        PipelineBuilder { name: Some(name), ..self }
    }

    /// Builds the pipeline, in the `Built` state.
    pub fn build(self) -> (r: Pipeline)
        ensures
            r.status == PipelineStatus::Built,
    {
        Pipeline { status: PipelineStatus::Built }
    }

    /// Builds the pipeline and executes it, returning the executed pipeline.
    pub fn execute(self) -> (r: Result<Pipeline, PipelineError>)
        ensures
            r is Ok,
            r matches Ok(p) && p.status == PipelineStatus::Executed,
    {
        let mut pipeline = self.build();
        proof {
            assert(execute_outcome(PipelineStatus::Built).1 is Ok);
        }
        match pipeline.execute() {
            Ok(()) => Ok(pipeline),
            Err(e) => Err(e),
        }
    }
}

impl Pipeline {
    /// Starts a builder and sets the project name, so that a pipeline can
    /// be configured starting from the pipeline type itself.
    pub fn with_name(name: String) -> (r: PipelineBuilder)
        ensures
            r.name == Some(name),
            !r.dry_run,
            r.verbosity == 0,
            default_config_spec(r.config),
    {
        PipelineBuilder::new().with_name(name)
    }

    /// Starts a builder and sets dry run mode.
    pub fn dry_run(dry: bool) -> (r: PipelineBuilder)
        ensures
            r.dry_run == dry,
            r.name is None,
            r.verbosity == 0,
            default_config_spec(r.config),
    {
        PipelineBuilder::new().dry_run(dry)
    }
}

} // verus!
