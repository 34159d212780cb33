//! The pipeline configuration: an immutable record of all user intent.
//!
//! A [`Config`] is produced once at startup from command-line input and is
//! never changed afterwards.  The `full` flag is a meta-flag: it enables the
//! CI, license, gitignore, etc and assets steps all at once, which the
//! `wants_*` spec functions account for.

use vstd::prelude::*;

verus! {

/// Global options: verbosity and the switches that govern every step.
#[derive(Debug, Clone, PartialEq)]
pub struct GlobalOpts {
    /// Verbosity level (0-4).
    pub verbosity: u8,
    /// Generate a full project: enables ci, license, gitignore, etc and assets.
    pub full: bool,
    /// Dry run mode: plan and preview only, mutate nothing.
    pub dry_run: bool,
    /// Overwrite existing files after a single warning prompt.
    pub overwrite: bool,
}

/// CI options.
#[derive(Debug, Clone, PartialEq)]
pub struct CIOpts {
    /// Add the bundled github actions workflows.
    pub with_ci: bool,
    /// Copy this workflow file into the project's workflow directory instead.
    pub ci_yml: Option<String>,
}

/// Miscellaneous options.
#[derive(Debug, Clone, PartialEq)]
pub struct MiscOpts {
    /// Add an `etc/` directory to the project.
    pub etc: bool,
    /// Add template assets to the `etc/` directory.
    pub assets: bool,
}

/// Root-level options: the target directory and the project identity.
#[derive(Debug, Clone, PartialEq)]
pub struct RootOpts {
    /// The path to the project directory.
    pub directory: String,
    /// The project name.
    pub name: String,
    /// The project description.
    pub description: Option<String>,
    /// Overrides the project authors.
    pub authors: Option<Vec<String>>,
    /// Add a gitignore file to the project.
    pub gitignore: bool,
    /// Add a license to the project.
    pub license: bool,
    /// License override: an SPDX license identifier.
    pub with_license: Option<String>,
    /// Extra dependencies for the workspace manifest, beside the defaults.
    pub dependencies: Option<Vec<String>>,
    /// Prevent a readme from being generated or overwritten.
    pub without_readme: bool,
}

/// Which kind of project the pipeline generates.
#[derive(Debug, Clone, PartialEq)]
pub enum PipelineType {
    /// List the default dependencies and exit.
    List,
    /// Generate a workspace project: root manifest plus bin and lib sub-crates.
    Workspace,
    /// Generate a single cargo binary project.
    Bin {
        /// Bare mode: keep only what the project initializer produces.
        bare: bool,
    },
    /// Generate a single cargo library project.
    Lib {
        /// Bare mode: keep only what the project initializer produces.
        bare: bool,
    },
}

/// The pipeline configuration object.
#[derive(Debug, Clone, PartialEq)]
pub struct Config {
    /// Global options.
    pub global_opts: GlobalOpts,
    /// CI options.
    pub ci_opts: CIOpts,
    /// Miscellaneous options.
    pub misc_opts: MiscOpts,
    /// Root-level options.
    pub root_opts: RootOpts,
    /// The kind of project to generate.
    pub ptype: PipelineType,
}

impl Config {
    /// Whether the license step runs: asked for directly, through an SPDX
    /// override, or through `full`.
    pub open spec fn wants_license(&self) -> bool {
        self.root_opts.license || self.root_opts.with_license is Some || self.global_opts.full
    }

    /// Whether the gitignore step runs.
    pub open spec fn wants_gitignore(&self) -> bool {
        self.root_opts.gitignore || self.global_opts.full
    }

    /// Whether the etc step runs.
    pub open spec fn wants_etc(&self) -> bool {
        self.misc_opts.etc || self.global_opts.full
    }

    /// Whether the etc step also fetches template assets.
    pub open spec fn wants_assets(&self) -> bool {
        self.misc_opts.assets || self.global_opts.full
    }

    /// Whether the CI step runs.
    pub open spec fn wants_ci(&self) -> bool {
        self.ci_opts.with_ci || self.ci_opts.ci_yml is Some || self.global_opts.full
    }

    /// A configuration is valid when the project name is non-empty and an
    /// author override, when given, names at least one author.
    pub open spec fn valid(&self) -> bool {
        &&& self.root_opts.name@.len() > 0
        &&& match self.root_opts.authors {
            Some(ref v) => v@.len() > 0,
            None => true,
        }
    }

    /// Checks [`Config::valid`] executably.
    pub fn validate(&self) -> (r: bool)
        ensures
            r == self.valid(),
    {
        if self.root_opts.name.as_str().is_empty() {
            return false;
        }
        match &self.root_opts.authors {
            Some(v) => v.len() > 0,
            None => true,
        }
    }
}

} // verus!
