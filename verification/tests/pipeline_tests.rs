//! Tests for the pipeline state machine and its builder.

use amble::builder::PipelineBuilder;
use amble::pipeline::{Pipeline, PipelineError, PipelineStatus};

#[test]
fn test_pipeline() {
    let mut pipeline = Pipeline::new();
    pipeline.execute().unwrap();
    pipeline.commit().unwrap();
}

#[test]
fn test_pipeline_unordered_fails() {
    let mut pipeline = Pipeline::new();
    assert_eq!(pipeline.status, PipelineStatus::Built);

    pipeline.commit().unwrap_err();
    pipeline.execute().unwrap();
    assert_eq!(pipeline.status, PipelineStatus::Executed);

    pipeline.execute().unwrap_err();
    pipeline.commit().unwrap();
    assert_eq!(pipeline.status, PipelineStatus::Committed);

    pipeline.execute().unwrap_err();
    pipeline.commit().unwrap_err();
}

#[test]
fn test_pipeline_error_kinds() {
    let mut pipeline = Pipeline::new();
    assert_eq!(pipeline.commit(), Err(PipelineError::NotExecuted));
    assert_eq!(pipeline.execute(), Ok(()));
    assert_eq!(pipeline.execute(), Err(PipelineError::AlreadyExecuted));
    assert_eq!(pipeline.commit(), Ok(()));
    assert_eq!(pipeline.commit(), Err(PipelineError::AlreadyCommitted));
    assert_eq!(pipeline.status, PipelineStatus::Committed);
}

#[test]
fn test_pipeline_default_is_built() {
    let pipeline = Pipeline::default();
    assert_eq!(pipeline.status, PipelineStatus::Built);
}

#[test]
fn test_builder_chain() {
    let mut builder = PipelineBuilder::new();
    builder = builder.dry_run(true);
    builder = builder.with_name("example".to_string());
    assert!(builder.dry_run);
    assert_eq!(builder.name.as_deref(), Some("example"));

    let mut pipeline = builder.build();
    assert_eq!(pipeline.status, PipelineStatus::Built);
    pipeline.execute().unwrap();
    pipeline.commit().unwrap();
}

#[test]
fn test_builder_execute() {
    let pipeline = Pipeline::with_name("example".to_string()).dry_run(true).execute().unwrap();
    assert_eq!(pipeline.status, PipelineStatus::Executed);
}

#[test]
fn test_builder_parse_keeps_config() {
    let mut config = amble::config::Config::default();
    config.root_opts.name = "demo".to_string();
    let builder = PipelineBuilder::parse(config.clone());
    assert_eq!(builder.config, config);
    assert_eq!(builder.verbosity, 0);
}
