use caesiumclt::jobs::{choose_relative, destination};
use caesiumclt::{
    build_jobs, build_parameters, validate_inputs, BuildError, ConfigError, CsImagePars,
    PathMappingError, ScaleFactor,
};

fn strings(items: &[&str]) -> Vec<String> {
    items.iter().map(|s| s.to_string()).collect()
}

#[test]
fn no_inputs_are_refused() {
    assert_eq!(validate_inputs(0, false, false), Err(ConfigError::NoInputs));
    assert_eq!(validate_inputs(0, true, true), Err(ConfigError::NoInputs));
}

#[test]
fn keep_structure_with_more_than_one_input_is_refused() {
    assert_eq!(validate_inputs(2, true, true), Err(ConfigError::KeepStructureNeedsDirectory));
    assert_eq!(validate_inputs(2, false, true), Err(ConfigError::KeepStructureNeedsDirectory));
    assert_eq!(validate_inputs(usize::MAX, true, true), Err(ConfigError::KeepStructureNeedsDirectory));
}

#[test]
fn keep_structure_with_a_single_file_is_refused() {
    assert_eq!(validate_inputs(1, false, true), Err(ConfigError::KeepStructureNeedsDirectory));
}

#[test]
fn valid_inputs_pass() {
    assert_eq!(validate_inputs(1, true, true), Ok(()));
    assert_eq!(validate_inputs(1, true, false), Ok(()));
    assert_eq!(validate_inputs(1, false, false), Ok(()));
    assert_eq!(validate_inputs(3, false, false), Ok(()));
}

#[test]
fn config_errors_have_messages() {
    assert_eq!(ConfigError::NoInputs.message(), "Please provide at least one file.");
    assert_eq!(
        ConfigError::KeepStructureNeedsDirectory.message(),
        "Option -S (--keep-structure) can be used only if the input is a folder."
    );
    assert_eq!(PathMappingError::NoFileName.message(), "the path has no file name");
    assert_eq!(PathMappingError::OutsideInputRoot.message(), "the path is not below the input folder");
}

#[test]
fn flat_layout_puts_base_names_below_the_output_root() {
    let files = strings(&["/in/x/y.jpg", "a.png", "rel/dir/b.jpeg"]);
    let plan = build_jobs(&files, "/out", false, None, CsImagePars::default()).unwrap();
    assert_eq!(plan.jobs.len(), 3);
    assert_eq!(plan.jobs[0].source, "/in/x/y.jpg");
    assert_eq!(plan.jobs[0].destination, "/out/y.jpg");
    assert_eq!(plan.jobs[1].source, "a.png");
    assert_eq!(plan.jobs[1].destination, "/out/a.png");
    assert_eq!(plan.jobs[2].source, "rel/dir/b.jpeg");
    assert_eq!(plan.jobs[2].destination, "/out/b.jpeg");
    assert!(plan.directories.is_empty());
}

#[test]
fn flat_layout_ignores_the_input_root() {
    let files = strings(&["/elsewhere/y.jpg"]);
    let plan = build_jobs(&files, "out", false, Some("/in"), CsImagePars::default()).unwrap();
    assert_eq!(plan.jobs[0].destination, "out/y.jpg");
    assert!(plan.directories.is_empty());
}

#[test]
fn mirrored_layout_keeps_the_path_below_the_input_root() {
    let files = strings(&["/in/x/y.jpg"]);
    let plan = build_jobs(&files, "/out", true, Some("/in"), CsImagePars::default()).unwrap();
    assert_eq!(plan.jobs.len(), 1);
    assert_eq!(plan.jobs[0].source, "/in/x/y.jpg");
    assert_eq!(plan.jobs[0].destination, "/out/x/y.jpg");
    assert_eq!(plan.directories, vec!["/out/x".to_string()]);
}

#[test]
fn mirrored_layout_names_one_directory_per_job() {
    let files = strings(&["in/a.jpg", "in/x/b.png", "in/x/y/c.jpg", "in/x/d.jpg"]);
    let plan = build_jobs(&files, "out", true, Some("in"), CsImagePars::default()).unwrap();
    let destinations: Vec<&str> = plan.jobs.iter().map(|job| job.destination.as_str()).collect();
    assert_eq!(destinations, vec!["out/a.jpg", "out/x/b.png", "out/x/y/c.jpg", "out/x/d.jpg"]);
    assert_eq!(plan.directories, strings(&["out", "out/x", "out/x/y", "out/x"]));
}

#[test]
fn every_job_gets_the_shared_parameters() {
    let params = build_parameters(74, true, ScaleFactor::one()).unwrap();
    let files = strings(&["a.jpg", "b.png"]);
    let plan = build_jobs(&files, "out", false, None, params).unwrap();
    for job in &plan.jobs {
        assert_eq!(job.params.jpeg.quality, 74);
        assert_eq!(job.params.png.level, 5);
        assert!(job.params.jpeg.exif_copy);
        assert!(job.params.png.exif_copy);
    }
}

#[test]
fn a_file_outside_the_input_root_stops_the_build() {
    let files = strings(&["/in/a.jpg", "/other/b.jpg", "/in/c.jpg"]);
    let result = build_jobs(&files, "/out", true, Some("/in"), CsImagePars::default());
    assert_eq!(
        result.err(),
        Some(BuildError::PathMapping { file: 1, reason: PathMappingError::OutsideInputRoot })
    );
}

#[test]
fn the_input_root_is_a_prefix_by_components() {
    let files = strings(&["/inx/a.jpg"]);
    let result = build_jobs(&files, "/out", true, Some("/in"), CsImagePars::default());
    assert_eq!(
        result.err(),
        Some(BuildError::PathMapping { file: 0, reason: PathMappingError::OutsideInputRoot })
    );
    let files = strings(&["/in/x/a.jpg"]);
    let plan = build_jobs(&files, "/out", true, Some("/in/"), CsImagePars::default()).unwrap();
    assert_eq!(plan.jobs[0].destination, "/out/x/a.jpg");
}

#[test]
fn a_file_without_a_name_stops_the_build() {
    for name in ["..", "/", "a/..", ""] {
        let files = strings(&["a.jpg", name]);
        let result = build_jobs(&files, "/out", false, None, CsImagePars::default());
        assert_eq!(
            result.err(),
            Some(BuildError::PathMapping { file: 1, reason: PathMappingError::NoFileName }),
            "file {:?}",
            name
        );
    }
}

#[test]
fn a_missing_name_is_reported_before_a_missing_root() {
    let files = strings(&["/other/.."]);
    let result = build_jobs(&files, "/out", true, Some("/in"), CsImagePars::default());
    assert_eq!(
        result.err(),
        Some(BuildError::PathMapping { file: 0, reason: PathMappingError::NoFileName })
    );
}

#[test]
fn mirrored_layout_without_an_input_root_is_a_configuration_error() {
    let files = strings(&["/in/a.jpg"]);
    let result = build_jobs(&files, "/out", true, None, CsImagePars::default());
    assert_eq!(result.err(), Some(BuildError::Config(ConfigError::KeepStructureNeedsDirectory)));
    let result = build_jobs(&Vec::new(), "/out", true, None, CsImagePars::default());
    assert_eq!(result.err(), Some(BuildError::Config(ConfigError::KeepStructureNeedsDirectory)));
}

#[test]
fn no_files_give_an_empty_plan() {
    let plan = build_jobs(&Vec::new(), "/out", true, Some("/in"), CsImagePars::default()).unwrap();
    assert!(plan.jobs.is_empty());
    assert!(plan.directories.is_empty());
}

#[test]
fn destination_joins_below_the_output_root() {
    assert_eq!(destination("/in/x/y.jpg", "/out", false, "/in"), Ok("/out/y.jpg".to_string()));
    assert_eq!(destination("/in/x/y.jpg", "/out", true, "/in"), Ok("/out/x/y.jpg".to_string()));
    assert_eq!(destination("/in/x/y.jpg", "/out/", true, "/in/x"), Ok("/out/y.jpg".to_string()));
    assert_eq!(destination("y.jpg", "", false, ""), Ok("y.jpg".to_string()));
    assert_eq!(destination("/in/y.jpg", "/out", true, "/out"), Err(PathMappingError::OutsideInputRoot));
    assert_eq!(destination("/in/..", "/out", false, "/in"), Err(PathMappingError::NoFileName));
}

#[test]
fn choose_relative_takes_the_name_or_the_rest() {
    let name = || Some("y.jpg".to_string());
    let rest = || Some("x/y.jpg".to_string());
    assert_eq!(choose_relative(false, name(), rest()), Ok("y.jpg".to_string()));
    assert_eq!(choose_relative(false, name(), None), Ok("y.jpg".to_string()));
    assert_eq!(choose_relative(true, name(), rest()), Ok("x/y.jpg".to_string()));
    assert_eq!(choose_relative(true, name(), None), Err(PathMappingError::OutsideInputRoot));
    assert_eq!(choose_relative(false, None, rest()), Err(PathMappingError::NoFileName));
    assert_eq!(choose_relative(true, None, rest()), Err(PathMappingError::NoFileName));
    assert_eq!(choose_relative(true, None, None), Err(PathMappingError::NoFileName));
}

#[test]
fn a_duplicate_job_is_the_same_job() {
    let params = build_parameters(55, true, ScaleFactor::one()).unwrap();
    let files = strings(&["in/a.jpg"]);
    let plan = build_jobs(&files, "out", false, None, params).unwrap();
    let copy = plan.jobs[0].duplicate();
    assert_eq!(copy.source, "in/a.jpg");
    assert_eq!(copy.destination, "out/a.jpg");
    assert_eq!(copy.params.jpeg.quality, 55);
    assert_eq!(copy.params.png.level, 2);
    assert_eq!(copy.params.jpeg.scale_factor, ScaleFactor::one());
}

#[test]
fn a_single_directory_is_one_input_that_is_a_directory() {
    assert!(caesiumclt::single_directory(1, true));
    assert!(!caesiumclt::single_directory(1, false));
    assert!(!caesiumclt::single_directory(2, true));
    assert!(!caesiumclt::single_directory(0, true));
    assert!(!caesiumclt::single_directory(0, false));
}
