//! The job builder: one job per discovered file, with its destination below
//! the output root.

use vstd::prelude::*;

use crate::cspars::CsImagePars;
use crate::error::{BuildError, ConfigError, PathMappingError};
use crate::paths::{
    file_name, join, path_file_name, path_join, path_pop, path_strip_prefix, pop, strip_prefix,
};
use crate::text::option_text;

verus! {

/// One unit of work: a source file, where its compressed copy goes, and the
/// parameters to compress it with.
#[derive(Debug)]
pub struct Job {
    pub source: String,
    pub destination: String,
    pub params: CsImagePars,
}

/// The jobs of a batch, and the directories that have to exist before the
/// jobs run.
#[derive(Debug)]
pub struct BuildPlan {
    /// One job per discovered file, in the order of the files.
    pub jobs: Vec<Job>,
    /// With a mirrored layout, the directory of each job's destination, in the
    /// order of the jobs. Empty with a flat layout, which needs the output
    /// root alone.
    pub directories: Vec<String>,
}

impl Job {
    /// A copy of the job.
    pub fn duplicate(&self) -> (copy: Job)
        ensures
            copy == *self,
    {
        Job {
            source: self.source.clone(),
            destination: self.destination.clone(),
            params: self.params,
        }
    }
}

/// Whether the inputs are exactly one directory.
pub open spec fn is_single_directory(input_count: int, first_is_dir: bool) -> bool {
    input_count == 1 && first_is_dir
}

/// Decides whether the inputs are exactly one directory, which is what a
/// mirrored layout needs for its input root.
pub fn single_directory(input_count: usize, first_is_dir: bool) -> (single: bool)
    ensures
        single == is_single_directory(input_count as int, first_is_dir),
{
    input_count == 1 && first_is_dir
}

/// The verdict on the inputs of a batch.
pub open spec fn inputs_verdict(input_count: int, first_is_dir: bool, keep_structure: bool) -> Result<
    (),
    ConfigError,
> {
    if input_count == 0 {
        Err(ConfigError::NoInputs)
    } else if keep_structure && !is_single_directory(input_count, first_is_dir) {
        Err(ConfigError::KeepStructureNeedsDirectory)
    } else {
        Ok(())
    }
}

/// Checks the inputs of a batch before anything is read: there must be at
/// least one input path, and the directory structure can be kept only if the
/// input is exactly one directory.
///
/// `first_is_dir` says whether the first input path leads to a directory.
pub fn validate_inputs(input_count: usize, first_is_dir: bool, keep_structure: bool) -> (result:
    Result<(), ConfigError>)
    ensures
        result == inputs_verdict(input_count as int, first_is_dir, keep_structure),
{
    if input_count == 0 {
        return Err(ConfigError::NoInputs);
    }
    let folder_only = single_directory(input_count, first_is_dir);
    if !folder_only && keep_structure {
        return Err(ConfigError::KeepStructureNeedsDirectory);
    }
    Ok(())
}

/// Keeping the structure of more than one input path is always refused.
pub proof fn lemma_keep_structure_needs_one_input(input_count: int, first_is_dir: bool)
    requires
        input_count > 1,
    ensures
        inputs_verdict(input_count, first_is_dir, true) == Err::<(), ConfigError>(
            ConfigError::KeepStructureNeedsDirectory,
        ),
{
}

/// The path of a file relative to the output root, given the file's final
/// component and, for a mirrored layout, what is left of the file's path
/// below the input root.
pub open spec fn relative_target(
    keep_structure: bool,
    name: Option<Seq<char>>,
    below_root: Option<Seq<char>>,
) -> Result<Seq<char>, PathMappingError> {
    match name {
        None => Err(PathMappingError::NoFileName),
        Some(base_name) => if keep_structure {
            match below_root {
                None => Err(PathMappingError::OutsideInputRoot),
                Some(rest) => Ok(rest),
            }
        } else {
            Ok(base_name)
        },
    }
}

/// The destination of a file: its base name below the output root, or, with a
/// mirrored layout, its path below the input root moved below the output root.
pub open spec fn destination_of(
    file: Seq<char>,
    output_root: Seq<char>,
    keep_structure: bool,
    input_root: Seq<char>,
) -> Result<Seq<char>, PathMappingError> {
    match relative_target(
        keep_structure,
        path_file_name(file),
        path_strip_prefix(file, input_root),
    ) {
        Ok(relative) => Ok(path_join(output_root, relative)),
        Err(reason) => Err(reason),
    }
}

/// Chooses the path of a file relative to the output root.
///
/// A file without a final component has no place in either layout. With a
/// mirrored layout, a file that does not lie below the input root has none.
pub fn choose_relative(keep_structure: bool, name: Option<String>, below_root: Option<String>) -> (result:
    Result<String, PathMappingError>)
    ensures
        match result {
            Ok(relative) => relative_target(
                keep_structure,
                option_text(name),
                option_text(below_root),
            ) == Ok::<Seq<char>, PathMappingError>(relative@),
            Err(reason) => relative_target(
                keep_structure,
                option_text(name),
                option_text(below_root),
            ) == Err::<Seq<char>, PathMappingError>(reason),
        },
{
    match name {
        None => Err(PathMappingError::NoFileName),
        Some(base_name) => {
            if keep_structure {
                match below_root {
                    None => Err(PathMappingError::OutsideInputRoot),
                    Some(rest) => Ok(rest),
                }
            } else {
                Ok(base_name)
            }
        },
    }
}

/// Computes the destination of one file.
pub fn destination(file: &str, output_root: &str, keep_structure: bool, input_root: &str) -> (result:
    Result<String, PathMappingError>)
    ensures
        match result {
            Ok(path) => destination_of(file@, output_root@, keep_structure, input_root@) == Ok::<
                Seq<char>,
                PathMappingError,
            >(path@),
            Err(reason) => destination_of(file@, output_root@, keep_structure, input_root@)
                == Err::<Seq<char>, PathMappingError>(reason),
        },
{
    let name = file_name(file);
    let below_root = if keep_structure {
        strip_prefix(file, input_root)
    } else {
        None
    };
    match choose_relative(keep_structure, name, below_root) {
        Ok(relative) => Ok(join(output_root, relative.as_str())),
        Err(reason) => Err(reason),
    }
}

/// The text of the input root, which is empty where there is none.
pub open spec fn root_text(input_root: Option<&str>) -> Seq<char> {
    match input_root {
        Some(root) => root@,
        None => Seq::empty(),
    }
}

/// Whether a plan is the plan for the given files: one job per file, in the
/// order of the files, each with its source, its destination and the shared
/// parameters; and, with a mirrored layout, one directory per job, which is
/// the job's destination without its final component.
pub open spec fn is_plan_for(
    plan: BuildPlan,
    files: Seq<String>,
    output_root: Seq<char>,
    keep_structure: bool,
    input_root: Seq<char>,
    params: CsImagePars,
) -> bool {
    &&& plan.jobs@.len() == files.len()
    &&& forall|i: int|
        0 <= i < files.len() ==> {
            &&& (#[trigger] plan.jobs@[i]).source@ == files[i]@
            &&& destination_of(files[i]@, output_root, keep_structure, input_root) == Ok::<
                Seq<char>,
                PathMappingError,
            >(plan.jobs@[i].destination@)
            &&& plan.jobs@[i].params == params
        }
    &&& if keep_structure {
        &&& plan.directories@.len() == files.len()
        &&& forall|i: int|
            0 <= i < files.len() ==> (#[trigger] plan.directories@[i])@ == path_pop(
                plan.jobs@[i].destination@,
            )
    } else {
        plan.directories@.len() == 0
    }
}

/// Builds the jobs of a batch, or says why the batch cannot start.
///
/// `input_root` is the input directory where the input is exactly one
/// directory, and `None` otherwise. A mirrored layout without an input root is
/// a configuration error. The first file that has no destination stops the
/// build: no plan is made of the files before it.
pub fn build_jobs(
    files: &Vec<String>,
    output_root: &str,
    keep_structure: bool,
    input_root: Option<&str>,
    params: CsImagePars,
) -> (result: Result<BuildPlan, BuildError>)
    ensures
        match result {
            Ok(plan) => {
                &&& !(keep_structure && input_root is None)
                &&& is_plan_for(
                    plan,
                    files@,
                    output_root@,
                    keep_structure,
                    root_text(input_root),
                    params,
                )
            },
            Err(BuildError::Config(error)) => {
                &&& keep_structure && input_root is None
                &&& error == ConfigError::KeepStructureNeedsDirectory
            },
            Err(BuildError::PathMapping { file, reason }) => {
                &&& !(keep_structure && input_root is None)
                &&& file < files@.len()
                &&& destination_of(
                    files@[file as int]@,
                    output_root@,
                    keep_structure,
                    root_text(input_root),
                ) == Err::<Seq<char>, PathMappingError>(reason)
                &&& forall|k: int|
                    0 <= k < file ==> (#[trigger] destination_of(
                        files@[k]@,
                        output_root@,
                        keep_structure,
                        root_text(input_root),
                    )) is Ok
            },
        },
{
    let root: &str = match input_root {
        Some(root) => root,
        None => {
            if keep_structure {
                return Err(BuildError::Config(ConfigError::KeepStructureNeedsDirectory));
            }
            proof {
                reveal_strlit("");
            }
            ""
        },
    };
    assert(root@ =~= root_text(input_root));
    let mut jobs: Vec<Job> = Vec::new();
    let mut directories: Vec<String> = Vec::new();
    let mut i: usize = 0;
    while i < files.len()
        invariant
            i <= files.len(),
            root@ == root_text(input_root),
            !(keep_structure && input_root is None),
            jobs@.len() == i,
            forall|k: int|
                0 <= k < i ==> {
                    &&& (#[trigger] jobs@[k]).source@ == files@[k]@
                    &&& destination_of(files@[k]@, output_root@, keep_structure, root@) == Ok::<
                        Seq<char>,
                        PathMappingError,
                    >(jobs@[k].destination@)
                    &&& jobs@[k].params == params
                },
            keep_structure ==> directories@.len() == i,
            keep_structure ==> forall|k: int|
                0 <= k < i ==> (#[trigger] directories@[k])@ == path_pop(jobs@[k].destination@),
            !keep_structure ==> directories@.len() == 0,
        decreases files.len() - i,
    {
        let file = &files[i];
        match destination(file.as_str(), output_root, keep_structure, root) {
            Err(reason) => {
                assert forall|k: int| 0 <= k < i implies (#[trigger] destination_of(
                    files@[k]@,
                    output_root@,
                    keep_structure,
                    root@,
                )) is Ok by {
                    assert(jobs@[k].source@ == files@[k]@);
                }
                return Err(BuildError::PathMapping { file: i, reason });
            },
            Ok(target) => {
                if keep_structure {
                    directories.push(pop(target.as_str()));
                }
                jobs.push(Job { source: file.clone(), destination: target, params });
            },
        }
        i += 1;
    }
    Ok(BuildPlan { jobs, directories })
}

} // verus!
