use crate::outcome::{FatalError, FileFailure};
use crate::resolve::{all_selected_paths, first_fatal, path_views, resolve_inputs, Expansion};
use vstd::prelude::*;

verus! {

/// What the filesystem reports about the configured output path, gathered
/// once before the batch starts.
#[derive(Clone, Copy, Debug, PartialEq, Eq, Structural)]
pub struct OutputStatus {
    /// The path names an existing filesystem entry.
    pub exists: bool,
    /// The path names an existing regular file.
    pub is_file: bool,
    /// The path names an existing directory.
    pub is_dir: bool,
}

/// The index where a path's base name starts: the position right after the
/// last `'/'` separator, or 0 when the path has no separator.
pub open spec fn base_start(p: Seq<char>) -> int
    decreases p.len(),
{
    if p.len() == 0 {
        0
    } else if p.last() == '/' {
        p.len() as int
    } else {
        base_start(p.drop_last())
    }
}

/// A path has an extractable base name when something follows its last
/// separator.
pub open spec fn has_base_name(p: Seq<char>) -> bool {
    base_start(p) < p.len()
}

/// The base name of a path: everything after the last separator.
pub open spec fn base_name(p: Seq<char>) -> Seq<char> {
    p.subrange(base_start(p), p.len() as int)
}

/// A directory path joined with a base name.
pub open spec fn joined(dir: Seq<char>, name: Seq<char>) -> Seq<char> {
    dir + seq!['/'] + name
}

/// The output path planned for one input: inside an output directory it is
/// the directory joined with the input's base name (`None` when the input has
/// no base name); otherwise it is the configured output path verbatim.
pub open spec fn spec_target(output: Seq<char>, output_is_dir: bool, input: Seq<char>) -> Option<
    Seq<char>,
> {
    if output_is_dir {
        if has_base_name(input) {
            Some(joined(output, base_name(input)))
        } else {
            None
        }
    } else {
        Some(output)
    }
}

/// Checks the precondition the output path must satisfy before any conversion
/// starts: with more than one resolved input it must be an existing
/// directory.
pub fn validate_output(input_count: usize, status: OutputStatus) -> (r: Result<(), FatalError>)
    requires
        input_count >= 1,
    ensures
        r is Err <==> input_count > 1 && (status.is_file || !status.exists),
        r is Err ==> r == Err::<(), FatalError>(FatalError::InvalidOutputTarget),
{
    if input_count > 1 && (status.is_file || !status.exists) {
        Err(FatalError::InvalidOutputTarget)
    } else {
        Ok(())
    }
}

/// The base name of `path`, or `None` when nothing follows its last
/// separator.
pub fn file_name(path: &String) -> (r: Option<String>)
    ensures
        has_base_name(path@) ==> (r matches Some(name) && name@ == base_name(path@)),
        !has_base_name(path@) ==> r is None,
{
    let s = path.as_str();
    let n = s.unicode_len();
    let mut cut: usize = n;
    proof {
        assert(path@.take(n as int) =~= path@);
    }
    while cut > 0 && s.get_char(cut - 1) != '/'
        invariant
            cut <= n,
            n == path@.len(),
            s@ == path@,
            base_start(path@) == base_start(path@.take(cut as int)),
        decreases cut,
    {
        proof {
            assert(path@.take(cut as int).last() == path@[cut as int - 1]);
            assert(path@.take(cut as int).drop_last() =~= path@.take(cut as int - 1));
        }
        cut = cut - 1;
    }
    proof {
        if cut > 0 {
            assert(path@.take(cut as int).last() == path@[cut as int - 1]);
        } else {
            assert(path@.take(0) =~= Seq::<char>::empty());
        }
        assert(base_start(path@) == cut as int);
    }
    if cut == n {
        None
    } else {
        let name = s.substring_char(cut, n);
        Some(String::from_str(name))
    }
}

/// `dir` joined with `name`, with a separator in between.
pub fn join_path(dir: &String, name: &String) -> (r: String)
    ensures
        r@ == joined(dir@, name@),
{
    let mut r = dir.clone();
    r.append("/");
    r.append(name.as_str());
    proof {
        reveal_strlit("/");
        assert(r@ =~= joined(dir@, name@));
    }
    r
}

/// Plans the output path for one input file, following `spec_target`.
pub fn output_target(output: &String, output_is_dir: bool, input: &String) -> (r: Result<
    String,
    FileFailure,
>)
    ensures
        ({
            match spec_target(output@, output_is_dir, input@) {
                Some(t) => r matches Ok(s) && s@ == t,
                None => r == Err::<String, FileFailure>(FileFailure::MissingFileName),
            }
        }),
{
    if output_is_dir {
        match file_name(input) {
            Some(name) => Ok(join_path(output, &name)),
            None => Err(FileFailure::MissingFileName),
        }
    } else {
        Ok(output.clone())
    }
}

/// One unit of work for the conversion pool: a resolved source file and the
/// output path planned for it. A missing target means the base name of the
/// source could not be extracted; the pair is then destined to fail without
/// any conversion being attempted.
pub struct ConversionJob {
    /// The resolved path of the source image.
    pub source: String,
    /// The planned output path, or `None` when the source has no base name.
    pub target: Option<String>,
}

/// Whether one planned job is the right one for `input` under the configured
/// `output` path.
pub open spec fn job_planned(
    job: ConversionJob,
    output: Seq<char>,
    output_is_dir: bool,
    input: Seq<char>,
) -> bool {
    &&& job.source@ == input
    &&& match spec_target(output, output_is_dir, input) {
        Some(t) => job.target matches Some(s) && s@ == t,
        None => job.target is None,
    }
}

/// The whole pre-flight stage of a run: resolves the expanded input
/// expressions, validates the output path against the resolved count, and
/// plans one conversion job per resolved input. Any fatal error aborts before
/// a single job is produced.
pub fn plan_run(expansions: &Vec<Expansion>, output: &String, status: OutputStatus) -> (r: Result<
    Vec<ConversionJob>,
    FatalError,
>)
    ensures
        ({
            let fatal = first_fatal(expansions@);
            let paths = all_selected_paths(expansions@);
            match r {
                Ok(jobs) => {
                    &&& fatal is None
                    &&& paths.len() > 0
                    &&& !(paths.len() > 1 && (status.is_file || !status.exists))
                    &&& jobs@.len() == paths.len()
                    &&& forall|k: int|
                        0 <= k < jobs@.len() ==> job_planned(
                            #[trigger] jobs@[k],
                            output@,
                            status.is_dir,
                            paths[k],
                        )
                },
                Err(f) => {
                    if fatal is Some {
                        fatal == Some(f)
                    } else if paths.len() == 0 {
                        f == FatalError::NoInputFiles
                    } else {
                        &&& f == FatalError::InvalidOutputTarget
                        &&& paths.len() > 1
                        &&& (status.is_file || !status.exists)
                    }
                },
            }
        }),
{
    let files = match resolve_inputs(expansions) {
        Ok(files) => files,
        Err(f) => {
            return Err(f);
        },
    };
    match validate_output(files.len(), status) {
        Ok(()) => {},
        Err(f) => {
            return Err(f);
        },
    }
    let ghost paths = all_selected_paths(expansions@);
    let mut jobs: Vec<ConversionJob> = Vec::new();
    let mut i: usize = 0;
    while i < files.len()
        invariant
            i <= files@.len(),
            path_views(files@) == paths,
            paths.len() == files@.len(),
            jobs@.len() == i,
            forall|k: int|
                0 <= k < i ==> job_planned(#[trigger] jobs@[k], output@, status.is_dir, paths[k]),
        decreases files@.len() - i,
    {
        let source = &files[i];
        let target = match output_target(output, status.is_dir, source) {
            Ok(t) => Some(t),
            Err(_) => None,
        };
        jobs.push(ConversionJob { source: source.clone(), target });
        i += 1;
    }
    Ok(jobs)
}

} // verus!
