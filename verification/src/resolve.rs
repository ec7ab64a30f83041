use crate::outcome::FatalError;
use vstd::prelude::*;

verus! {

/// One filesystem entry yielded while a single input expression was expanded.
pub enum Entry {
    /// A path the expression matched, together with whether the path is a
    /// regular file at resolution time.
    Found { path: String, is_file: bool },
    /// The enumeration failed at this position (for example: permission
    /// denied while walking a directory).
    ReadError,
}

/// The result of expanding one input path expression against the filesystem.
pub enum Expansion {
    /// The expression was not a well-formed glob pattern.
    PatternError,
    /// The entries the expression matched, in the order the enumeration
    /// yielded them.
    Entries(Vec<Entry>),
}

/// The views of a sequence of owned strings.
pub open spec fn path_views(ss: Seq<String>) -> Seq<Seq<char>> {
    ss.map_values(|s: String| s@)
}

/// What one entry contributes to the resolved input list: its path when it is
/// a regular file, nothing otherwise. Non-file matches are excluded, not
/// merely warned about.
pub open spec fn entry_contribution(e: Entry) -> Seq<Seq<char>> {
    match e {
        Entry::Found { path, is_file } => if is_file {
            seq![path@]
        } else {
            Seq::empty()
        },
        Entry::ReadError => Seq::empty(),
    }
}

/// Whether the enumeration of one expansion's entries hit an error.
pub open spec fn has_read_error(es: Seq<Entry>) -> bool {
    exists|i: int| 0 <= i < es.len() && es[i] is ReadError
}

/// The regular-file paths among `es`, in order.
pub open spec fn selected_paths(es: Seq<Entry>) -> Seq<Seq<char>>
    decreases es.len(),
{
    if es.len() == 0 {
        Seq::empty()
    } else {
        selected_paths(es.drop_last()) + entry_contribution(es.last())
    }
}

/// The fatal error one expansion forces on the whole run, if any.
pub open spec fn expansion_fatal(e: Expansion) -> Option<FatalError> {
    match e {
        Expansion::PatternError => Some(FatalError::InvalidPattern),
        Expansion::Entries(es) => if has_read_error(es@) {
            Some(FatalError::EnumerationError)
        } else {
            None
        },
    }
}

/// The resolved paths one expansion contributes.
pub open spec fn expansion_paths(e: Expansion) -> Seq<Seq<char>> {
    match e {
        Expansion::PatternError => Seq::empty(),
        Expansion::Entries(es) => selected_paths(es@),
    }
}

/// The fatal error of the earliest problematic expansion, if any; expressions
/// are examined in the order they were given.
pub open spec fn first_fatal(exps: Seq<Expansion>) -> Option<FatalError>
    decreases exps.len(),
{
    if exps.len() == 0 {
        None
    } else if expansion_fatal(exps.first()) is Some {
        expansion_fatal(exps.first())
    } else {
        first_fatal(exps.drop_first())
    }
}

/// The resolved input list over all expansions, in order.
pub open spec fn all_selected_paths(exps: Seq<Expansion>) -> Seq<Seq<char>>
    decreases exps.len(),
{
    if exps.len() == 0 {
        Seq::empty()
    } else {
        all_selected_paths(exps.drop_last()) + expansion_paths(exps.last())
    }
}

/// Resolves the expanded input expressions into the concrete list of files to
/// convert. A malformed pattern or an enumeration error anywhere is fatal for
/// the whole run; a matched entry that is not a regular file is excluded; an
/// overall empty resolution is fatal as well.
pub fn resolve_inputs(expansions: &Vec<Expansion>) -> (r: Result<Vec<String>, FatalError>)
    ensures
        ({
            let fatal = first_fatal(expansions@);
            let paths = all_selected_paths(expansions@);
            match r {
                Ok(files) => fatal is None && paths.len() > 0 && path_views(files@) == paths,
                Err(f) => if fatal is Some {
                    fatal == Some(f)
                } else {
                    f == FatalError::NoInputFiles && paths.len() == 0
                },
            }
        }),
{
    let mut files: Vec<String> = Vec::new();
    let mut i: usize = 0;
    proof {
        assert(expansions@.skip(0) =~= expansions@);
        assert(expansions@.take(0) =~= Seq::<Expansion>::empty());
        assert(path_views(files@) =~= Seq::<Seq<char>>::empty());
    }
    while i < expansions.len()
        invariant
            i <= expansions@.len(),
            first_fatal(expansions@) == first_fatal(expansions@.skip(i as int)),
            path_views(files@) == all_selected_paths(expansions@.take(i as int)),
        decreases expansions@.len() - i,
    {
        proof {
            assert(expansions@.skip(i as int).first() == expansions@[i as int]);
            assert(expansions@.skip(i as int).drop_first() =~= expansions@.skip(i as int + 1));
        }
        match &expansions[i] {
            Expansion::PatternError => {
                return Err(FatalError::InvalidPattern);
            },
            Expansion::Entries(entries) => {
                let mut j: usize = 0;
                proof {
                    assert(entries@.take(0) =~= Seq::<Entry>::empty());
                    assert(selected_paths(entries@.take(0)) =~= Seq::<Seq<char>>::empty());
                    assert(path_views(files@) =~= all_selected_paths(expansions@.take(i as int))
                        + selected_paths(entries@.take(0)));
                }
                while j < entries.len()
                    invariant
                        j <= entries@.len(),
                        i < expansions@.len(),
                        expansions@[i as int] == Expansion::Entries(*entries),
                        first_fatal(expansions@) == first_fatal(expansions@.skip(i as int)),
                        forall|k: int| 0 <= k < j ==> !(entries@[k] is ReadError),
                        path_views(files@) == all_selected_paths(expansions@.take(i as int))
                            + selected_paths(entries@.take(j as int)),
                    decreases entries@.len() - j,
                {
                    proof {
                        assert(entries@.take(j as int + 1).drop_last() =~= entries@.take(
                            j as int,
                        ));
                        assert(entries@.take(j as int + 1).last() == entries@[j as int]);
                    }
                    match &entries[j] {
                        Entry::ReadError => {
                            proof {
                                assert(has_read_error(entries@));
                                assert(expansions@.skip(i as int).first() == expansions@[
                                    i as int]);
                            }
                            return Err(FatalError::EnumerationError);
                        },
                        Entry::Found { path, is_file } => {
                            let ghost prev = files@;
                            if *is_file {
                                files.push(path.clone());
                                proof {
                                    assert(path_views(files@) =~= path_views(prev) + seq![
                                        path@,
                                    ]);
                                }
                            }
                            proof {
                                assert(selected_paths(entries@.take(j as int + 1))
                                    == selected_paths(entries@.take(j as int))
                                    + entry_contribution(entries@[j as int]));
                                assert(path_views(files@) =~= all_selected_paths(
                                    expansions@.take(i as int),
                                ) + selected_paths(entries@.take(j as int + 1)));
                            }
                            j += 1;
                        },
                    }
                }
                proof {
                    assert(entries@.take(entries@.len() as int) =~= entries@);
                    assert(!has_read_error(entries@));
                    assert(expansion_fatal(expansions@[i as int]) is None);
                    assert(expansions@.take(i as int + 1).drop_last() =~= expansions@.take(
                        i as int,
                    ));
                    assert(expansions@.take(i as int + 1).last() == expansions@[i as int]);
                    assert(path_views(files@) =~= all_selected_paths(expansions@.take(
                        i as int + 1,
                    )));
                }
            },
        }
        i += 1;
    }
    proof {
        assert(expansions@.skip(expansions@.len() as int) =~= Seq::<Expansion>::empty());
        assert(expansions@.take(expansions@.len() as int) =~= expansions@);
        assert(path_views(files@).len() == files@.len());
    }
    if files.len() == 0 {
        return Err(FatalError::NoInputFiles);
    }
    Ok(files)
}

} // verus!
