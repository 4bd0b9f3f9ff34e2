//! Resolution: turning candidate lists and probe answers into a located
//! engine binary and data prefix, or a precise early error. The selection
//! logic is pure — it is verified against every combination of probe
//! answers — and the probing composites state what holds of whatever the
//! filesystem answered.

use vstd::prelude::*;
use vstd::string::StringExecFns;
use crate::candidates::data_candidates;
use crate::candidates::engine_candidates;
use crate::candidates::opt_str_view;
use crate::candidates::spec_data_candidates;
use crate::candidates::spec_engine_candidates;
use crate::candidates::views_of;
use crate::error::OcrError;
use crate::probe::probe_paths;
use crate::text::path_join;
use crate::text::spec_path_join;

verus! {

/// `i` is the first index whose probe answered true.
pub open spec fn is_first_hit(present: Seq<bool>, i: int) -> bool {
    &&& 0 <= i < present.len()
    &&& present[i]
    &&& forall|j: int| 0 <= j < i ==> !present[j]
}

/// Every probe answered false.
pub open spec fn no_hit(present: Seq<bool>) -> bool {
    forall|i: int| 0 <= i < present.len() ==> !present[i]
}

/// `p` is one of the listed path views.
pub open spec fn contains_view(l: Seq<Seq<char>>, p: Seq<char>) -> bool {
    exists|i: int| 0 <= i < l.len() && l[i] == p
}

/// Picks the first candidate whose probe answered true; `None` when every
/// probe answered false.
pub fn select_candidate(candidates: &Vec<String>, present: &Vec<bool>) -> (r: Option<String>)
    requires
        candidates@.len() == present@.len(),
    ensures
        match r {
            Some(p) => exists|i: int| is_first_hit(present@, i) && p@ == candidates@[i]@,
            None => no_hit(present@),
        },
{
    let mut i: usize = 0;
    while i < candidates.len()
        invariant
            i <= candidates@.len(),
            candidates@.len() == present@.len(),
            forall|j: int| 0 <= j < i ==> !present@[j],
        decreases candidates@.len() - i,
    {
        if present[i] {
            let p = candidates[i].clone();
            proof {
                assert(is_first_hit(present@, i as int));
            }
            return Some(p);
        }
        i = i + 1;
    }
    None
}

/// The file that makes a directory a valid data prefix for `language`.
pub open spec fn spec_traineddata_file(dir: Seq<char>, language: Seq<char>) -> Seq<char> {
    spec_path_join(dir, language + ".traineddata"@)
}

/// For each candidate directory, the path of the trained-data file that
/// would make it a valid prefix for `language`.
pub fn traineddata_paths(dirs: &Vec<String>, language: &str) -> (r: Vec<String>)
    ensures
        r@.len() == dirs@.len(),
        forall|i: int|
            0 <= i < r@.len() ==> r@[i]@ == spec_traineddata_file(dirs@[i]@, language@),
{
    let mut file_name = language.to_owned();
    file_name.append(".traineddata");
    let mut r: Vec<String> = Vec::new();
    let mut i: usize = 0;
    while i < dirs.len()
        invariant
            i <= dirs@.len(),
            r@.len() == i,
            file_name@ == language@ + ".traineddata"@,
            forall|j: int|
                0 <= j < i ==> r@[j]@ == spec_traineddata_file(dirs@[j]@, language@),
        decreases dirs@.len() - i,
    {
        r.push(path_join(dirs[i].as_str(), file_name.as_str()));
        i = i + 1;
    }
    r
}

/// The outcome of successful resolution: where the engine binary lives,
/// which directory holds the trained data, and the language it was resolved
/// for. Immutable once produced, scoped to a single invocation.
pub struct ResolvedEnvironment {
    pub engine_path: String,
    pub data_prefix: String,
    pub language: String,
}

/// The pure resolution rule, on the probe answers alone. The engine is
/// resolved first: when no engine probe hit, the result is `EngineNotFound`
/// whatever the data probes answered; when the engine resolved but no data
/// probe hit, the result is `DataNotFound` with the language; otherwise the
/// first hit of each list wins.
pub fn resolve_from_probes(
    engine_cands: &Vec<String>,
    engine_present: &Vec<bool>,
    data_cands: &Vec<String>,
    data_present: &Vec<bool>,
    language: &str,
) -> (r: Result<ResolvedEnvironment, OcrError>)
    requires
        engine_cands@.len() == engine_present@.len(),
        data_cands@.len() == data_present@.len(),
    ensures
        no_hit(engine_present@) ==> (r matches Err(e) && e is EngineNotFound),
        !no_hit(engine_present@) && no_hit(data_present@) ==> (r matches Err(e) && e matches OcrError::DataNotFound(l) && l@ == language@),
        !no_hit(engine_present@) && !no_hit(data_present@) ==> (r matches Ok(env) && env.language@ == language@ && (exists|i: int|
            is_first_hit(engine_present@, i) && env.engine_path@ == engine_cands@[i]@) && (exists|j: int|
            is_first_hit(data_present@, j) && env.data_prefix@ == data_cands@[j]@)),
{
    match select_candidate(engine_cands, engine_present) {
        None => Err(OcrError::EngineNotFound),
        Some(engine_path) => {
            match select_candidate(data_cands, data_present) {
                None => Err(OcrError::DataNotFound(language.to_owned())),
                Some(data_prefix) => Ok(
                    ResolvedEnvironment {
                        engine_path,
                        data_prefix,
                        language: language.to_owned(),
                    },
                ),
            }
        },
    }
}

/// Finds the engine binary among the given candidate paths: the first that
/// is an existing regular file wins; `EngineNotFound` when none is.
pub fn locate_engine_in(candidates: &Vec<String>) -> (r: Result<String, OcrError>)
    ensures
        r matches Ok(p) ==> contains_view(views_of(candidates@), p@),
        r matches Err(e) ==> e is EngineNotFound,
{
    let present = probe_paths(candidates);
    match select_candidate(candidates, &present) {
        Some(p) => {
            proof {
                let i = choose|i: int| is_first_hit(present@, i) && p@ == candidates@[i]@;
                assert(views_of(candidates@)[i] == candidates@[i]@);
            }
            Ok(p)
        },
        None => Err(OcrError::EngineNotFound),
    }
}

/// Finds a data prefix for `language` among the given candidate
/// directories: the first directory that directly contains
/// `<language>.traineddata` wins — the probe is always on that file, never
/// on the directory alone — and exhaustion is `DataNotFound` with the
/// language, never a silent fallback.
pub fn locate_data_prefix_in(language: &str, dirs: &Vec<String>) -> (r: Result<String, OcrError>)
    ensures
        r matches Ok(d) ==> contains_view(views_of(dirs@), d@),
        r matches Err(e) ==> (e matches OcrError::DataNotFound(l) && l@ == language@),
{
    let files = traineddata_paths(dirs, language);
    let present = probe_paths(&files);
    match select_candidate(dirs, &present) {
        Some(d) => {
            proof {
                let i = choose|i: int| is_first_hit(present@, i) && d@ == dirs@[i]@;
                assert(views_of(dirs@)[i] == dirs@[i]@);
            }
            Ok(d)
        },
        None => Err(OcrError::DataNotFound(language.to_owned())),
    }
}

/// Finds the engine binary from the caller's environment: the bundled
/// binary beside the executable first, then the explicit override, then
/// system install paths.
pub fn locate_engine(exe_dir: &str, env_override: Option<&str>) -> (r: Result<String, OcrError>)
    ensures
        r matches Ok(p) ==> contains_view(
            spec_engine_candidates(exe_dir@, opt_str_view(env_override)),
            p@,
        ),
        r matches Err(e) ==> e is EngineNotFound,
{
    let candidates = engine_candidates(exe_dir, env_override);
    locate_engine_in(&candidates)
}

/// Finds the data prefix for `language` from the caller's environment,
/// probing the override, resource-bundle and system candidates in order.
pub fn locate_data_prefix(
    language: &str,
    exe_dir: &str,
    env_prefix: Option<&str>,
    resource_dir: Option<&str>,
) -> (r: Result<String, OcrError>)
    ensures
        r matches Ok(d) ==> contains_view(
            spec_data_candidates(exe_dir@, opt_str_view(env_prefix), opt_str_view(resource_dir)),
            d@,
        ),
        r matches Err(e) ==> (e matches OcrError::DataNotFound(l) && l@ == language@),
{
    let dirs = data_candidates(exe_dir, env_prefix, resource_dir);
    locate_data_prefix_in(language, &dirs)
}

/// Resolves the whole environment of one invocation: engine binary first,
/// then data prefix. A missing engine is reported as `EngineNotFound`
/// whatever the data probes would say; a missing data file as
/// `DataNotFound` with the requested language.
pub fn resolve_environment(
    language: &str,
    exe_dir: &str,
    engine_override: Option<&str>,
    data_prefix_override: Option<&str>,
    resource_dir: Option<&str>,
) -> (r: Result<ResolvedEnvironment, OcrError>)
    ensures
        r matches Ok(env) ==> env.language@ == language@ && contains_view(
            spec_engine_candidates(exe_dir@, opt_str_view(engine_override)),
            env.engine_path@,
        ) && contains_view(
            spec_data_candidates(
                exe_dir@,
                opt_str_view(data_prefix_override),
                opt_str_view(resource_dir),
            ),
            env.data_prefix@,
        ),
        r matches Err(e) ==> (e is EngineNotFound || (e matches OcrError::DataNotFound(l) && l@
            == language@)),
{
    let engine_cands = engine_candidates(exe_dir, engine_override);
    let engine_present = probe_paths(&engine_cands);
    let data_cands = data_candidates(exe_dir, data_prefix_override, resource_dir);
    let data_files = traineddata_paths(&data_cands, language);
    let data_present = probe_paths(&data_files);
    let r = resolve_from_probes(&engine_cands, &engine_present, &data_cands, &data_present, language);
    proof {
        match r {
            Ok(ref env) => {
                let i = choose|i: int|
                    is_first_hit(engine_present@, i) && env.engine_path@ == engine_cands@[i]@;
                assert(views_of(engine_cands@)[i] == engine_cands@[i]@);
                let j = choose|j: int|
                    is_first_hit(data_present@, j) && env.data_prefix@ == data_cands@[j]@;
                assert(views_of(data_cands@)[j] == data_cands@[j]@);
            },
            Err(_) => {},
        }
    }
    r
}

} // verus!
