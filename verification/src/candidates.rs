//! The ordered candidate lists that the two locators probe. Each list is
//! built fresh per call from the caller's environment values, never cached:
//! the environment may change between calls, and a cached first answer
//! would outlive it.

use vstd::prelude::*;
use vstd::string::StringExecFns;
use crate::text::parent_of;
use crate::text::parent_view;
use crate::text::path_join;
use crate::text::spec_path_join;

verus! {

/// The view of an optional borrowed string.
pub open spec fn opt_str_view(o: Option<&str>) -> Option<Seq<char>> {
    match o {
        Some(s) => Some(s@),
        None => None,
    }
}

/// The views of a list of owned strings.
pub open spec fn views_of(s: Seq<String>) -> Seq<Seq<char>> {
    s.map_values(|x: String| x@)
}

/// The ordered engine-binary candidates: the binary bundled beside the
/// executable first, then the caller's explicit override, then conventional
/// system install paths in decreasing specificity.
pub open spec fn spec_engine_candidates(
    exe_dir: Seq<char>,
    env_override: Option<Seq<char>>,
) -> Seq<Seq<char>> {
    seq![spec_path_join(exe_dir, "tesseract"@)] + (match env_override {
        Some(p) => seq![p],
        None => Seq::<Seq<char>>::empty(),
    }) + seq![
        "/opt/homebrew/bin/tesseract"@,
        "/usr/local/bin/tesseract"@,
        "/usr/bin/tesseract"@,
    ]
}

/// Builds the ordered list of paths where the engine binary may live.
pub fn engine_candidates(exe_dir: &str, env_override: Option<&str>) -> (r: Vec<String>)
    ensures
        views_of(r@) == spec_engine_candidates(exe_dir@, opt_str_view(env_override)),
{
    let mut r: Vec<String> = Vec::new();
    r.push(path_join(exe_dir, "tesseract"));
    match env_override {
        Some(p) => r.push(p.to_owned()),
        None => (),
    }
    r.push(String::from_str("/opt/homebrew/bin/tesseract"));
    r.push(String::from_str("/usr/local/bin/tesseract"));
    r.push(String::from_str("/usr/bin/tesseract"));
    proof {
        assert(views_of(r@) =~= spec_engine_candidates(exe_dir@, opt_str_view(env_override)));
    }
    r
}

/// The ordered data-prefix candidates. The explicit override comes first
/// (itself, then its own `tessdata`, covering both naming conventions), but
/// is one ranked candidate among the rest, not exclusive; then the resource
/// directory's `tessdata` and its bundler-nested `resources/tessdata`; then
/// the same pair under the `Resources` directory beside the executable's
/// parent; then conventional system install paths, most specific first.
pub open spec fn spec_data_candidates(
    exe_dir: Seq<char>,
    env_prefix: Option<Seq<char>>,
    resource_dir: Option<Seq<char>>,
) -> Seq<Seq<char>> {
    (match env_prefix {
        Some(p) => seq![p, spec_path_join(p, "tessdata"@)],
        None => Seq::<Seq<char>>::empty(),
    }) + (match resource_dir {
        Some(rd) => seq![
            spec_path_join(rd, "tessdata"@),
            spec_path_join(spec_path_join(rd, "resources"@), "tessdata"@),
        ],
        None => Seq::<Seq<char>>::empty(),
    }) + (match parent_view(exe_dir) {
        Some(p) => seq![
            spec_path_join(spec_path_join(p, "Resources"@), "tessdata"@),
            spec_path_join(spec_path_join(spec_path_join(p, "Resources"@), "resources"@), "tessdata"@),
        ],
        None => Seq::<Seq<char>>::empty(),
    }) + seq![
        "/opt/homebrew/share/tessdata"@,
        "/usr/local/share/tessdata"@,
        "/usr/share/tesseract-ocr/5/tessdata"@,
        "/usr/share/tesseract-ocr/4.00/tessdata"@,
        "/usr/share/tessdata"@,
    ]
}

/// Builds the ordered list of directories that may directly contain the
/// trained language-data files.
pub fn data_candidates(
    exe_dir: &str,
    env_prefix: Option<&str>,
    resource_dir: Option<&str>,
) -> (r: Vec<String>)
    ensures
        views_of(r@) == spec_data_candidates(
            exe_dir@,
            opt_str_view(env_prefix),
            opt_str_view(resource_dir),
        ),
{
    let mut r: Vec<String> = Vec::new();
    match env_prefix {
        Some(p) => {
            r.push(p.to_owned());
            r.push(path_join(p, "tessdata"));
        },
        None => (),
    }
    match resource_dir {
        Some(rd) => {
            r.push(path_join(rd, "tessdata"));
            let nested = path_join(rd, "resources");
            r.push(path_join(nested.as_str(), "tessdata"));
        },
        None => (),
    }
    match parent_of(exe_dir) {
        Some(p) => {
            let res_root = path_join(p.as_str(), "Resources");
            r.push(path_join(res_root.as_str(), "tessdata"));
            let nested = path_join(res_root.as_str(), "resources");
            r.push(path_join(nested.as_str(), "tessdata"));
        },
        None => (),
    }
    r.push(String::from_str("/opt/homebrew/share/tessdata"));
    r.push(String::from_str("/usr/local/share/tessdata"));
    r.push(String::from_str("/usr/share/tesseract-ocr/5/tessdata"));
    r.push(String::from_str("/usr/share/tesseract-ocr/4.00/tessdata"));
    r.push(String::from_str("/usr/share/tessdata"));
    proof {
        assert(views_of(r@) =~= spec_data_candidates(
            exe_dir@,
            opt_str_view(env_prefix),
            opt_str_view(resource_dir),
        ));
    }
    r
}

} // verus!
