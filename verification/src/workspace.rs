//! The scratch workspace of one invocation: an isolated temporary
//! directory holding the staged input image and the output prefix the
//! engine writes beside. Uniqueness of the directory is delegated to the
//! platform's temporary-directory primitive, never hand-rolled; cleanup is
//! best-effort and idempotent.

use vstd::prelude::*;
use crate::error::OcrError;
use crate::text::path_join;
use crate::text::spec_path_join;

verus! {

#[verifier::external_type_specification]
#[verifier::external_body]
pub struct ExTempDir(tempfile::TempDir);

/// Relies on `tempfile::tempdir`: creates a fresh, uniquely named
/// temporary directory, or reports the operating system's error as text.
/// Which path it gets depends on the machine, so nothing is promised of it.
#[verifier::external_body]
fn create_temp_dir() -> Result<tempfile::TempDir, String> {
    tempfile::tempdir().map_err(|e| e.to_string())
}

/// Relies on `tempfile::TempDir::path`: the created directory's path, as
/// text. The path is machine-chosen, so nothing is promised of it.
#[verifier::external_body]
fn temp_dir_path(d: &tempfile::TempDir) -> String {
    d.path().to_string_lossy().into_owned()
}

/// Relies on `tempfile::TempDir::close`: removes the directory and all its
/// contents. A failure to delete is dropped, never escalated.
#[verifier::external_body]
fn close_temp_dir(d: tempfile::TempDir) {
    let _ = d.close();
}

/// One invocation's isolated scratch area: the directory, the fixed-name
/// input file inside it, and the extensionless output prefix inside it.
pub struct ScratchWorkspace {
    pub handle: Option<tempfile::TempDir>,
    pub dir: String,
    pub input_path: String,
    pub output_prefix: String,
}

impl ScratchWorkspace {
    /// Both staged paths live directly inside this workspace's directory.
    pub open spec fn wf(&self) -> bool {
        &&& self.input_path@ == spec_path_join(self.dir@, "input.png"@)
        &&& self.output_prefix@ == spec_path_join(self.dir@, "output"@)
    }

    /// Whether the workspace still owns its directory; destroyed
    /// workspaces keep their paths but no longer own anything on disk.
    pub open spec fn active(&self) -> bool {
        self.handle is Some
    }

    /// Creates a fresh, isolated workspace in a uniquely named temporary
    /// directory.
    pub fn create() -> (r: Result<ScratchWorkspace, OcrError>)
        ensures
            r matches Ok(ws) ==> ws.wf() && ws.active(),
            r matches Err(e) ==> e is IoError,
    {
        match create_temp_dir() {
            Err(msg) => Err(OcrError::IoError(msg)),
            Ok(d) => {
                let dir = temp_dir_path(&d);
                let input_path = path_join(dir.as_str(), "input.png");
                let output_prefix = path_join(dir.as_str(), "output");
                Ok(ScratchWorkspace { handle: Some(d), dir, input_path, output_prefix })
            },
        }
    }

    /// Removes the workspace's directory, best-effort. Calling it again on
    /// an already-destroyed workspace does nothing; the recorded paths are
    /// kept either way.
    pub fn destroy(&mut self)
        ensures
            !final(self).active(),
            final(self).dir == old(self).dir,
            final(self).input_path == old(self).input_path,
            final(self).output_prefix == old(self).output_prefix,
    {
        match self.handle.take() {
            Some(d) => close_temp_dir(d),
            None => (),
        }
    }
}

proof fn lemma_concat_suffix_cancel<A>(a: Seq<A>, b: Seq<A>, s: Seq<A>)
    requires
        a + s == b + s,
    ensures
        a == b,
{
    assert((a + s).len() == a.len() + s.len());
    assert((b + s).len() == b.len() + s.len());
    assert(a.len() == b.len());
    assert(a =~= (a + s).subrange(0, a.len() as int));
    assert(b =~= (b + s).subrange(0, b.len() as int));
}

/// Workspace isolation: two workspaces whose directories differ stage
/// their inputs through different files and collect their outputs through
/// different prefixes, so neither can observe the other's files.
pub proof fn lemma_workspace_isolation(a: ScratchWorkspace, b: ScratchWorkspace)
    requires
        a.wf(),
        b.wf(),
        a.dir@ != b.dir@,
    ensures
        a.input_path@ != b.input_path@,
        a.output_prefix@ != b.output_prefix@,
{
    if a.input_path@ == b.input_path@ {
        lemma_concat_suffix_cancel(a.dir@ + "/"@, b.dir@ + "/"@, "input.png"@);
        lemma_concat_suffix_cancel(a.dir@, b.dir@, "/"@);
    }
    if a.output_prefix@ == b.output_prefix@ {
        lemma_concat_suffix_cancel(a.dir@ + "/"@, b.dir@ + "/"@, "output"@);
        lemma_concat_suffix_cancel(a.dir@, b.dir@, "/"@);
    }
}

} // verus!
