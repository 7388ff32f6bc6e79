//! Decision logic of the plugin build and discovery pipeline.
//!
//! One pass runs per analysis: Clear, then one Build per configured
//! source, then Discover. The filesystem work and the external build tool
//! invocations happen outside this crate; everything the pipeline decides
//! — whether the output directory may be cleared, how a build failure
//! stops the pass, and which files count as artifacts — is decided here,
//! over the plain file names the caller observed.
//!
//! The Clear phase refuses to touch a directory holding any file whose
//! extension is not in the platform's fixed allow-list of expected build
//! byproducts: the directory is fully removed afterwards, and blindly
//! deleting a polluted path is an unacceptable risk, so the guard fails
//! fast instead and nothing is deleted. A failing build is terminal for
//! the whole pass: a lint set is all or nothing, and no partial set is
//! ever returned. Discover collects exactly the files carrying the
//! platform's dynamic-library extension.
use vstd::prelude::*;

verus! {

/// The named failure codes a pipeline pass surfaces to its caller.
#[derive(Debug, Clone, Copy, PartialEq, Eq, Structural)]
pub enum ExitStatus {
    /// A lint crate could not be built, or the output directory could not
    /// be cleared for the build.
    LintCrateBuildFail,
}

/// A configured lint crate to build: the location of its build manifest.
#[derive(Debug, Clone, PartialEq, Eq)]
pub struct LintCrateSource {
    /// The path of the source's build manifest, as bytes.
    pub manifest: Vec<u8>,
}

/// A validated build artifact: the path of a dynamic library produced into
/// the output directory.
#[derive(Debug, Clone, PartialEq, Eq)]
pub struct LintCrate {
    /// The artifact's file path, as bytes.
    pub file: Vec<u8>,
}

/// The platform family the pipeline runs on; it fixes the dynamic-library
/// extension and the allow-list of expected build byproducts.
#[derive(Debug, Clone, Copy, PartialEq, Eq, Structural)]
pub enum Platform {
    Linux,
    MacOs,
    Windows,
}

/// Position `i` holds the last dot of the name, with at least one byte
/// before it: exactly the position whose suffix is the file extension.
/// A leading dot hides the name rather than starting an extension.
pub open spec fn is_last_dot(name: Seq<u8>, i: int) -> bool {
    &&& 1 <= i < name.len()
    &&& name[i] == 46u8
    &&& forall|j: int| i < j < name.len() ==> name[j] != 46u8
}

/// The extension of a file name: the bytes after the last dot, provided a
/// dot stands after at least one leading byte; otherwise the name has no
/// extension. `name.` has the empty extension; `.name` and `name` have
/// none.
pub open spec fn spec_extension(name: Seq<u8>) -> Option<Seq<u8>> {
    if exists|i: int| is_last_dot(name, i) {
        let i = choose|i: int| is_last_dot(name, i);
        Some(name.subrange(i + 1, name.len() as int))
    } else {
        None
    }
}

/// A name has at most one last dot.
pub proof fn last_dot_unique(name: Seq<u8>, i: int, j: int)
    requires
        is_last_dot(name, i),
        is_last_dot(name, j),
    ensures
        i == j,
{
    if i < j {
        assert(name[j] != 46u8);
    } else if j < i {
        assert(name[i] != 46u8);
    }
}

/// Computes the extension of a file name, as [`spec_extension`] defines
/// it.
pub fn extension_of(name: &Vec<u8>) -> (r: Option<Vec<u8>>)
    ensures
        match r {
            Some(e) => spec_extension(name@) == Some(e@),
            None => spec_extension(name@) is None,
        },
{
    let n = name.len();
    let mut k: usize = n;
    let mut dot: Option<usize> = None;
    while k > 1 && dot.is_none()
        invariant
            k <= n,
            n == name@.len(),
            match dot {
                Some(d) => is_last_dot(name@, d as int),
                None => forall|j: int| k <= j < n ==> name@[j] != 46u8,
            },
        decreases k,
    {
        k = k - 1;
        if name[k] == 46u8 {
            dot = Some(k);
        }
    }
    match dot {
        Some(d) => {
            proof {
                let w = choose|i: int| is_last_dot(name@, i);
                last_dot_unique(name@, w, d as int);
            }
            let mut e: Vec<u8> = Vec::new();
            let mut i: usize = d + 1;
            while i < n
                invariant
                    d + 1 <= i <= n,
                    n == name@.len(),
                    e@ == name@.subrange(d + 1, i as int),
                decreases n - i,
            {
                e.push(name[i]);
                proof {
                    assert(e@ =~= name@.subrange(d + 1, i + 1));
                }
                i = i + 1;
            }
            proof {
                assert(e@ =~= name@.subrange(d + 1, name@.len() as int));
            }
            Some(e)
        },
        None => {
            proof {
                if exists|i: int| is_last_dot(name@, i) {
                    let i = choose|i: int| is_last_dot(name@, i);
                    assert(name@[i] != 46u8);
                }
            }
            None
        },
    }
}

impl Platform {
    /// The extension of a dynamic library on this platform.
    pub open spec fn spec_dylib_extension(self) -> Seq<u8> {
        match self {
            Platform::Linux => seq![115u8, 111u8],  // "so"
            Platform::MacOs => seq![100u8, 121u8, 108u8, 105u8, 98u8],  // "dylib"
            Platform::Windows => seq![100u8, 108u8, 108u8],  // "dll"
        }
    }

    /// The allow-list of extensions expected as build byproducts in the
    /// output directory: the dynamic-library extension everywhere, and the
    /// extra link artifacts that exist only on one platform family.
    pub open spec fn spec_expected_extensions(self) -> Seq<Seq<u8>> {
        match self {
            Platform::Linux => seq![seq![115u8, 111u8]],
            Platform::MacOs => seq![seq![100u8, 121u8, 108u8, 105u8, 98u8]],
            Platform::Windows => seq![
                seq![100u8, 108u8, 108u8],  // "dll"
                seq![101u8, 120u8, 112u8],  // "exp"
                seq![108u8, 105u8, 98u8],  // "lib"
                seq![112u8, 100u8, 98u8],  // "pdb"
            ],
        }
    }

    /// Whether a file name carries this platform's dynamic-library
    /// extension.
    pub open spec fn spec_is_dylib(self, name: Seq<u8>) -> bool {
        spec_extension(name) == Some(self.spec_dylib_extension())
    }

    /// Whether a file name carries an extension from the allow-list of
    /// expected build byproducts.
    pub open spec fn spec_is_expected(self, name: Seq<u8>) -> bool {
        match spec_extension(name) {
            Some(e) => self.spec_expected_extensions().contains(e),
            None => false,
        }
    }

    /// The extension of a dynamic library on this platform.
    pub fn dylib_extension(&self) -> (r: Vec<u8>)
        ensures
            r@ == self.spec_dylib_extension(),
    {
        let r: Vec<u8> = match self {
            Platform::Linux => vec![115u8, 111u8],
            Platform::MacOs => vec![100u8, 121u8, 108u8, 105u8, 98u8],
            Platform::Windows => vec![100u8, 108u8, 108u8],
        };
        proof {
            assert(r@ =~= self.spec_dylib_extension());
        }
        r
    }

    /// Whether a file name carries this platform's dynamic-library
    /// extension.
    pub fn is_dylib(&self, name: &Vec<u8>) -> (r: bool)
        ensures
            r == self.spec_is_dylib(name@),
    {
        match extension_of(name) {
            Some(e) => bytes_eq(&e, &self.dylib_extension()),
            None => false,
        }
    }

    /// Whether a file name carries an extension from the allow-list of
    /// expected build byproducts.
    pub fn is_expected(&self, name: &Vec<u8>) -> (r: bool)
        ensures
            r == self.spec_is_expected(name@),
    {
        match extension_of(name) {
            Some(e) => {
                if bytes_eq(&e, &self.dylib_extension()) {
                    proof {
                        assert(self.spec_expected_extensions()[0] == e@);
                    }
                    true
                } else {
                    match self {
                        Platform::Linux => {
                            proof {
                                lemma_singleton_contains(self.spec_expected_extensions(), e@);
                            }
                            false
                        },
                        Platform::MacOs => {
                            proof {
                                lemma_singleton_contains(self.spec_expected_extensions(), e@);
                            }
                            false
                        },
                        Platform::Windows => {
                            let exp: Vec<u8> = vec![101u8, 120u8, 112u8];
                            let lib: Vec<u8> = vec![108u8, 105u8, 98u8];
                            let pdb: Vec<u8> = vec![112u8, 100u8, 98u8];
                            let r = bytes_eq(&e, &exp) || bytes_eq(&e, &lib) || bytes_eq(
                                &e,
                                &pdb,
                            );
                            proof {
                                let exts = self.spec_expected_extensions();
                                assert(exts.len() == 4);
                                if !r && exts.contains(e@) {
                                    let i = choose|i: int|
                                        0 <= i < exts.len() && exts[i] == e@;
                                    assert(i == 0 || i == 1 || i == 2 || i == 3);
                                }
                                if r {
                                    assert(exts.contains(e@)) by {
                                        if e@ =~= exp@ {
                                            assert(exts[1] == e@);
                                        } else if e@ =~= lib@ {
                                            assert(exts[2] == e@);
                                        } else {
                                            assert(exts[3] == e@);
                                        }
                                    }
                                }
                            }
                            r
                        },
                    }
                }
            },
            None => false,
        }
    }
}

/// A sequence of one element contains exactly that element.
proof fn lemma_singleton_contains(s: Seq<Seq<u8>>, x: Seq<u8>)
    requires
        s.len() == 1,
    ensures
        s.contains(x) <==> s[0] == x,
{
    if s.contains(x) {
        let i = choose|i: int| 0 <= i < s.len() && s[i] == x;
        assert(i == 0);
    }
    if s[0] == x {
        assert(s.contains(x)) by {
            assert(s[0] == x);
        }
    }
}

/// Whether two byte strings hold the same bytes.
pub fn bytes_eq(a: &Vec<u8>, b: &Vec<u8>) -> (r: bool)
    ensures
        r == (a@ == b@),
{
    if a.len() != b.len() {
        return false;
    }
    let n = a.len();
    let mut i: usize = 0;
    while i < n
        invariant
            0 <= i <= n,
            n == a@.len() && n == b@.len(),
            forall|j: int| 0 <= j < i ==> a@[j] == b@[j],
        decreases n - i,
    {
        if a[i] != b[i] {
            return false;
        }
        i = i + 1;
    }
    proof {
        assert(a@ =~= b@);
    }
    true
}

/// The Clear phase's guard: the output directory may only be cleared if
/// every file in it carries an allow-listed extension. Any other file is
/// an unexpected foreign occupant, and the whole pass fails fast rather
/// than risk deleting unrelated data — nothing is to be deleted on
/// failure.
pub fn clear_guard(platform: Platform, files: &Vec<Vec<u8>>) -> (r: Result<(), ExitStatus>)
    ensures
        r is Ok <==> (forall|i: int|
            0 <= i < files@.len() ==> platform.spec_is_expected(files@[i]@)),
        r is Err ==> r == Err::<(), ExitStatus>(ExitStatus::LintCrateBuildFail),
{
    let n = files.len();
    let mut i: usize = 0;
    while i < n
        invariant
            0 <= i <= n,
            n == files@.len(),
            forall|j: int| 0 <= j < i ==> platform.spec_is_expected(files@[j]@),
        decreases n - i,
    {
        if !platform.is_expected(&files[i]) {
            return Err(ExitStatus::LintCrateBuildFail);
        }
        i = i + 1;
    }
    Ok(())
}

/// Appending an element to a sequence extends its filtered view by the
/// element exactly when the element satisfies the predicate.
proof fn lemma_filter_push<A>(s: Seq<A>, x: A, pred: spec_fn(A) -> bool)
    ensures
        s.push(x).filter(pred) == if pred(x) {
            s.filter(pred).push(x)
        } else {
            s.filter(pred)
        },
{
    reveal(Seq::filter);
    assert(s.push(x).drop_last() =~= s);
    assert(s.push(x).last() == x);
}

/// The Discover phase: every file in the freshly populated output
/// directory carrying the platform's dynamic-library extension becomes
/// one artifact, in directory order; nothing else does.
pub fn discover(platform: Platform, files: &Vec<Vec<u8>>) -> (r: Vec<LintCrate>)
    ensures
        r@.map_values(|c: LintCrate| c.file@) == files@.map_values(|f: Vec<u8>| f@).filter(
            |f: Seq<u8>| platform.spec_is_dylib(f),
        ),
{
    let ghost pred = |f: Seq<u8>| platform.spec_is_dylib(f);
    let ghost view_of = |f: Vec<u8>| f@;
    let ghost file_of = |c: LintCrate| c.file@;
    let n = files.len();
    let mut r: Vec<LintCrate> = Vec::new();
    proof {
        assert(r@.map_values(file_of) =~= Seq::<Seq<u8>>::empty());
        assert(files@.subrange(0, 0).map_values(view_of) =~= Seq::<Seq<u8>>::empty());
        reveal(Seq::filter);
    }
    let mut i: usize = 0;
    while i < n
        invariant
            0 <= i <= n,
            n == files@.len(),
            r@.map_values(file_of) == files@.subrange(0, i as int).map_values(view_of).filter(
                pred,
            ),
            pred == (|f: Seq<u8>| platform.spec_is_dylib(f)),
            view_of == (|f: Vec<u8>| f@),
            file_of == (|c: LintCrate| c.file@),
        decreases n - i,
    {
        let ghost prefix = files@.subrange(0, i as int).map_values(view_of);
        let ghost prev = r@;
        let file = &files[i];
        if platform.is_dylib(file) {
            r.push(LintCrate { file: file.clone() });
            proof {
                assert(r@.map_values(file_of) =~= prev.map_values(file_of).push(
                    files@[i as int]@,
                ));
            }
        }
        proof {
            assert(files@.subrange(0, i + 1).map_values(view_of) =~= prefix.push(
                files@[i as int]@,
            ));
            lemma_filter_push(prefix, files@[i as int]@, pred);
        }
        i = i + 1;
    }
    proof {
        assert(files@.subrange(0, n as int) =~= files@);
    }
    r
}

/// Where a pipeline pass stands.
#[derive(Debug, Clone, Copy, PartialEq, Eq, Structural)]
pub enum PipelinePhase {
    /// The output directory is to be validated and cleared.
    Clear,
    /// The source with this index is to be built.
    Build(usize),
    /// All builds succeeded; the output directory is to be scanned.
    Discover,
    /// The pass finished and the artifacts are available.
    Done,
    /// The pass failed; no artifacts are ever returned.
    Failed,
}

/// The state machine of one pipeline pass: Clear, then one Build per
/// configured source in order, then Discover. The caller performs the
/// filesystem and build-tool work of each phase and reports what it
/// observed; this machine decides every transition. A failure in any
/// phase is terminal, and artifacts exist only once a pass is done — a
/// lint set is all or nothing.
pub struct BuildPipeline {
    /// How many sources are configured.
    pub n_sources: usize,
    /// Where the pass stands.
    pub phase: PipelinePhase,
    /// The artifacts of a finished pass; empty until the pass is done.
    pub artifacts: Vec<LintCrate>,
}

impl BuildPipeline {
    /// Starts a pass over the given number of configured sources.
    pub fn new(n_sources: usize) -> (r: BuildPipeline)
        ensures
            r.n_sources == n_sources,
            r.phase == PipelinePhase::Clear,
            r.artifacts@ == Seq::<LintCrate>::empty(),
    {
        BuildPipeline { n_sources, phase: PipelinePhase::Clear, artifacts: Vec::new() }
    }

    /// Runs the Clear phase's decision on the files found in the output
    /// directory (none when the directory does not exist). On a clean
    /// directory the pass moves to the first build, or straight to
    /// Discover when no source is configured; on a foreign occupant the
    /// pass fails, and the caller must not have deleted anything.
    pub fn clear_checked(&mut self, platform: Platform, files: &Vec<Vec<u8>>) -> (r: Result<(), ExitStatus>)
        requires
            old(self).phase == PipelinePhase::Clear,
        ensures
            final(self).n_sources == old(self).n_sources,
            final(self).artifacts@ == old(self).artifacts@,
            r is Ok <==> (forall|i: int|
                0 <= i < files@.len() ==> platform.spec_is_expected(files@[i]@)),
            r is Ok ==> final(self).phase == if old(self).n_sources == 0 {
                PipelinePhase::Discover
            } else {
                PipelinePhase::Build(0usize)
            },
            r is Err ==> r == Err::<(), ExitStatus>(ExitStatus::LintCrateBuildFail) && final(self).phase == PipelinePhase::Failed,
    {
        match clear_guard(platform, files) {
            Ok(()) => {
                if self.n_sources == 0 {
                    self.phase = PipelinePhase::Discover;
                } else {
                    self.phase = PipelinePhase::Build(0);
                }
                Ok(())
            },
            Err(e) => {
                self.phase = PipelinePhase::Failed;
                Err(e)
            },
        }
    }

    /// Records the outcome of the build the pass is waiting on. A
    /// successful build moves to the next source, or to Discover after
    /// the last; a failed build is terminal for the whole pass.
    pub fn build_finished(&mut self, success: bool) -> (r: Result<(), ExitStatus>)
        requires
            old(self).phase matches PipelinePhase::Build(i) && i < old(self).n_sources,
        ensures
            final(self).n_sources == old(self).n_sources,
            final(self).artifacts@ == old(self).artifacts@,
            old(self).phase matches PipelinePhase::Build(i) ==> {
                &&& success ==> r is Ok && final(self).phase == if i + 1 == old(self).n_sources {
                    PipelinePhase::Discover
                } else {
                    PipelinePhase::Build((i + 1) as usize)
                }
                &&& !success ==> r == Err::<(), ExitStatus>(ExitStatus::LintCrateBuildFail)
                    && final(self).phase == PipelinePhase::Failed
            },
    {
        let i = match self.phase {
            PipelinePhase::Build(i) => i,
            _ => 0,
        };
        if !success {
            self.phase = PipelinePhase::Failed;
            return Err(ExitStatus::LintCrateBuildFail);
        }
        if i + 1 == self.n_sources {
            self.phase = PipelinePhase::Discover;
        } else {
            self.phase = PipelinePhase::Build(i + 1);
        }
        Ok(())
    }

    /// Runs the Discover phase's decision on the files found in the
    /// freshly populated output directory: the pass is done and its
    /// artifacts are exactly the dynamic libraries among them.
    pub fn discover_artifacts(&mut self, platform: Platform, files: &Vec<Vec<u8>>)
        requires
            old(self).phase == PipelinePhase::Discover,
        ensures
            final(self).n_sources == old(self).n_sources,
            final(self).phase == PipelinePhase::Done,
            final(self).artifacts@.map_values(|c: LintCrate| c.file@) == files@.map_values(
                |f: Vec<u8>| f@,
            ).filter(|f: Seq<u8>| platform.spec_is_dylib(f)),
    {
        self.artifacts = discover(platform, files);
        self.phase = PipelinePhase::Done;
    }
}

} // verus!
