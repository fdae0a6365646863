//! The kernel build driver's decisions: rebuild-trigger declarations,
//! compiler command-line construction, classification of the compiler's
//! outcome into a build report, and host-side compile and link planning.
//!
//! All functions here are pure: the process spawning and the printing of
//! directives are performed by the caller from the plans and reports built
//! here.

use vstd::prelude::*;

use crate::arch::{spec_compute, spec_sm, GpuArchitecture};
use crate::text::{dec_rep_signed, push_dec_signed};

verus! {

/// The prefix of a declaration telling the host build tool to rerun the
/// build when a file changes.
pub open spec fn rerun_prefix() -> Seq<char> {
    "cargo:rerun-if-changed="@
}

/// The rebuild-trigger declaration for one source path.
pub open spec fn spec_rerun_line(path: Seq<char>) -> Seq<char> {
    rerun_prefix() + path
}

/// One rebuild-trigger declaration per source path, in the order supplied.
pub fn rerun_lines(paths: &Vec<String>) -> (r: Vec<String>)
    ensures
        r@.len() == paths@.len(),
        forall|i: int| 0 <= i < r@.len() ==> r@[i]@ == spec_rerun_line(paths@[i]@),
{
    let mut r: Vec<String> = Vec::new();
    let mut i: usize = 0;
    while i < paths.len()
        invariant
            i <= paths@.len(),
            r@.len() == i,
            forall|j: int| 0 <= j < i ==> r@[j]@ == spec_rerun_line(paths@[j]@),
        decreases paths@.len() - i,
    {
        let line = String::from_str("cargo:rerun-if-changed=").concat(paths[i].as_str());
        r.push(line);
        i = i + 1;
    }
    r
}

/// The argument vector for one kernel compilation: the entry-point source,
/// the minimum virtual-architecture flag, the request for the intermediate
/// portable format, the optimization level, and the explicit output path
/// `<filename>.ptx`.
pub fn ptx_args(min_arch: GpuArchitecture, cuda_files: &Vec<String>, filename: &str) -> (r: Vec<
    String,
>)
    requires
        cuda_files@.len() >= 1,
    ensures
        r@.len() == 6,
        r@[0]@ == cuda_files@[0]@,
        r@[1]@ == spec_compute(min_arch),
        r@[2]@ == "-ptx"@,
        r@[3]@ == "-O3"@,
        r@[4]@ == "-o"@,
        r@[5]@ == filename@ + ".ptx"@,
{
    let mut r: Vec<String> = Vec::new();
    r.push(cuda_files[0].clone());
    r.push(min_arch.compute_val());
    r.push(String::from_str("-ptx"));
    r.push(String::from_str("-O3"));
    r.push(String::from_str("-o"));
    r.push(String::from_str(filename).concat(".ptx"));
    r
}

/// Everything the caller needs to perform one kernel compilation: the
/// rebuild-trigger declarations to emit, the compiler to spawn, and its
/// arguments.
pub struct PtxPlan {
    /// Rebuild-trigger declarations, one per source path, in order.
    pub rerun: Vec<String>,
    /// The external kernel compiler to spawn.
    pub program: String,
    /// The argument vector to hand to the compiler.
    pub args: Vec<String>,
}

impl PtxPlan {
    /// A well-formed plan for the given request.
    pub open spec fn wf(
        self,
        min_arch: GpuArchitecture,
        cuda_files: Seq<Seq<char>>,
        filename: Seq<char>,
    ) -> bool {
        &&& self.rerun@.len() == cuda_files.len()
        &&& forall|i: int|
            0 <= i < cuda_files.len() ==> self.rerun@[i]@ == spec_rerun_line(cuda_files[i])
        &&& self.program@ == "nvcc"@
        &&& self.args@.len() == 6
        &&& cuda_files.len() >= 1 ==> self.args@[0]@ == cuda_files[0]
        &&& self.args@[1]@ == spec_compute(min_arch)
        &&& self.args@[2]@ == "-ptx"@
        &&& self.args@[3]@ == "-O3"@
        &&& self.args@[4]@ == "-o"@
        &&& self.args@[5]@ == filename + ".ptx"@
    }
}

/// Plans one kernel compilation. An empty source list is a no-op, not an
/// error: no plan is produced and the caller must spawn nothing. Otherwise
/// the plan's first source is the entry point and every source gets a
/// rebuild-trigger declaration.
pub fn plan_ptx(min_arch: GpuArchitecture, cuda_files: &Vec<String>, filename: &str) -> (r: Option<
    PtxPlan,
>)
    ensures
        r is Some <==> cuda_files@.len() >= 1,
        r is Some ==> r->Some_0.wf(
            min_arch,
            cuda_files@.map_values(|s: String| s@),
            filename@,
        ),
{
    if cuda_files.len() < 1 {
        return None;
    }
    let rerun = rerun_lines(cuda_files);
    let args = ptx_args(min_arch, cuda_files, filename);
    let plan = PtxPlan { rerun, program: String::from_str("nvcc"), args };
    proof {
        let ghost files = cuda_files@.map_values(|s: String| s@);
        assert(forall|i: int| 0 <= i < files.len() ==> files[i] == cuda_files@[i]@);
    }
    Some(plan)
}

/// What the caller observed of one attempt to run the compiler, as plain
/// values: either the process ran to completion, or it could not be spawned
/// at all.
pub enum SpawnOutcome {
    /// The process ran; whether it succeeded, its exit code if one was
    /// available, and its captured output streams decoded permissively.
    Finished { success: bool, code: Option<i32>, stdout: String, stderr: String },
    /// The process could not be spawned; the reported reason.
    SpawnError { reason: String },
}

/// How the build must proceed after one compiler invocation.
pub enum BuildReport {
    /// The compiler succeeded: an informational message naming the inputs.
    Success { message: String },
    /// The compiler ran and failed: a fatal diagnostic carrying the exit
    /// status and both captured output streams.
    CompileFailure { diagnostic: String },
    /// The compiler could not be spawned: a fatal diagnostic naming the
    /// spawn error. Fatal because the artifact is absent either way.
    SpawnFailure { diagnostic: String },
}

/// The textual form of an exit status: the exit code in decimal, or a note
/// that the process was ended by a signal when no code was available.
pub open spec fn spec_status_rep(code: Option<i32>) -> Seq<char> {
    match code {
        Some(c) => dec_rep_signed(c as int),
        None => "terminated by signal"@,
    }
}

/// The informational message naming the compiled inputs.
pub open spec fn spec_success_message(files: Seq<Seq<char>>) -> Seq<char> {
    "Compiled the following PTX files: ["@ + spec_file_list(files) + "]"@
}

/// The source paths, each in quotes, separated by commas.
pub open spec fn spec_file_list(files: Seq<Seq<char>>) -> Seq<char>
    decreases files.len(),
{
    if files.len() == 0 {
        Seq::empty()
    } else if files.len() == 1 {
        seq!['"'] + files[0] + seq!['"']
    } else {
        spec_file_list(files.drop_last()) + ", "@ + seq!['"'] + files.last() + seq!['"']
    }
}

/// The fatal diagnostic for a compiler run that exited unsuccessfully:
/// names the exit status and carries both captured output streams.
pub open spec fn spec_failure_diagnostic(
    code: Option<i32>,
    stdout: Seq<char>,
    stderr: Seq<char>,
) -> Seq<char> {
    "CUDA PTX compilation problem:\nstatus: "@ + spec_status_rep(code) + "\nstdout: "@ + stdout
        + "\nstderr: "@ + stderr
}

/// The fatal diagnostic for a compiler that could not be spawned.
pub open spec fn spec_spawn_diagnostic(reason: Seq<char>) -> Seq<char> {
    "Unable to compile PTX: "@ + reason
}

/// Renders an exit status.
fn status_string(code: &Option<i32>) -> (r: String)
    ensures
        r@ == spec_status_rep(*code),
{
    match code {
        Some(c) => {
            let mut s = String::new();
            push_dec_signed(&mut s, *c);
            proof {
                assert(s@ =~= spec_status_rep(*code));
            }
            s
        },
        None => String::from_str("terminated by signal"),
    }
}

/// Renders the quoted, comma-separated list of source paths.
fn file_list_string(files: &Vec<String>) -> (r: String)
    ensures
        r@ == spec_file_list(files@.map_values(|s: String| s@)),
{
    let ghost views = files@.map_values(|s: String| s@);
    let mut s = String::new();
    let mut i: usize = 0;
    proof {
        assert(s@ =~= spec_file_list(views.take(0)));
    }
    while i < files.len()
        invariant
            i <= files@.len(),
            views == files@.map_values(|s: String| s@),
            s@ == spec_file_list(views.take(i as int)),
        decreases files@.len() - i,
    {
        if i > 0 {
            s.append(", ");
        }
        s.append("\"");
        s.append(files[i].as_str());
        s.append("\"");
        proof {
            let taken = views.take(i as int + 1);
            assert(taken.drop_last() =~= views.take(i as int));
            assert(taken.last() == files@[i as int]@);
            assert(("\"")@ =~= seq!['"']) by {
                reveal_strlit("\"");
            }
            assert(s@ =~= spec_file_list(taken));
        }
        i = i + 1;
    }
    proof {
        assert(views.take(files@.len() as int) =~= views);
    }
    s
}

/// Classifies one compiler invocation's outcome. A successful run yields an
/// informational success message and is the only non-fatal report; a run
/// that exited unsuccessfully and a process that could not be spawned both
/// yield fatal diagnostics, since the artifact is missing in either case.
pub fn classify(outcome: &SpawnOutcome, cuda_files: &Vec<String>) -> (r: BuildReport)
    ensures
        match *outcome {
            SpawnOutcome::Finished { success: true, .. } => r matches BuildReport::Success {
                message,
            } && message@ == spec_success_message(cuda_files@.map_values(|s: String| s@)),
            SpawnOutcome::Finished { success: false, code, ref stdout, ref stderr } => r matches BuildReport::CompileFailure {
                diagnostic,
            } && diagnostic@ == spec_failure_diagnostic(code, stdout@, stderr@),
            SpawnOutcome::SpawnError { ref reason } => r matches BuildReport::SpawnFailure {
                diagnostic,
            } && diagnostic@ == spec_spawn_diagnostic(reason@),
        },
{
    match outcome {
        SpawnOutcome::Finished { success, code, stdout, stderr } => {
            if *success {
                let message = String::from_str("Compiled the following PTX files: [").concat(
                    file_list_string(cuda_files).as_str(),
                ).concat("]");
                proof {
                    assert(message@ =~= spec_success_message(
                        cuda_files@.map_values(|s: String| s@),
                    ));
                }
                BuildReport::Success { message }
            } else {
                let mut diagnostic = String::from_str("CUDA PTX compilation problem:\nstatus: ");
                diagnostic.append(status_string(code).as_str());
                diagnostic.append("\nstdout: ");
                diagnostic.append(stdout.as_str());
                diagnostic.append("\nstderr: ");
                diagnostic.append(stderr.as_str());
                proof {
                    assert(diagnostic@ =~= spec_failure_diagnostic(*code, stdout@, stderr@));
                }
                BuildReport::CompileFailure { diagnostic }
            }
        },
        SpawnOutcome::SpawnError { reason } => {
            let diagnostic = String::from_str("Unable to compile PTX: ").concat(reason.as_str());
            proof {
                assert(diagnostic@ =~= spec_spawn_diagnostic(reason@));
            }
            BuildReport::SpawnFailure { diagnostic }
        },
    }
}

impl BuildReport {
    /// Whether this report must abort the build: every report but a success
    /// is fatal, since a failed or missing compilation leaves no artifact
    /// for downstream code.
    pub fn is_fatal(&self) -> (r: bool)
        ensures
            r == !(*self is Success),
    {
        match self {
            BuildReport::Success { .. } => false,
            BuildReport::CompileFailure { .. } => true,
            BuildReport::SpawnFailure { .. } => true,
        }
    }

    /// The report's message or diagnostic text.
    pub fn text(&self) -> (r: &String)
        ensures
            r@ == match *self {
                BuildReport::Success { ref message } => message@,
                BuildReport::CompileFailure { ref diagnostic } => diagnostic@,
                BuildReport::SpawnFailure { ref diagnostic } => diagnostic@,
            },
    {
        match self {
            BuildReport::Success { message } => message,
            BuildReport::CompileFailure { diagnostic } => diagnostic,
            BuildReport::SpawnFailure { diagnostic } => diagnostic,
        }
    }
}

/// A host operating system the driver knows how to link on.
#[derive(Copy, Clone, PartialEq, Eq, Structural, Debug)]
pub enum HostOs {
    Windows,
    Linux,
}

/// The driver's errors. The only recoverable decision it makes is refusing
/// to plan host-side linking for a platform it does not recognize.
#[derive(Copy, Clone, PartialEq, Eq, Structural, Debug)]
pub enum BuildError {
    /// Host-side compilation was requested on an operating system with no
    /// known toolkit library layout.
    UnsupportedPlatform,
}

/// The toolkit installation root: the environment's value when one is set,
/// else the fixed default location.
pub fn cuda_root(env_value: Option<String>) -> (r: String)
    ensures
        match env_value {
            Some(ref v) => r@ == v@,
            None => r@ == "/usr/local/cuda"@,
        },
{
    match env_value {
        Some(v) => v,
        None => String::from_str("/usr/local/cuda"),
    }
}

/// The flags handed to the host-side compiler: optimization level, the
/// real-architecture flag, and position-independent code on Linux.
pub fn host_compile_flags(min_arch: GpuArchitecture, os: HostOs) -> (r: Vec<String>)
    ensures
        r@.len() == (if os is Linux {
            3int
        } else {
            2int
        }),
        r@[0]@ == "-O3"@,
        r@[1]@ == spec_sm(min_arch),
        os is Linux ==> r@[2]@ == "-Xcompiler=-fPIC"@,
{
    let mut r: Vec<String> = Vec::new();
    r.push(String::from_str("-O3"));
    r.push(min_arch.sm_val());
    if let HostOs::Linux = os {
        r.push(String::from_str("-Xcompiler=-fPIC"));
    }
    r
}

/// The link-search-path declaration for the toolkit's library directory,
/// whose layout differs by operating system.
pub open spec fn spec_link_search_line(os: HostOs, root: Seq<char>) -> Seq<char> {
    match os {
        HostOs::Windows => "cargo:rustc-link-search=native="@ + root + "\\lib\\x64"@,
        HostOs::Linux => "cargo:rustc-link-search=native="@ + root + "/lib64"@,
    }
}

/// The link-time declarations for host-side compilation: the toolkit's
/// library search path for the platform, then the transform library to link.
pub fn host_link_lines(os: HostOs, root: &str) -> (r: Vec<String>)
    ensures
        r@.len() == 2,
        r@[0]@ == spec_link_search_line(os, root@),
        r@[1]@ == "cargo:rustc-link-lib=cufft"@,
{
    let mut r: Vec<String> = Vec::new();
    let mut search = String::from_str("cargo:rustc-link-search=native=");
    search.append(root);
    match os {
        HostOs::Windows => search.append("\\lib\\x64"),
        HostOs::Linux => search.append("/lib64"),
    }
    proof {
        assert(search@ =~= spec_link_search_line(os, root@));
    }
    r.push(search);
    r.push(String::from_str("cargo:rustc-link-lib=cufft"));
    r
}

/// Everything the caller needs to compile host-side source and link it
/// against the toolkit's libraries.
pub struct HostPlan {
    /// Rebuild-trigger declarations, one per source path, in order.
    pub rerun: Vec<String>,
    /// The entry-point source file handed to the host compiler.
    pub entry: String,
    /// The flags handed to the host compiler, in order.
    pub flags: Vec<String>,
    /// The artifact base name handed to the host compiler.
    pub output_name: String,
    /// Link-time declarations to emit after compiling.
    pub link_lines: Vec<String>,
}

impl HostPlan {
    /// A well-formed plan for the given request.
    pub open spec fn wf(
        self,
        min_arch: GpuArchitecture,
        cuda_files: Seq<Seq<char>>,
        filename: Seq<char>,
        os: HostOs,
        root: Seq<char>,
    ) -> bool {
        &&& self.rerun@.len() == cuda_files.len()
        &&& forall|i: int|
            0 <= i < cuda_files.len() ==> self.rerun@[i]@ == spec_rerun_line(cuda_files[i])
        &&& cuda_files.len() >= 1 ==> self.entry@ == cuda_files[0]
        &&& self.flags@.len() == (if os is Linux {
            3int
        } else {
            2int
        })
        &&& self.flags@[0]@ == "-O3"@
        &&& self.flags@[1]@ == spec_sm(min_arch)
        &&& (os is Linux ==> self.flags@[2]@ == "-Xcompiler=-fPIC"@)
        &&& self.output_name@ == filename
        &&& self.link_lines@.len() == 2
        &&& self.link_lines@[0]@ == spec_link_search_line(os, root)
        &&& self.link_lines@[1]@ == "cargo:rustc-link-lib=cufft"@
    }
}

/// Plans one host-side compilation. The operating system must be a
/// recognized one: an unrecognized platform is an error, never a silent
/// no-op, because its library layout is unknown. The toolkit root comes
/// from the environment value, with the fixed default when unset.
pub fn plan_host(
    min_arch: GpuArchitecture,
    cuda_files: &Vec<String>,
    filename: &str,
    os: Option<HostOs>,
    cuda_path_env: Option<String>,
) -> (r: Result<HostPlan, BuildError>)
    requires
        cuda_files@.len() >= 1,
    ensures
        r is Ok <==> os is Some,
        r is Err ==> r->Err_0 == BuildError::UnsupportedPlatform,
        r is Ok ==> r->Ok_0.wf(
            min_arch,
            cuda_files@.map_values(|s: String| s@),
            filename@,
            os->Some_0,
            match cuda_path_env {
                Some(ref v) => v@,
                None => "/usr/local/cuda"@,
            },
        ),
{
    let os = match os {
        Some(os) => os,
        None => {
            return Err(BuildError::UnsupportedPlatform);
        },
    };
    let root = cuda_root(cuda_path_env);
    let rerun = rerun_lines(cuda_files);
    let flags = host_compile_flags(min_arch, os);
    let link_lines = host_link_lines(os, root.as_str());
    let plan = HostPlan {
        rerun,
        entry: cuda_files[0].clone(),
        flags,
        output_name: String::from_str(filename),
        link_lines,
    };
    proof {
        let ghost files = cuda_files@.map_values(|s: String| s@);
        assert(forall|i: int| 0 <= i < files.len() ==> files[i] == cuda_files@[i]@);
    }
    Ok(plan)
}

} // verus!
