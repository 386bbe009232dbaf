//! The build step: the container invocation's argument list, the artifact
//! path convention, and the build's exit status.

use vstd::prelude::*;

verus! {

/// How the containerized build ended. A failed build is logged but does
/// not stop the pipeline: profiling is attempted against the expected
/// artifact path regardless.
#[derive(Clone, Copy, PartialEq, Eq, Structural, Debug)]
pub enum BuildStatus {
    /// The build process exited with this code.
    Exited(i32),
    /// The build process was ended by this signal.
    Signaled(i32),
    /// The build process could not be started; the operating system's
    /// error code.
    SpawnFailure(i32),
}

/// The single code under which a build status is logged: the exit code,
/// the signal, or the spawn error code.
pub open spec fn exit_code_spec(s: BuildStatus) -> int {
    match s {
        BuildStatus::Exited(c) => c as int,
        BuildStatus::Signaled(sig) => sig as int,
        BuildStatus::SpawnFailure(e) => e as int,
    }
}

/// Collapses a build status to the code under which it is logged.
pub fn exit_code(s: &BuildStatus) -> (r: i32)
    ensures
        r as int == exit_code_spec(*s),
{
    match s {
        BuildStatus::Exited(c) => *c,
        BuildStatus::Signaled(sig) => *sig,
        BuildStatus::SpawnFailure(e) => *e,
    }
}

/// The container runtime the build is handed to.
pub fn build_program() -> (r: &'static str)
    ensures
        r@ == "docker"@,
{
    "docker"
}

/// The fixed image the build runs in.
pub open spec fn container_image() -> Seq<char> {
    "3683fdbe380c"@
}

/// The build script inside the image.
pub open spec fn build_script() -> Seq<char> {
    "/buildtools/build_fenix.sh"@
}

/// The fixed build target.
pub open spec fn build_target() -> Seq<char> {
    "assembleGeckoNightlyFenixNightly"@
}

/// Where the build deposits its output inside the container.
pub open spec fn build_output_glob() -> Seq<char> {
    "app/build/outputs/apk/*"@
}

/// The volume mapping from the run's workspace into the container.
pub open spec fn volume_arg(dir: Seq<char>) -> Seq<char> {
    dir + ":/build_output/"@
}

/// The full argument list of the containerized build invocation.
pub open spec fn build_args_spec(clone_url: Seq<char>, head: Seq<char>, dir: Seq<char>) -> Seq<
    Seq<char>,
> {
    seq![
        "run"@,
        "--rm"@,
        "-ti"@,
        "--volume"@,
        volume_arg(dir),
        container_image(),
        build_script(),
        clone_url,
        head,
        build_target(),
        build_output_glob(),
    ]
}

/// The path convention under which the artifact is expected after a
/// build into `dir`; the pipeline assumes it without verifying it.
pub open spec fn artifact_path_spec(dir: Seq<char>) -> Seq<char> {
    dir + "/fenixNightly/app-geckoNightly-armeabi-v7a-fenixNightly-unsigned.apk"@
}

/// Builds the argument list for the containerized build.
pub fn build_args(clone_url: &String, head: &String, dir: &String) -> (r: Vec<String>)
    ensures
        r.deep_view() == build_args_spec(clone_url@, head@, dir@),
{
    let mut r: Vec<String> = Vec::new();
    r.push("run".to_owned());
    r.push("--rm".to_owned());
    r.push("-ti".to_owned());
    r.push("--volume".to_owned());
    r.push(dir.clone().concat(":/build_output/"));
    r.push("3683fdbe380c".to_owned());
    r.push("/buildtools/build_fenix.sh".to_owned());
    r.push(clone_url.clone());
    r.push(head.clone());
    r.push("assembleGeckoNightlyFenixNightly".to_owned());
    r.push("app/build/outputs/apk/*".to_owned());
    proof {
        assert(r.deep_view() =~= build_args_spec(clone_url@, head@, dir@));
    }
    r
}

/// Builds the expected artifact path for the workspace `dir`.
pub fn artifact_path(dir: &String) -> (r: String)
    ensures
        r@ == artifact_path_spec(dir@),
{
    dir.clone().concat("/fenixNightly/app-geckoNightly-armeabi-v7a-fenixNightly-unsigned.apk")
}

} // verus!
