//! What a sandbox decides: the text of the containerfile and of the stage
//! script, how the engine's build output is read, which binds and limits a
//! container gets, how its log chunks are forwarded and what its exit code
//! means. Talking to the container engine is left to the caller.

use vstd::prelude::*;
use vstd::string::StringExecFns;
use vstd::utf8::{decode_utf8, valid_utf8};
use crate::error::{Error, ErrorView};
use crate::path::HostPath;
use crate::permission::{denial_text, PermissionState, Permissions};
use crate::reporter::{log_line, now, LogLine, Reporter, Timestamp};
use crate::text::{
    copy_str, decimal, decimal_text, has_char, join, joined, last_part, lines_text, remove_char,
    strip, strip_prefixes, stripped, tail_after, to_chars, without, without_prefixes,
    write_lines,
};

verus! {

/// Defines a stage to be run by runner.
#[derive(Debug)]
pub struct RunOptions {
    pub image: String,
    pub extend: Vec<String>,
    pub workdir: String,
    pub script: Vec<String>,
    /// The environment: the entries of a map from name to value.
    pub envs: Vec<(String, String)>,
    /// The mounts: the entries of a map from the path in the container to
    /// the path on the host.
    pub mounts: Vec<(String, String)>,
}

/// Whether the pairs are the entries of a map: no two of them begin with
/// the same text.
pub open spec fn is_map(pairs: Seq<(Seq<char>, Seq<char>)>) -> bool {
    forall|i: int, j: int| 0 <= i < j < pairs.len() ==> pairs[i].0 != pairs[j].0
}

/// What a [`RunOptions`] holds, with texts as sequences of characters.
pub struct RunOptionsView {
    pub image: Seq<char>,
    pub extend: Seq<Seq<char>>,
    pub workdir: Seq<char>,
    pub script: Seq<Seq<char>>,
    pub envs: Seq<(Seq<char>, Seq<char>)>,
    pub mounts: Seq<(Seq<char>, Seq<char>)>,
}

impl RunOptionsView {
    /// The environment and the mounts are the entries of maps.
    pub open spec fn wf(self) -> bool {
        is_map(self.envs) && is_map(self.mounts)
    }
}

impl View for RunOptions {
    type V = RunOptionsView;

    open spec fn view(&self) -> RunOptionsView {
        RunOptionsView {
            image: self.image@,
            extend: self.extend.deep_view(),
            workdir: self.workdir@,
            script: self.script.deep_view(),
            envs: self.envs.deep_view(),
            mounts: self.mounts.deep_view(),
        }
    }
}

impl DeepView for RunOptions {
    type V = RunOptionsView;

    open spec fn deep_view(&self) -> RunOptionsView {
        self@
    }
}

/// The name of the containerfile in the directory that is sent to the
/// engine as the context of a build.
pub const CONTAINERFILE_NAME: &'static str = "Dockerfile";

/// The name of the stage script in the asset directory.
pub const SCRIPT_NAME: &'static str = ".run.sh";

/// The containerfile for an image made from `image` by the commands of
/// `extend`: a `FROM` line, and where there are commands one `RUN` line
/// that joins them with `&&`, line feeds inside them taken out.
pub open spec fn containerfile_text(image: Seq<char>, extend: Seq<Seq<char>>) -> Seq<char> {
    "FROM "@ + image + seq!['\n'] + if extend.len() > 0 {
        "RUN "@ + without(joined(extend, " && "@), '\n') + seq!['\n']
    } else {
        Seq::empty()
    }
}

/// The containerfile for an image made from `image` by the commands of
/// `extend`.
pub fn containerfile(image: &str, extend: &Vec<String>) -> (r: String)
    ensures
        r@ == containerfile_text(image@, extend.deep_view()),
{
    let mut out = String::from_str("FROM ");
    out.append(image);
    out.append("\n");
    proof {
        reveal_strlit("\n");
        assert("\n"@ =~= seq!['\n']);
        assert(extend.deep_view().len() == extend.len());
    }
    if extend.len() > 0 {
        let commands = join(extend, " && ");
        let line = remove_char(commands.as_str(), '\n');
        out.append("RUN ");
        out.append(line.as_str());
        out.append("\n");
        assert(out@ =~= containerfile_text(image@, extend.deep_view()));
    } else {
        assert(out@ =~= containerfile_text(image@, extend.deep_view()));
    }
    out
}

/// One record of the engine's build output.
#[derive(Debug)]
pub struct BuildRecord {
    /// The identifier of the built image, as the engine wrote it.
    pub aux_id: Option<String>,
    /// The message of a failure on the build's side.
    pub error: Option<String>,
}

/// What the stream of build output yields next.
#[derive(Debug)]
pub enum BuildEvent {
    /// A record.
    Record(BuildRecord),
    /// The transport failed below the engine, at the level of HTTP; holds
    /// the description of the cause.
    Transport(String),
    /// Any other failure of the engine; holds its description.
    Engine(String),
    /// The stream ended.
    End,
}

/// What to do after an event of the build output.
#[derive(Debug)]
pub enum BuildStep {
    /// Nothing is decided yet: take the next event.
    Continue,
    /// The image is built; holds its identifier.
    Built(String),
    /// The build failed.
    Failed(Error),
}

/// The identifier in `raw`, which the engine writes as `sha256:<hex>`, in
/// some formats between double quotes: what follows the last colon, the
/// quotes around `raw` taken off first.
pub open spec fn image_id_text(raw: Seq<char>) -> Seq<char> {
    tail_after(stripped(raw, '"'), ':')
}

/// Whether `raw` has the form of an image identifier: there is a colon in
/// it once the quotes around it are taken off.
pub open spec fn is_image_id(raw: Seq<char>) -> bool {
    stripped(raw, '"').contains(':')
}

/// Whether the event can be read: an identifier, where it carries one, has
/// the form of an image identifier.
pub open spec fn readable(event: BuildEvent) -> bool {
    event matches BuildEvent::Record(record) ==> (record.aux_id matches Some(id) ==> is_image_id(
        id@,
    ))
}

/// Whether `raw` has the form of an image identifier.
pub fn has_image_id_form(raw: &str) -> (r: bool)
    ensures
        r == is_image_id(raw@),
{
    let bare = strip(raw, '"');
    has_char(bare.as_str(), ':')
}

/// The hex component of the image identifier `raw`.
pub fn image_id(raw: &str) -> (r: String)
    requires
        is_image_id(raw@),
    ensures
        r@ == image_id_text(raw@),
{
    let bare = strip(raw, '"');
    last_part(bare.as_str(), ':')
}

/// Whether `step` is what `event` decides. The first record that carries
/// an identifier ends the build with that image; a record that carries an
/// error, a failure of the transport or of the engine, and the end of the
/// stream before any identifier end it with a failure; any other record
/// decides nothing.
pub open spec fn decides(event: BuildEvent, step: BuildStep) -> bool {
    match event {
        BuildEvent::Record(record) => match record.aux_id {
            Some(id) => step matches BuildStep::Built(image) && image@ == image_id_text(id@),
            None => match record.error {
                Some(m) => step matches BuildStep::Failed(e) && e@ == ErrorView::Build(m@),
                None => step is Continue,
            },
        },
        BuildEvent::Transport(cause) => step matches BuildStep::Failed(e) && e@
            == ErrorView::Connection(cause@),
        BuildEvent::Engine(cause) => step matches BuildStep::Failed(e) && e@ == ErrorView::Build(
            cause@,
        ),
        BuildEvent::End => step matches BuildStep::Failed(e) && e@ == ErrorView::Unknown(
            "image not successfully built"@,
        ),
    }
}

/// Reads one event of the build output.
pub fn build_step(event: BuildEvent) -> (r: BuildStep)
    requires
        readable(event),
    ensures
        decides(event, r),
{
    match event {
        BuildEvent::Record(record) => match record.aux_id {
            Some(id) => BuildStep::Built(image_id(id.as_str())),
            None => match record.error {
                Some(m) => BuildStep::Failed(Error::BuildError(m)),
                None => BuildStep::Continue,
            },
        },
        BuildEvent::Transport(cause) => BuildStep::Failed(Error::ConnectionError(cause)),
        BuildEvent::Engine(cause) => BuildStep::Failed(Error::BuildError(cause)),
        BuildEvent::End => BuildStep::Failed(
            Error::UnknownError(copy_str("image not successfully built")),
        ),
    }
}

/// Reads one event of the build output where it can be read, and returns
/// `None` where it carries an identifier that has not the form of one.
pub fn try_build_step(event: BuildEvent) -> (r: Option<BuildStep>)
    ensures
        r is Some <==> readable(event),
        r matches Some(step) ==> decides(event, step),
{
    let ok = match &event {
        BuildEvent::Record(record) => match &record.aux_id {
            Some(id) => has_image_id_form(id.as_str()),
            None => true,
        },
        _ => true,
    };
    if ok {
        Some(build_step(event))
    } else {
        None
    }
}

/// The text of the stage script: the lines of `script`, each ended by a
/// line feed.
pub fn script_text(script: &Vec<String>) -> (r: String)
    ensures
        r@ == lines_text(script.deep_view()),
{
    write_lines(script)
}

/// A host path to be made visible in the container at `container`.
#[derive(Debug)]
pub struct Mount {
    pub container: String,
    pub host: HostPath,
}

/// The bind that shows the asset directory `root` in the container.
pub open spec fn asset_bind(root: Seq<char>) -> Seq<char> {
    root + ":/assets"@
}

/// The bind for a mount: the host path, the path in the container, and
/// `ro` where the container may only read.
pub open spec fn bind_text(host: Seq<char>, container: Seq<char>, writable: bool) -> Seq<char> {
    host + ":"@ + container + if writable {
        Seq::empty()
    } else {
        ":ro"@
    }
}

/// Whether the host path of a mount may be shown to the container at all:
/// it may be written, or it may be read.
pub open spec fn mountable(permissions: Permissions, mount: Mount) -> bool {
    permissions.write.allows(mount.host.components()) || permissions.read.allows(
        mount.host.components(),
    )
}

/// The bind for `mount` under `permissions`: read-write where the host path
/// may be written, read-only otherwise.
pub open spec fn mount_bind(permissions: Permissions, mount: Mount) -> Seq<char> {
    bind_text(
        mount.host.text(),
        mount.container@,
        permissions.write.allows(mount.host.components()),
    )
}

/// The binds of a container: the asset directory, then one for each mount
/// in order.
pub open spec fn binds_of(root: Seq<char>, mounts: Seq<Mount>, permissions: Permissions) -> Seq<
    Seq<char>,
> {
    seq![asset_bind(root)] + Seq::new(mounts.len(), |i: int| mount_bind(permissions, mounts[i]))
}

/// Whether `i` is the first mount that may not be shown to the container.
pub open spec fn first_refused(mounts: Seq<Mount>, permissions: Permissions, i: int) -> bool {
    &&& 0 <= i < mounts.len()
    &&& !mountable(permissions, mounts[i])
    &&& forall|j: int| 0 <= j < i ==> mountable(permissions, #[trigger] mounts[j])
}

/// The binds of a container whose asset directory is `root`. Each mount is
/// bound read-write where its host path may be written, read-only where it
/// may only be read. The first mount that may be neither fails the whole
/// with the denial of the read.
pub fn bind_list(root: &str, mounts: &Vec<Mount>, permissions: &Permissions) -> (r: Result<
    Vec<String>,
    Error,
>)
    ensures
        r is Ok <==> forall|i: int|
            0 <= i < mounts.len() ==> mountable(*permissions, #[trigger] mounts[i]),
        r matches Ok(binds) ==> binds.deep_view() == binds_of(root@, mounts@, *permissions),
        r matches Err(e) ==> exists|i: int| #[trigger]
            first_refused(mounts@, *permissions, i) && e@ == ErrorView::PermissionDenied(
                denial_text(permissions.read.name@, Some(mounts[i].host.text())),
            ),
{
    let mut binds: Vec<String> = Vec::new();
    let mut first = String::from_str(root);
    first.append(":/assets");
    binds.push(first);
    let mut i: usize = 0;
    while i < mounts.len()
        invariant
            i <= mounts.len(),
            binds.len() == i + 1,
            binds[0]@ == asset_bind(root@),
            forall|j: int| 0 <= j < i ==> mountable(*permissions, #[trigger] mounts[j]),
            forall|j: int|
                0 <= j < i ==> (#[trigger] binds[j + 1])@ == mount_bind(*permissions, mounts[j]),
        decreases mounts.len() - i,
    {
        let mount = &mounts[i];
        let mut bind = String::from_str(mount.host.as_str());
        bind.append(":");
        bind.append(mount.container.as_str());
        if permissions.check_write(&mount.host).is_ok() {
            assert(bind@ =~= mount_bind(*permissions, *mount));
        } else {
            match permissions.check_read(&mount.host) {
                Err(e) => {
                    assert(first_refused(mounts@, *permissions, i as int));
                    return Err(e);
                },
                Ok(_) => {
                    bind.append(":ro");
                    assert(bind@ =~= mount_bind(*permissions, *mount));
                },
            }
        }
        let ghost before = binds@;
        binds.push(bind);
        assert forall|j: int| 0 <= j < i + 1 implies (#[trigger] binds[j + 1])@ == mount_bind(
            *permissions,
            mounts[j],
        ) by {
            if j < i {
                assert(binds[j + 1] == before[j + 1]);
            }
        }
        i += 1;
    }
    proof {
        let want = binds_of(root@, mounts@, *permissions);
        assert(binds.deep_view().len() == want.len());
        assert forall|k: int| 0 <= k < want.len() implies binds.deep_view()[k] == want[k] by {
            if k > 0 {
                assert(binds[(k - 1) + 1]@ == mount_bind(*permissions, mounts[k - 1]));
            }
        }
        assert(binds.deep_view() =~= want);
    }
    Ok(binds)
}

/// The seconds that a container is given to stop.
pub const STOP_TIMEOUT: i64 = 180;

/// The share of the processors that a container gets, in billionths of one
/// processor.
pub const NANO_CPUS: i64 = 1000000000;

/// The bytes of memory that a container gets.
pub const MEMORY: i64 = 1073741824;

/// What the engine is asked to create.
#[derive(Debug)]
pub struct ContainerConfig {
    pub image: String,
    pub tty: bool,
    pub attach_stdout: bool,
    pub attach_stderr: bool,
    pub env: Vec<String>,
    /// `Some(true)` where the container gets no network.
    pub network_disabled: Option<bool>,
    pub stop_timeout: i64,
    pub working_dir: String,
    pub cmd: Vec<String>,
    pub nano_cpus: i64,
    pub memory: i64,
    pub binds: Vec<String>,
    pub auto_remove: bool,
}

/// The environment of a container: `name=value` for each pair, in order.
pub open spec fn env_of(envs: Seq<(Seq<char>, Seq<char>)>) -> Seq<Seq<char>> {
    Seq::new(envs.len(), |i: int| envs[i].0 + "="@ + envs[i].1)
}

/// The command of a container: a shell that runs the stage script and
/// stops at the first command that fails.
pub open spec fn command() -> Seq<Seq<char>> {
    seq!["sh"@, "-e"@, "/assets/.run.sh"@]
}

/// The environment of a container: `name=value` for each pair, in order.
pub fn environment(envs: &Vec<(String, String)>) -> (r: Vec<String>)
    ensures
        r.deep_view() == env_of(envs.deep_view()),
{
    let mut out: Vec<String> = Vec::new();
    let mut i: usize = 0;
    while i < envs.len()
        invariant
            i <= envs.len(),
            out.len() == i,
            forall|j: int| 0 <= j < i ==> (#[trigger] out[j])@ == envs[j].0@ + "="@ + envs[j].1@,
        decreases envs.len() - i,
    {
        let mut pair = String::from_str(envs[i].0.as_str());
        pair.append("=");
        pair.append(envs[i].1.as_str());
        out.push(pair);
        i += 1;
    }
    assert(out.deep_view() =~= env_of(envs.deep_view()));
    out
}

/// The container for a stage: its image, working directory and
/// environment; the fixed command, limits and stop timeout; standard output
/// and standard error attached; removed when it exits; with `binds`; and
/// without network unless the network is granted.
pub fn container_config(options: &RunOptions, binds: Vec<String>, permissions: &Permissions) -> (r:
    ContainerConfig)
    ensures
        r.image@ == options.image@,
        r.tty,
        r.attach_stdout,
        r.attach_stderr,
        r.env.deep_view() == env_of(options.envs.deep_view()),
        r.network_disabled == if permissions.net.state == PermissionState::Granted {
            None::<bool>
        } else {
            Some(true)
        },
        r.stop_timeout == STOP_TIMEOUT,
        r.working_dir@ == options.workdir@,
        r.cmd.deep_view() == command(),
        r.nano_cpus == NANO_CPUS,
        r.memory == MEMORY,
        r.binds == binds,
        r.auto_remove,
{
    let mut cmd: Vec<String> = Vec::new();
    cmd.push(copy_str("sh"));
    cmd.push(copy_str("-e"));
    cmd.push(copy_str("/assets/.run.sh"));
    assert(cmd.deep_view() =~= command());
    ContainerConfig {
        image: options.image.clone(),
        tty: true,
        attach_stdout: true,
        attach_stderr: true,
        env: environment(&options.envs),
        network_disabled: if permissions.check_net().is_ok() {
            None
        } else {
            Some(true)
        },
        stop_timeout: STOP_TIMEOUT,
        working_dir: options.workdir.clone(),
        cmd,
        nano_cpus: NANO_CPUS,
        memory: MEMORY,
        binds,
        auto_remove: true,
    }
}

/// The container for a stage whose asset directory is `root`, with the
/// binds for `mounts`; fails where a mount may be neither written nor read.
pub fn plan_container(
    options: &RunOptions,
    root: &str,
    mounts: &Vec<Mount>,
    permissions: &Permissions,
) -> (r: Result<ContainerConfig, Error>)
    ensures
        r is Ok <==> forall|i: int|
            0 <= i < mounts.len() ==> mountable(*permissions, #[trigger] mounts[i]),
        r matches Ok(config) ==> {
            &&& config.binds.deep_view() == binds_of(root@, mounts@, *permissions)
            &&& config.image@ == options.image@
            &&& config.working_dir@ == options.workdir@
            &&& config.env.deep_view() == env_of(options.envs.deep_view())
            &&& config.cmd.deep_view() == command()
            &&& config.network_disabled == if permissions.net.state == PermissionState::Granted {
                None::<bool>
            } else {
                Some(true)
            }
            &&& config.tty && config.attach_stdout && config.attach_stderr && config.auto_remove
            &&& config.stop_timeout == STOP_TIMEOUT
            &&& config.nano_cpus == NANO_CPUS
            &&& config.memory == MEMORY
        },
        r matches Err(e) ==> exists|i: int| #[trigger]
            first_refused(mounts@, *permissions, i) && e@ == ErrorView::PermissionDenied(
                denial_text(permissions.read.name@, Some(mounts[i].host.text())),
            ),
{
    match bind_list(root, mounts, permissions) {
        Ok(binds) => Ok(container_config(options, binds, permissions)),
        Err(e) => Err(e),
    }
}

/// The line that tells of an exit with the code `code`.
pub open spec fn exit_text(code: i64) -> Seq<char> {
    "[program exited with code "@ + decimal_text(code as nat) + "]"@
}

/// The line of standard error that tells of a failed exit: none for a code
/// that is not above zero.
pub fn exit_notice(code: i64) -> (r: Option<String>)
    ensures
        code > 0 <==> r is Some,
        r matches Some(line) ==> line@ == exit_text(code),
{
    if code > 0 {
        let mut line = String::from_str("[program exited with code ");
        let number = decimal(code as u64);
        line.append(number.as_str());
        line.append("]");
        Some(line)
    } else {
        None
    }
}

/// What a run ends with, given the exit code of the container and, for a
/// code above zero, how reporting the exit went: success for a code that is
/// not above zero; else the failure of the report where it failed, and the
/// exit code as an error where it did not.
pub fn exit_result(code: i64, reported: Result<(), Error>) -> (r: Result<(), Error>)
    ensures
        code <= 0 ==> r is Ok,
        code > 0 ==> match reported {
            Ok(_) => r matches Err(e) && e@ == ErrorView::Code(code as u64),
            Err(failure) => r == Err::<(), Error>(failure),
        },
{
    if code > 0 {
        match reported {
            Ok(_) => Err(Error::ErrorCode(code as u64)),
            Err(failure) => Err(failure),
        }
    } else {
        Ok(())
    }
}

/// Whether `r` ends a run whose container exited with the code `code`,
/// above zero, after `reporter` was told: `report_stderr` was given the
/// exit line, written at some time, and `r` fails with what it answered
/// where it failed, and with the exit code where it did not.
pub open spec fn exit_told<R: Reporter>(reporter: &R, code: i64, r: Result<(), Error>) -> bool {
    exists|line: &str, at: Timestamp, told: Result<(), Error>| #[trigger]
        call_ensures(R::report_stderr, (reporter, line, at), told) && line@ == exit_text(code)
            && match told {
            Ok(_) => r matches Err(e) && e@ == ErrorView::Code(code as u64),
            Err(failure) => r == Err::<(), Error>(failure),
        }
}

/// Ends a run whose container exited with `code`: a code above zero is
/// told to `reporter` as a line of standard error written now, and fails
/// the run.
pub fn conclude<R: Reporter>(code: i64, reporter: &R) -> (r: Result<(), Error>)
    ensures
        code > 0 <==> r is Err,
        code > 0 ==> exit_told(reporter, code, r),
{
    match exit_notice(code) {
        Some(line) => {
            let text: &str = line.as_str();
            let at = now();
            let told = reporter.report_stderr(text, at);
            assert(call_ensures(R::report_stderr, (reporter, text, at), told));
            exit_result(code, told)
        },
        None => Ok(()),
    }
}

/// Ends a run, given how forwarding the log went and what waiting for the
/// container gave. A failure of the log comes first, then a wait that gave
/// nothing, then a failure of the wait; after these the exit code decides,
/// as in [`conclude`].
pub fn settle<R: Reporter>(
    log: Result<(), Error>,
    waited: Option<Result<i64, Error>>,
    reporter: &R,
) -> (r: Result<(), Error>)
    ensures
        match log {
            Err(failure) => r matches Err(e) && e@ == failure@,
            Ok(_) => match waited {
                None => r matches Err(e) && e@ == ErrorView::Unknown(
                    "failed to fetch wait response"@,
                ),
                Some(Err(failure)) => r matches Err(e) && e@ == failure@,
                Some(Ok(code)) => (code > 0 <==> r is Err) && (code > 0 ==> exit_told(
                    reporter,
                    code,
                    r,
                )),
            },
        },
{
    match log {
        Err(failure) => Err(failure),
        Ok(_) => match waited {
            None => Err(Error::UnknownError(copy_str("failed to fetch wait response"))),
            Some(Err(failure)) => Err(failure),
            Some(Ok(code)) => conclude(code, reporter),
        },
    }
}

/// The description of why `bytes` are not UTF-8, as `{:?}` writes the error
/// of `std::str::from_utf8`.
pub uninterp spec fn utf8_failure(bytes: Seq<u8>) -> Seq<char>;

/// Calls `std::str::from_utf8`: the text that `bytes` encode where they are
/// UTF-8, and else the description of the error, which [`utf8_failure`]
/// names.
#[verifier::external_body]
fn decode(bytes: &Vec<u8>) -> (r: Result<String, String>)
    ensures
        r is Ok <==> valid_utf8(bytes@),
        r matches Ok(text) ==> text@ == decode_utf8(bytes@),
        r matches Err(why) ==> why@ == utf8_failure(bytes@),
{
    match std::str::from_utf8(bytes) {
        Ok(text) => Ok(String::from(text)),
        Err(e) => Err(format!("{:?}", e)),
    }
}

/// A chunk of the log stream of a container.
#[derive(Debug)]
pub enum LogChunk {
    StdOut(Vec<u8>),
    StdErr(Vec<u8>),
    Console(Vec<u8>),
}

impl LogChunk {
    /// The bytes of the chunk.
    pub open spec fn bytes(self) -> Seq<u8> {
        match self {
            LogChunk::StdOut(b) => b@,
            LogChunk::StdErr(b) => b@,
            LogChunk::Console(b) => b@,
        }
    }

    /// Whether the chunk, once decoded, is handed to the reporter with its
    /// time in front, so that it has to hold one.
    pub open spec fn dated(self) -> bool {
        !(self is Console)
    }
}

/// Whether `told` is what `reporter` answered when it was handed `text` as
/// the text of `chunk`: standard output goes to `emit_stdout`, standard
/// error to `emit_stderr`, and console output to `emit_console`.
pub open spec fn handed<R: Reporter>(
    reporter: &R,
    chunk: LogChunk,
    text: &str,
    told: Result<(), Error>,
) -> bool {
    match chunk {
        LogChunk::StdOut(_) => call_ensures(R::emit_stdout, (reporter, text), told),
        LogChunk::StdErr(_) => call_ensures(R::emit_stderr, (reporter, text), told),
        LogChunk::Console(_) => call_ensures(R::emit_console, (reporter, text), told),
    }
}

/// Whether `r` is what became of forwarding `chunk` to `reporter`: the
/// reporter was handed the text that the bytes of the chunk encode, by
/// the entry for the chunk's kind, and `r` is `Forwarded` where it
/// succeeded and its failure where it failed.
pub open spec fn forwarded<R: Reporter>(
    reporter: &R,
    chunk: LogChunk,
    r: Result<PumpStep, Error>,
) -> bool {
    exists|text: &str, told: Result<(), Error>| #[trigger]
        handed(reporter, chunk, text, told) && text@ == decode_utf8(chunk.bytes()) && match told {
            Ok(_) => r == Ok::<PumpStep, Error>(PumpStep::Forwarded),
            Err(failure) => r == Err::<PumpStep, Error>(failure),
        }
}

/// The number of chunks that a pump forwards at most.
pub const LOG_CHUNK_CAP: u32 = 500;

/// What became of a chunk.
#[derive(Debug, PartialEq, Eq, Structural)]
pub enum PumpStep {
    /// It was handed to the reporter.
    Forwarded,
    /// The cap was reached before it: it was dropped, and the pump is done.
    Dropped,
    /// It does not begin with a time and a space: nothing was reported.
    Malformed,
}

/// Forwards the log chunks of one container to a reporter, up to
/// [`LOG_CHUNK_CAP`] of them.
#[derive(Debug)]
pub struct LogPump {
    taken: u32,
}

impl LogPump {
    /// The number of chunks taken so far.
    pub closed spec fn taken(&self) -> nat {
        self.taken as nat
    }

    #[verifier::type_invariant]
    spec fn capped(&self) -> bool {
        self.taken <= LOG_CHUNK_CAP
    }

    /// A pump that has taken nothing.
    pub fn new() -> (r: LogPump)
        ensures
            r.taken() == 0,
    {
        LogPump { taken: 0 }
    }

    /// Whether the cap is reached, so that every further chunk is dropped.
    pub fn is_full(&self) -> (r: bool)
        ensures
            r == (self.taken() >= LOG_CHUNK_CAP),
    {
        self.taken >= LOG_CHUNK_CAP
    }

    /// Takes what the log stream yielded. Once the cap is reached the chunk
    /// is dropped, whatever it is. Before that it counts, and then: a
    /// failure of the stream is handed back; bytes that are not UTF-8 fail
    /// with an encoding error; a chunk of standard output or standard error
    /// that does not begin with a time is left out as malformed; the text
    /// of anything else is handed to `reporter` by the entry for the
    /// chunk's kind, and a failure of the reporter is handed back.
    pub fn pump<R: Reporter>(&mut self, chunk: Result<LogChunk, Error>, reporter: &R) -> (r:
        Result<PumpStep, Error>)
        ensures
            old(self).taken() >= LOG_CHUNK_CAP ==> final(self).taken() == old(self).taken() && r
                == Ok::<PumpStep, Error>(PumpStep::Dropped),
            old(self).taken() < LOG_CHUNK_CAP ==> final(self).taken() == old(self).taken() + 1,
            old(self).taken() < LOG_CHUNK_CAP ==> match chunk {
                Err(failure) => r matches Err(e) && e@ == failure@,
                Ok(c) => if !valid_utf8(c.bytes()) {
                    r matches Err(e) && e@ == ErrorView::Encoding(utf8_failure(c.bytes()))
                } else if c.dated() && log_line(decode_utf8(c.bytes())) is None {
                    r == Ok::<PumpStep, Error>(PumpStep::Malformed)
                } else {
                    forwarded(reporter, c, r)
                },
            },
    {
        proof {
            use_type_invariant(&*self);
        }
        if self.taken >= LOG_CHUNK_CAP {
            return Ok(PumpStep::Dropped);
        }
        self.taken = self.taken + 1;
        let chunk = match chunk {
            Ok(c) => c,
            Err(failure) => {
                return Err(failure);
            },
        };
        let bytes = match &chunk {
            LogChunk::StdOut(bytes) => bytes,
            LogChunk::StdErr(bytes) => bytes,
            LogChunk::Console(bytes) => bytes,
        };
        let text = match decode(bytes) {
            Ok(text) => text,
            Err(why) => {
                return Err(Error::EncodingError(why));
            },
        };
        let line: &str = text.as_str();
        let told = match &chunk {
            LogChunk::StdOut(_) => {
                if LogLine::parse(line).is_none() {
                    return Ok(PumpStep::Malformed);
                }
                reporter.emit_stdout(line)
            },
            LogChunk::StdErr(_) => {
                if LogLine::parse(line).is_none() {
                    return Ok(PumpStep::Malformed);
                }
                reporter.emit_stderr(line)
            },
            LogChunk::Console(_) => reporter.emit_console(line),
        };
        assert(handed(reporter, chunk, line, told));
        match told {
            Ok(_) => Ok(PumpStep::Forwarded),
            Err(failure) => Err(failure),
        }
    }
}

/// The text in front of every member of an archive of the directory
/// `canonical`: the directory, ended by a separator.
pub open spec fn archive_root_text(canonical: Seq<char>) -> Seq<char> {
    if canonical.len() > 0 && canonical.last() != '/' {
        canonical.push('/')
    } else {
        canonical
    }
}

/// The text in front of every member of an archive of the directory
/// `canonical`.
pub fn archive_root(canonical: &str) -> (r: String)
    ensures
        r@ == archive_root_text(canonical@),
{
    let chars = to_chars(canonical);
    let mut out = String::from_str(canonical);
    if chars.len() > 0 && chars[chars.len() - 1] != '/' {
        out.append("/");
        proof {
            reveal_strlit("/");
            assert(out@ =~= canonical@.push('/'));
        }
    }
    out
}

/// The name under which the file or directory `canonical` goes into an
/// archive whose members lie below `root`: `canonical` without the copies
/// of `root` at its start.
pub fn archive_name(canonical: &str, root: &str) -> (r: String)
    ensures
        r@ == without_prefixes(canonical@, root@),
{
    strip_prefixes(canonical, root)
}

} // verus!
