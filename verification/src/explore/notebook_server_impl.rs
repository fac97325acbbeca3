//! The containers of a notebook server, and how to reach it.

use std::path::PathBuf;

use vstd::prelude::*;
use vstd::string::StringExecFns;

use crate::text::to_decimal;
use crate::workspace_layout::{join, WorkspaceLayout};

verus! {

#[derive(Debug, PartialEq, Eq)]
pub struct JupyterConfig {
    pub image: Option<String>,
    pub livy_image: Option<String>,
}

#[derive(Debug, Clone, Copy, PartialEq, Eq, Structural)]
pub enum ContainerRuntimeType {
    Docker,
    Podman,
}

/// What part of the host a container sees.
#[derive(Debug, Clone, Copy, PartialEq, Eq, Structural)]
pub enum VolumeSource {
    /// The datasets of the workspace
    Datasets,
    /// The working directory
    WorkingDir,
}

/// A container to run.
#[derive(Debug, PartialEq, Eq)]
pub struct ContainerSpec {
    pub image: String,
    pub container_name: String,
    pub hostname: Option<String>,
    pub network: String,
    pub user: String,
    pub work_dir: String,
    pub volume_source: VolumeSource,
    pub volume_target: String,
    pub entry_point: Option<String>,
    pub expose_port: Option<u16>,
    pub environment_vars: Vec<(String, String)>,
    pub args: Vec<String>,
}

/// A container to run a command in, and drop what it prints.
#[derive(Debug, PartialEq, Eq)]
pub struct ShellContainerSpec {
    pub image: String,
    pub shell_cmd: String,
    pub user: String,
    pub volume_source: VolumeSource,
    pub volume_target: String,
}

/// Where the containers write what they print.
#[derive(Debug)]
pub struct LogPaths {
    pub livy_stdout: PathBuf,
    pub livy_stderr: PathBuf,
    pub jupyter_stdout: PathBuf,
    pub jupyter_stderr: PathBuf,
}

/// The port that the server listens on, within its container.
pub const SERVER_PORT: u16 = 80;

/// Runs containers through `R`.
#[derive(Debug)]
pub struct NotebookServerImpl<R> {
    container_runtime: R,
    jupyter_config: JupyterConfig,
}

/// Texts by value.
pub open spec fn texts(v: Seq<String>) -> Seq<Seq<char>> {
    v.map_values(|s: String| s@)
}

/// A text that may be absent, by value.
pub open spec fn text_of(s: Option<String>) -> Option<Seq<char>> {
    match s {
        Some(s) => Some(s@),
        None => None,
    }
}

pub open spec fn network_name() -> Seq<char> {
    "kamu"@
}

/// The arguments of the server: it listens on all interfaces of its container.
pub open spec fn jupyter_args(port: nat) -> Seq<Seq<char>> {
    seq![
        "jupyter"@,
        "notebook"@,
        "--allow-root"@,
        "--ip"@,
        "0.0.0.0"@,
        "--port"@,
        crate::text::decimal(port),
    ]
}

/// The port that the server listens on: the one that was asked for, if one was.
pub open spec fn listening_port(port: Option<u16>) -> nat {
    match port {
        Some(p) => p as nat,
        None => SERVER_PORT as nat,
    }
}

/// The address under which the server is reached, token included.
pub open spec fn server_url(host: Seq<char>, port: nat, token: Seq<char>) -> Seq<char> {
    "http://"@ + host + ":"@ + crate::text::decimal(port) + "/?token="@ + token
}

/// The command that gives files that the container wrote to their user.
pub open spec fn chown_command(uid: nat, gid: nat) -> Seq<char> {
    "chown -Rf "@ + crate::text::decimal(uid) + ":"@ + crate::text::decimal(gid)
        + " /opt/workdir"@
}

impl<R> NotebookServerImpl<R> {
    pub closed spec fn runtime_value(&self) -> R {
        self.container_runtime
    }

    pub closed spec fn config(&self) -> JupyterConfig {
        self.jupyter_config
    }

    /// Both images are known.
    pub open spec fn configured(&self) -> bool {
        self.config().image is Some && self.config().livy_image is Some
    }

    pub fn new(container_runtime: R, jupyter_config: JupyterConfig) -> (r: Self)
        ensures
            r.runtime_value() == container_runtime,
            r.config() == jupyter_config,
    {
        NotebookServerImpl { container_runtime, jupyter_config }
    }

    pub fn container_runtime(&self) -> (r: &R)
        ensures
            *r == self.runtime_value(),
    {
        &self.container_runtime
    }

    /// Whether both images are known.
    pub fn is_configured(&self) -> (r: bool)
        ensures
            r == self.configured(),
    {
        self.jupyter_config.image.is_some() && self.jupyter_config.livy_image.is_some()
    }

    /// The images to have before the server can run, in order.
    pub fn ensure_images(&self) -> (r: Vec<String>)
        requires
            self.configured(),
        ensures
            r@ == seq![self.config().livy_image->0, self.config().image->0],
    {
        let mut images: Vec<String> = Vec::new();
        if let Some(image) = &self.jupyter_config.livy_image {
            images.push(image.clone());
        }
        if let Some(image) = &self.jupyter_config.image {
            images.push(image.clone());
        }
        images
    }

    /// The network that the containers share.
    pub fn network(&self) -> (r: &'static str)
        ensures
            r@ == network_name(),
    {
        "kamu"
    }

    /// Where the containers write what they print.
    pub fn log_paths(&self, workspace_layout: &WorkspaceLayout) -> (r: LogPaths)
        ensures
            ({
                let dir = crate::workspace_layout::components(workspace_layout.run_info_dir);
                &&& crate::workspace_layout::components(r.livy_stdout) == dir.push(
                    "livy.out.txt"@,
                )
                &&& crate::workspace_layout::components(r.livy_stderr) == dir.push(
                    "livy.err.txt"@,
                )
                &&& crate::workspace_layout::components(r.jupyter_stdout) == dir.push(
                    "jupyter.out.txt"@,
                )
                &&& crate::workspace_layout::components(r.jupyter_stderr) == dir.push(
                    "jupyter.err.txt"@,
                )
            }),
    {
        proof {
            reveal_strlit("livy.out.txt");
            reveal_strlit("livy.err.txt");
            reveal_strlit("jupyter.out.txt");
            reveal_strlit("jupyter.err.txt");
            crate::workspace_layout::lemma_plain_name("livy.out.txt"@);
            crate::workspace_layout::lemma_plain_name("livy.err.txt"@);
            crate::workspace_layout::lemma_plain_name("jupyter.out.txt"@);
            crate::workspace_layout::lemma_plain_name("jupyter.err.txt"@);
        }
        LogPaths {
            livy_stdout: join(&workspace_layout.run_info_dir, "livy.out.txt"),
            livy_stderr: join(&workspace_layout.run_info_dir, "livy.err.txt"),
            jupyter_stdout: join(&workspace_layout.run_info_dir, "jupyter.out.txt"),
            jupyter_stderr: join(&workspace_layout.run_info_dir, "jupyter.err.txt"),
        }
    }

    /// The container that runs queries over the datasets.
    pub fn livy_container(&self) -> (r: ContainerSpec)
        requires
            self.configured(),
        ensures
            r.image == self.config().livy_image->0,
            r.container_name@ == "kamu-livy"@,
            text_of(r.hostname) == Some("kamu-livy"@),
            r.network@ == network_name(),
            r.user@ == "root"@,
            r.work_dir@ == "/opt/bitnami/spark/work-dir"@,
            r.volume_source is Datasets,
            r.volume_target@ == "/opt/bitnami/spark/work-dir"@,
            text_of(r.entry_point) == Some("/opt/livy/bin/livy-server"@),
            r.expose_port is None,
            r.environment_vars@.len() == 0,
            r.args@.len() == 0,
    {
        ContainerSpec {
            image: self.jupyter_config.livy_image.clone().unwrap(),
            container_name: "kamu-livy".to_owned(),
            hostname: Some("kamu-livy".to_owned()),
            network: self.network().to_owned(),
            user: "root".to_owned(),
            work_dir: "/opt/bitnami/spark/work-dir".to_owned(),
            volume_source: VolumeSource::Datasets,
            volume_target: "/opt/bitnami/spark/work-dir".to_owned(),
            entry_point: Some("/opt/livy/bin/livy-server".to_owned()),
            expose_port: None,
            environment_vars: Vec::new(),
            args: Vec::new(),
        }
    }

    /// The container that serves notebooks.
    pub fn jupyter_container(
        &self,
        port: Option<u16>,
        environment_vars: Vec<(String, String)>,
    ) -> (r: ContainerSpec)
        requires
            self.configured(),
        ensures
            r.image == self.config().image->0,
            r.container_name@ == "kamu-jupyter"@,
            r.hostname is None,
            r.network@ == network_name(),
            r.user@ == "root"@,
            r.work_dir@ == "/opt/workdir"@,
            r.volume_source is WorkingDir,
            r.volume_target@ == "/opt/workdir"@,
            r.entry_point is None,
            r.expose_port == Some(SERVER_PORT),
            r.environment_vars == environment_vars,
            texts(r.args@) == jupyter_args(listening_port(port)),
    {
        let port: u16 = port.unwrap_or(SERVER_PORT);
        let args: Vec<String> = vec![
            "jupyter".to_owned(),
            "notebook".to_owned(),
            "--allow-root".to_owned(),
            "--ip".to_owned(),
            "0.0.0.0".to_owned(),
            "--port".to_owned(),
            to_decimal(port as u64),
        ];
        proof {
            assert(texts(args@) =~= jupyter_args(port as nat));
        }
        ContainerSpec {
            image: self.jupyter_config.image.clone().unwrap(),
            container_name: "kamu-jupyter".to_owned(),
            hostname: None,
            network: self.network().to_owned(),
            user: "root".to_owned(),
            work_dir: "/opt/workdir".to_owned(),
            volume_source: VolumeSource::WorkingDir,
            volume_target: "/opt/workdir".to_owned(),
            entry_point: None,
            expose_port: Some(SERVER_PORT),
            environment_vars,
            args,
        }
    }

    /// The container to run once the server has stopped, to give files that it wrote
    /// to their user. Only Docker writes them as another user.
    pub fn fix_permissions_container(
        &self,
        runtime: ContainerRuntimeType,
        uid: u32,
        gid: u32,
    ) -> (r: Option<ShellContainerSpec>)
        requires
            self.configured(),
        ensures
            match r {
                Some(container) => {
                    &&& runtime is Docker
                    &&& container.image == self.config().image->0
                    &&& container.shell_cmd@ == chown_command(uid as nat, gid as nat)
                    &&& container.user@ == "root"@
                    &&& container.volume_source is WorkingDir
                    &&& container.volume_target@ == "/opt/workdir"@
                },
                None => !(runtime is Docker),
            },
    {
        match runtime {
            ContainerRuntimeType::Docker => Some(
                ShellContainerSpec {
                    image: self.jupyter_config.image.clone().unwrap(),
                    shell_cmd: "chown -Rf ".to_owned().concat(
                        to_decimal(uid as u64).as_str(),
                    ).concat(":").concat(to_decimal(gid as u64).as_str()).concat(" /opt/workdir"),
                    user: "root".to_owned(),
                    volume_source: VolumeSource::WorkingDir,
                    volume_target: "/opt/workdir".to_owned(),
                },
            ),
            _ => None,
        }
    }
}

/// The address under which the server is reached, token included.
pub fn started_url(host: &str, port: u16, token: &str) -> (r: String)
    ensures
        r@ == server_url(host@, port as nat, token@),
{
    "http://".to_owned().concat(host).concat(":").concat(
        to_decimal(port as u64).as_str(),
    ).concat("/?token=").concat(token)
}

/// The address holds the host, the port and the token that it was made of, each where a
/// browser looks for it.
pub proof fn law_address_holds_host_port_and_token(host: Seq<char>, port: nat, token: Seq<char>)
    ensures
        ({
            let url = server_url(host, port, token);
            let digits = crate::text::decimal(port);
            let n = host.len() as int;
            let d = digits.len() as int;
            let t = token.len() as int;
            &&& url.len() == 7 + n + 1 + d + 8 + t
            &&& url.subrange(0, 7) == "http://"@
            &&& url.subrange(7, 7 + n) == host
            &&& url[7 + n] == ':'
            &&& crate::text::parsed(url.subrange(8 + n, 8 + n + d)) == port
            &&& url.subrange(8 + n + d, 16 + n + d) == "/?token="@
            &&& url.subrange(16 + n + d, 16 + n + d + t) == token
        }),
{
    reveal_strlit("http://");
    reveal_strlit(":");
    reveal_strlit("/?token=");
    let url = server_url(host, port, token);
    let digits = crate::text::decimal(port);
    let n = host.len() as int;
    let d = digits.len() as int;
    let t = token.len() as int;
    crate::text::law_decimal_reads_back(port);
    assert(url.subrange(0, 7) =~= "http://"@);
    assert(url.subrange(7, 7 + n) =~= host);
    assert(url.subrange(8 + n, 8 + n + d) =~= digits);
    assert(url.subrange(8 + n + d, 16 + n + d) =~= "/?token="@);
    assert(url.subrange(16 + n + d, 16 + n + d + t) =~= token);
}

/// The server is told to listen on the port that was asked for, or else on port 80, on all
/// interfaces of its container.
pub proof fn law_server_listens_on_its_port(port: Option<u16>)
    ensures
        ({
            let args = jupyter_args(listening_port(port));
            &&& args.len() == 7
            &&& args[0] == "jupyter"@ && args[1] == "notebook"@ && args[2] == "--allow-root"@
            &&& args[3] == "--ip"@ && args[4] == "0.0.0.0"@
            &&& args[5] == "--port"@
            &&& port matches Some(p) ==> crate::text::parsed(args[6]) == p
            &&& port is None ==> crate::text::parsed(args[6]) == 80
        }),
{
    crate::text::law_decimal_reads_back(listening_port(port));
}

/// The files are given to the user and the group that were named, in this order.
pub proof fn law_files_go_to_their_user(uid: nat, gid: nat)
    ensures
        ({
            let command = chown_command(uid, gid);
            let u = crate::text::decimal(uid).len() as int;
            let g = crate::text::decimal(gid).len() as int;
            &&& command.len() == 10 + u + 1 + g + 13
            &&& command.subrange(0, 10) == "chown -Rf "@
            &&& crate::text::parsed(command.subrange(10, 10 + u)) == uid
            &&& command[10 + u] == ':'
            &&& crate::text::parsed(command.subrange(11 + u, 11 + u + g)) == gid
            &&& command.subrange(11 + u + g, 24 + u + g) == " /opt/workdir"@
        }),
{
    reveal_strlit("chown -Rf ");
    reveal_strlit(":");
    reveal_strlit(" /opt/workdir");
    let command = chown_command(uid, gid);
    let u = crate::text::decimal(uid).len() as int;
    let g = crate::text::decimal(gid).len() as int;
    crate::text::law_decimal_reads_back(uid);
    crate::text::law_decimal_reads_back(gid);
    assert(command.subrange(0, 10) =~= "chown -Rf "@);
    assert(command.subrange(10, 10 + u) =~= crate::text::decimal(uid));
    assert(command.subrange(11 + u, 11 + u + g) =~= crate::text::decimal(gid));
    assert(command.subrange(11 + u + g, 24 + u + g) =~= " /opt/workdir"@);
}

} // verus!
