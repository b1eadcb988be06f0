//! What a container is created from: the container configuration, the limits
//! its host enforces, and the fixed sandboxing policy.

use crate::text::str_eq;
use vstd::prelude::*;

verus! {

/// A resource limit, as a mathematical value.
pub struct UlimitSpec {
    pub name: Seq<char>,
    pub soft: int,
    pub hard: int,
}

/// The host's limits on a container, as a mathematical value.
pub struct HostLimits {
    pub memory: int,
    pub privileged: bool,
    pub cap_add: Seq<Seq<char>>,
    pub cap_drop: Seq<Seq<char>>,
    pub ulimits: Seq<UlimitSpec>,
}

/// A container configuration, as a mathematical value.
pub struct ContainerSpec {
    pub hostname: Seq<char>,
    pub user: Seq<char>,
    pub attach_stdin: bool,
    pub attach_stdout: bool,
    pub attach_stderr: bool,
    pub tty: bool,
    pub open_stdin: bool,
    pub stdin_once: bool,
    pub image: Seq<char>,
    pub network_disabled: bool,
    pub host_config: HostLimits,
}

/// A limit on one resource of the container, with its soft and hard cap.
#[derive(Debug, PartialEq, Eq)]
pub struct Ulimit {
    name: String,
    soft: i64,
    hard: i64,
}

/// What the host grants the container and what it withholds.
#[derive(Debug, PartialEq, Eq)]
pub struct HostConfig {
    memory: i64,
    privileged: bool,
    cap_add: Vec<String>,
    cap_drop: Vec<String>,
    ulimits: Vec<Ulimit>,
}

/// The description of a container to create. Every value of this type obeys
/// the sandboxing policy: see [`obeys_policy`].
#[derive(Debug, PartialEq, Eq)]
pub struct ContainerConfig {
    hostname: String,
    user: String,
    attach_stdin: bool,
    attach_stdout: bool,
    attach_stderr: bool,
    tty: bool,
    open_stdin: bool,
    stdin_once: bool,
    image: String,
    network_disabled: bool,
    host_config: HostConfig,
}

/// The capability that every container is denied.
pub open spec fn denied_capability() -> Seq<char> {
    "MKNOD"@
}

/// The sandboxing policy: the container has no network, and the capability to
/// make device nodes is dropped.
pub open spec fn obeys_policy(spec: ContainerSpec) -> bool {
    &&& spec.network_disabled
    &&& spec.host_config.cap_drop.contains(denied_capability())
}

/// The memory ceiling of a container, in bytes.
pub const MEMORY_LIMIT: i64 = 500000000;

/// The limits of the default policy: a memory ceiling, no privileges, no
/// capability added, the denied capability dropped, and a cap on open files
/// and on processes.
pub open spec fn default_host_limits() -> HostLimits {
    HostLimits {
        memory: MEMORY_LIMIT as int,
        privileged: false,
        cap_add: Seq::empty(),
        cap_drop: seq![denied_capability()],
        ulimits: seq![
            UlimitSpec { name: "nofile"@, soft: 90, hard: 100 },
            UlimitSpec { name: "nproc"@, soft: 90, hard: 100 },
        ],
    }
}

/// The container that the default policy gives for an image: standard input,
/// output and error attached, no terminal, input closed after one use, no
/// network, and the default limits.
pub open spec fn default_container_spec(image: Seq<char>) -> ContainerSpec {
    ContainerSpec {
        hostname: "glot-runner"@,
        user: "glot"@,
        attach_stdin: true,
        attach_stdout: true,
        attach_stderr: true,
        tty: false,
        open_stdin: true,
        stdin_once: true,
        image,
        network_disabled: true,
        host_config: default_host_limits(),
    }
}

/// A list of strings, each taken as its sequence of characters.
pub open spec fn strings_view(list: Vec<String>) -> Seq<Seq<char>> {
    Seq::new(list@.len(), |i: int| list@[i]@)
}

/// A list of limits, each taken as a mathematical value.
pub open spec fn ulimits_view(list: Vec<Ulimit>) -> Seq<UlimitSpec> {
    Seq::new(list@.len(), |i: int| list@[i]@)
}

impl View for Ulimit {
    type V = UlimitSpec;

    closed spec fn view(&self) -> UlimitSpec {
        UlimitSpec { name: self.name@, soft: self.soft as int, hard: self.hard as int }
    }
}

impl View for HostConfig {
    type V = HostLimits;

    closed spec fn view(&self) -> HostLimits {
        HostLimits {
            memory: self.memory as int,
            privileged: self.privileged,
            cap_add: strings_view(self.cap_add),
            cap_drop: strings_view(self.cap_drop),
            ulimits: ulimits_view(self.ulimits),
        }
    }
}

impl View for ContainerConfig {
    type V = ContainerSpec;

    closed spec fn view(&self) -> ContainerSpec {
        ContainerSpec {
            hostname: self.hostname@,
            user: self.user@,
            attach_stdin: self.attach_stdin,
            attach_stdout: self.attach_stdout,
            attach_stderr: self.attach_stderr,
            tty: self.tty,
            open_stdin: self.open_stdin,
            stdin_once: self.stdin_once,
            image: self.image@,
            network_disabled: self.network_disabled,
            host_config: self.host_config@,
        }
    }
}

impl Ulimit {
    /// A limit on the resource `name`.
    pub fn new(name: String, soft: i64, hard: i64) -> (limit: Ulimit)
        ensures
            limit@ == (UlimitSpec { name: name@, soft: soft as int, hard: hard as int }),
    {
        Ulimit { name, soft, hard }
    }

    /// The resource that is limited.
    pub fn name(&self) -> (r: &str)
        ensures
            r@ == self@.name,
    {
        self.name.as_str()
    }

    /// The limit that the container may raise up to the hard one.
    pub fn soft(&self) -> (r: i64)
        ensures
            r == self@.soft,
    {
        self.soft
    }

    /// The limit that the container cannot pass.
    pub fn hard(&self) -> (r: i64)
        ensures
            r == self@.hard,
    {
        self.hard
    }
}

impl HostConfig {
    /// The limits made of the given parts.
    pub fn new(
        memory: i64,
        privileged: bool,
        cap_add: Vec<String>,
        cap_drop: Vec<String>,
        ulimits: Vec<Ulimit>,
    ) -> (limits: HostConfig)
        ensures
            limits@ == (HostLimits {
                memory: memory as int,
                privileged,
                cap_add: strings_view(cap_add),
                cap_drop: strings_view(cap_drop),
                ulimits: ulimits_view(ulimits),
            }),
    {
        HostConfig { memory, privileged, cap_add, cap_drop, ulimits }
    }

    /// The memory ceiling in bytes.
    pub fn memory(&self) -> (r: i64)
        ensures
            r == self@.memory,
    {
        self.memory
    }

    /// Whether the container runs privileged.
    pub fn privileged(&self) -> (r: bool)
        ensures
            r == self@.privileged,
    {
        self.privileged
    }

    /// The capabilities granted beyond the engine's default.
    pub fn cap_add(&self) -> (r: &Vec<String>)
        ensures
            strings_view(*r) == self@.cap_add,
    {
        &self.cap_add
    }

    /// The capabilities taken away.
    pub fn cap_drop(&self) -> (r: &Vec<String>)
        ensures
            strings_view(*r) == self@.cap_drop,
    {
        &self.cap_drop
    }

    /// The resource limits.
    pub fn ulimits(&self) -> (r: &Vec<Ulimit>)
        ensures
            ulimits_view(*r) == self@.ulimits,
    {
        &self.ulimits
    }
}

/// Whether `list` holds the capability that every container is denied.
pub fn drops_denied_capability(list: &Vec<String>) -> (r: bool)
    ensures
        r == strings_view(*list).contains(denied_capability()),
{
    let mut i: usize = 0;
    while i < list.len()
        invariant
            i <= list.len(),
            forall|j: int| 0 <= j < i ==> strings_view(*list)[j] != denied_capability(),
        decreases list.len() - i,
    {
        if str_eq(list[i].as_str(), "MKNOD") {
            assert(strings_view(*list)[i as int] == denied_capability());
            return true;
        }
        i = i + 1;
    }
    false
}

impl ContainerConfig {
    /// The configuration made of the given parts, if it obeys the sandboxing
    /// policy; none if it does not.
    pub fn new(
        hostname: String,
        user: String,
        attach_stdin: bool,
        attach_stdout: bool,
        attach_stderr: bool,
        tty: bool,
        open_stdin: bool,
        stdin_once: bool,
        image: String,
        network_disabled: bool,
        host_config: HostConfig,
    ) -> (r: Option<ContainerConfig>)
        ensures
            ({
                let spec = ContainerSpec {
                    hostname: hostname@,
                    user: user@,
                    attach_stdin,
                    attach_stdout,
                    attach_stderr,
                    tty,
                    open_stdin,
                    stdin_once,
                    image: image@,
                    network_disabled,
                    host_config: host_config@,
                };
                match r {
                    Some(config) => obeys_policy(spec) && config@ == spec,
                    None => !obeys_policy(spec),
                }
            }),
    {
        if !network_disabled || !drops_denied_capability(&host_config.cap_drop) {
            return None;
        }
        Some(
            ContainerConfig {
                hostname,
                user,
                attach_stdin,
                attach_stdout,
                attach_stderr,
                tty,
                open_stdin,
                stdin_once,
                image,
                network_disabled,
                host_config,
            },
        )
    }

    /// The host name inside the container.
    pub fn hostname(&self) -> (r: &str)
        ensures
            r@ == self@.hostname,
    {
        self.hostname.as_str()
    }

    /// The user that the container's process runs as.
    pub fn user(&self) -> (r: &str)
        ensures
            r@ == self@.user,
    {
        self.user.as_str()
    }

    /// Whether standard input is attached.
    pub fn attach_stdin(&self) -> (r: bool)
        ensures
            r == self@.attach_stdin,
    {
        self.attach_stdin
    }

    /// Whether standard output is attached.
    pub fn attach_stdout(&self) -> (r: bool)
        ensures
            r == self@.attach_stdout,
    {
        self.attach_stdout
    }

    /// Whether standard error is attached.
    pub fn attach_stderr(&self) -> (r: bool)
        ensures
            r == self@.attach_stderr,
    {
        self.attach_stderr
    }

    /// Whether the container gets a terminal.
    pub fn tty(&self) -> (r: bool)
        ensures
            r == self@.tty,
    {
        self.tty
    }

    /// Whether standard input is kept open.
    pub fn open_stdin(&self) -> (r: bool)
        ensures
            r == self@.open_stdin,
    {
        self.open_stdin
    }

    /// Whether standard input closes after the first attached client leaves.
    pub fn stdin_once(&self) -> (r: bool)
        ensures
            r == self@.stdin_once,
    {
        self.stdin_once
    }

    /// The image that the container is created from.
    pub fn image(&self) -> (r: &str)
        ensures
            r@ == self@.image,
    {
        self.image.as_str()
    }

    /// Whether the container is cut off from the network: always true.
    pub fn network_disabled(&self) -> (r: bool)
        ensures
            r == self@.network_disabled,
            r,
    {
        proof {
            use_type_invariant(self);
        }
        self.network_disabled
    }

    /// The host's limits on the container.
    pub fn host_config(&self) -> (r: &HostConfig)
        ensures
            r@ == self@.host_config,
            r@.cap_drop.contains(denied_capability()),
    {
        proof {
            use_type_invariant(self);
        }
        &self.host_config
    }

    /// The invariant of the type: the value obeys the sandboxing policy.
    #[verifier::type_invariant]
    pub closed spec fn sandboxed(&self) -> bool {
        obeys_policy(self@)
    }

    /// What the invariant of the type says of the value's view.
    pub proof fn lemma_sandboxed(&self)
        requires
            self.sandboxed(),
        ensures
            obeys_policy(self@),
    {
    }
}

/// The container configuration of the default policy for `image_name`. The
/// image is the caller's only choice; the policy is fixed.
pub fn default_container_config(image_name: String) -> (config: ContainerConfig)
    ensures
        config@ == default_container_spec(image_name@),
        obeys_policy(config@),
{
    let cap_add: Vec<String> = vec![];
    let cap_drop: Vec<String> = vec!["MKNOD".to_string()];
    let ulimits: Vec<Ulimit> = vec![
        Ulimit { name: "nofile".to_string(), soft: 90, hard: 100 },
        Ulimit { name: "nproc".to_string(), soft: 90, hard: 100 },
    ];
    proof {
        assert(strings_view(cap_add) == Seq::<Seq<char>>::empty());
        assert(strings_view(cap_drop) == seq![denied_capability()]);
        assert(ulimits_view(ulimits) == default_host_limits().ulimits);
        assert(seq![denied_capability()][0] == denied_capability());
    }
    ContainerConfig {
        hostname: "glot-runner".to_string(),
        user: "glot".to_string(),
        attach_stdin: true,
        attach_stdout: true,
        attach_stderr: true,
        tty: false,
        open_stdin: true,
        stdin_once: true,
        image: image_name,
        network_disabled: true,
        host_config: HostConfig {
            memory: MEMORY_LIMIT,
            privileged: false,
            cap_add,
            cap_drop,
            ulimits,
        },
    }
}

} // verus!
