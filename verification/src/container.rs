//! Declarative container specification: ordered arguments, environment
//! entries, ports, networks, volumes and mounts, built fresh on every
//! reconfiguration and free of side effects.

use vstd::prelude::*;
use crate::graph::TaskId;

verus! {

/// One command-line argument of a container.
#[derive(Clone, PartialEq, Eq, Debug)]
pub enum Arg {
    /// A bare flag, rendered as one token.
    Flag(String),
    /// A key and a value, rendered as two tokens.
    Pair(String, String),
    /// A key and a value, rendered as one `key=value` token.
    Joined(String, String),
}

/// Mathematical shape of one argument.
pub enum ArgView {
    Flag(Seq<char>),
    Pair(Seq<char>, Seq<char>),
    Joined(Seq<char>, Seq<char>),
}

impl View for Arg {
    type V = ArgView;

    open spec fn view(&self) -> ArgView {
        match self {
            Arg::Flag(s) => ArgView::Flag(s@),
            Arg::Pair(k, v) => ArgView::Pair(k@, v@),
            Arg::Joined(k, v) => ArgView::Joined(k@, v@),
        }
    }
}

/// Ordered argument list of a container.
pub struct Args {
    pub items: Vec<Arg>,
}

impl View for Args {
    type V = Seq<ArgView>;

    open spec fn view(&self) -> Seq<ArgView> {
        self.items@.map_values(|a: Arg| a@)
    }
}

impl Args {
    pub fn new() -> (r: Args)
        ensures
            r@ == Seq::<ArgView>::empty(),
    {
        let r = Args { items: Vec::new() };
        proof {
            assert(r@ =~= Seq::<ArgView>::empty());
        }
        r
    }

    /// Appends a bare flag.
    pub fn flag(&mut self, name: &str)
        ensures
            final(self)@ == old(self)@.push(ArgView::Flag(name@)),
    {
        self.items.push(Arg::Flag(name.to_owned()));
        proof {
            assert(final(self)@ =~= old(self)@.push(ArgView::Flag(name@)));
        }
    }

    /// Appends a key and its value as two tokens.
    pub fn set(&mut self, key: &str, value: &str)
        ensures
            final(self)@ == old(self)@.push(ArgView::Pair(key@, value@)),
    {
        self.items.push(Arg::Pair(key.to_owned(), value.to_owned()));
        proof {
            assert(final(self)@ =~= old(self)@.push(ArgView::Pair(key@, value@)));
        }
    }

    /// Appends a `key=value` token.
    pub fn set_pair(&mut self, key: &str, value: String)
        ensures
            final(self)@ == old(self)@.push(ArgView::Joined(key@, value@)),
    {
        let ghost v = value@;
        self.items.push(Arg::Joined(key.to_owned(), value));
        proof {
            assert(final(self)@ =~= old(self)@.push(ArgView::Joined(key@, v)));
        }
    }
}

/// Environment entries of a container, in insertion order; the effective
/// value of a repeated key is its last entry.
pub struct Envs {
    pub items: Vec<(String, String)>,
}

impl View for Envs {
    type V = Seq<(Seq<char>, Seq<char>)>;

    open spec fn view(&self) -> Seq<(Seq<char>, Seq<char>)> {
        self.items@.map_values(|p: (String, String)| (p.0@, p.1@))
    }
}

/// The effective value of `key`: its last entry, if any.
pub open spec fn env_value(entries: Seq<(Seq<char>, Seq<char>)>, key: Seq<char>) -> Option<
    Seq<char>,
>
    decreases entries.len(),
{
    if entries.len() == 0 {
        None
    } else if entries.last().0 == key {
        Some(entries.last().1)
    } else {
        env_value(entries.drop_last(), key)
    }
}

impl Envs {
    pub fn new() -> (r: Envs)
        ensures
            r@ == Seq::<(Seq<char>, Seq<char>)>::empty(),
    {
        let r = Envs { items: Vec::new() };
        proof {
            assert(r@ =~= Seq::<(Seq<char>, Seq<char>)>::empty());
        }
        r
    }

    /// Appends an entry; it becomes the key's effective value.
    pub fn set(&mut self, key: &str, value: String)
        ensures
            final(self)@ == old(self)@.push((key@, value@)),
            env_value(final(self)@, key@) == Some(value@),
    {
        let ghost v = value@;
        self.items.push((key.to_owned(), value));
        proof {
            assert(final(self)@ =~= old(self)@.push((key@, v)));
        }
    }
}

/// Published container ports.
pub struct Ports {
    pub items: Vec<u16>,
}

impl View for Ports {
    type V = Seq<u16>;

    open spec fn view(&self) -> Seq<u16> {
        self.items@
    }
}

impl Ports {
    pub fn new() -> (r: Ports)
        ensures
            r@ == Seq::<u16>::empty(),
    {
        Ports { items: Vec::new() }
    }

    pub fn add(&mut self, port: u16)
        ensures
            final(self)@ == old(self)@.push(port),
    {
        self.items.push(port);
    }
}

/// Network attachments: the container's alias on each network task.
pub struct Networks {
    pub items: Vec<(String, TaskId)>,
}

impl View for Networks {
    type V = Seq<(Seq<char>, TaskId)>;

    open spec fn view(&self) -> Seq<(Seq<char>, TaskId)> {
        self.items@.map_values(|p: (String, TaskId)| (p.0@, p.1))
    }
}

impl Networks {
    pub fn new() -> (r: Networks)
        ensures
            r@ == Seq::<(Seq<char>, TaskId)>::empty(),
    {
        let r = Networks { items: Vec::new() };
        proof {
            assert(r@ =~= Seq::<(Seq<char>, TaskId)>::empty());
        }
        r
    }

    pub fn add(&mut self, alias: &str, network: TaskId)
        ensures
            final(self)@ == old(self)@.push((alias@, network)),
    {
        self.items.push((alias.to_owned(), network));
        proof {
            assert(final(self)@ =~= old(self)@.push((alias@, network)));
        }
    }
}

/// Named volumes the container uses.
pub struct Volumes {
    pub items: Vec<String>,
}

impl View for Volumes {
    type V = Seq<Seq<char>>;

    open spec fn view(&self) -> Seq<Seq<char>> {
        self.items@.map_values(|s: String| s@)
    }
}

impl Volumes {
    pub fn new() -> (r: Volumes)
        ensures
            r@ == Seq::<Seq<char>>::empty(),
    {
        let r = Volumes { items: Vec::new() };
        proof {
            assert(r@ =~= Seq::<Seq<char>>::empty());
        }
        r
    }

    pub fn add(&mut self, volume: &str)
        ensures
            final(self)@ == old(self)@.push(volume@),
    {
        self.items.push(volume.to_owned());
        proof {
            assert(final(self)@ =~= old(self)@.push(volume@));
        }
    }
}

/// One mount of the container filesystem.
#[derive(Clone, PartialEq, Eq, Debug)]
pub enum Mount {
    /// A host path bound to a container path.
    BindPath(String, String),
    /// A task-managed volume bound to a container path.
    TaskVolume(TaskId, String),
}

/// Mathematical shape of one mount.
pub enum MountView {
    BindPath(Seq<char>, Seq<char>),
    TaskVolume(TaskId, Seq<char>),
}

impl View for Mount {
    type V = MountView;

    open spec fn view(&self) -> MountView {
        match self {
            Mount::BindPath(h, c) => MountView::BindPath(h@, c@),
            Mount::TaskVolume(t, c) => MountView::TaskVolume(*t, c@),
        }
    }
}

/// Mounts of a container.
pub struct Mounts {
    pub items: Vec<Mount>,
}

impl View for Mounts {
    type V = Seq<MountView>;

    open spec fn view(&self) -> Seq<MountView> {
        self.items@.map_values(|m: Mount| m@)
    }
}

impl Mounts {
    pub fn new() -> (r: Mounts)
        ensures
            r@ == Seq::<MountView>::empty(),
    {
        let r = Mounts { items: Vec::new() };
        proof {
            assert(r@ =~= Seq::<MountView>::empty());
        }
        r
    }

    /// Binds a host path into the container.
    pub fn bind_path(&mut self, host: String, container: &str)
        ensures
            final(self)@ == old(self)@.push(MountView::BindPath(host@, container@)),
    {
        let ghost h = host@;
        self.items.push(Mount::BindPath(host, container.to_owned()));
        proof {
            assert(final(self)@ =~= old(self)@.push(MountView::BindPath(h, container@)));
        }
    }

    /// Mounts a task-managed volume into the container.
    pub fn add_volume(&mut self, task: TaskId, container: &str)
        ensures
            final(self)@ == old(self)@.push(MountView::TaskVolume(task, container@)),
    {
        self.items.push(Mount::TaskVolume(task, container.to_owned()));
        proof {
            assert(final(self)@ =~= old(self)@.push(MountView::TaskVolume(task, container@)));
        }
    }
}

/// Declarative description of how to start one container, a pure function
/// of the owning image's current state.
pub struct ContainerSpec {
    pub registry: String,
    pub image_name: String,
    pub args: Args,
    pub envs: Envs,
    pub ports: Ports,
    pub networks: Networks,
    pub volumes: Volumes,
    pub mounts: Mounts,
}

} // verus!
