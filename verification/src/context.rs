//! What the command line decides: where the configuration comes from and
//! how labels are read.
use crate::text::contains_str;
use vstd::prelude::*;

verus! {

/// The settings that the rest of the program works from.
#[derive(Debug)]
pub struct ApplicationContext {
    /// The label prefixes under which jobs are looked for, without
    /// repetition.
    pub label_prefixes: Vec<String>,
    /// The path of the runtime's socket, where it is not the default one.
    pub socket: Option<String>,
    /// Whether labels may declare jobs that run on the host.
    pub unsafe_labels: bool,
    /// The path of the configuration file.
    pub config_path: String,
}

impl Default for ApplicationContext {
    fn default() -> (r: Self)
        ensures
            r.label_prefixes@.len() == 0,
            r.socket is None,
            !r.unsafe_labels,
            r.config_path@ == "/etc/cfc.conf"@,
    {
        ApplicationContext {
            label_prefixes: Vec::new(),
            socket: None,
            unsafe_labels: false,
            config_path: String::from_str("/etc/cfc.conf"),
        }
    }
}

/// The arguments of the `daemon` subcommand.
#[derive(Debug)]
pub struct DaemonArgs {
    /// Whether the configuration comes from labels rather than from a file.
    pub docker: bool,
    /// A filter for the containers to consider. Reserved.
    pub filter: Option<String>,
    /// The path of the runtime's socket.
    pub socket_path: Option<String>,
    /// The label prefixes given on the command line.
    pub label_prefixes: Vec<String>,
    /// Whether labels may declare jobs that run on the host.
    pub allow_unsafe: bool,
}

/// The arguments of the `validate` subcommand.
#[derive(Debug)]
pub struct ValidateArgs {}

/// The subcommands.
#[derive(Debug)]
pub enum SubCommands {
    /// Run until signalled.
    Daemon(DaemonArgs),
    /// Check the configuration file.
    Validate(ValidateArgs),
}

/// The command line.
#[derive(Debug)]
pub struct CliArgs {
    /// The subcommand and its arguments.
    pub command: SubCommands,
    /// The path of the configuration file.
    pub config: Option<String>,
    /// Whether to behave as ofelia does.
    pub ofelia: bool,
    /// How often `-v` was given.
    pub verbosity: u8,
}

/// The list without its repetitions: each string once, where it stands
/// first.
pub open spec fn without_repeats(list: Seq<Seq<char>>) -> Seq<Seq<char>>
    decreases list.len(),
{
    if list.len() == 0 {
        Seq::empty()
    } else {
        let before = without_repeats(list.drop_last());
        if before.contains(list.last()) {
            before
        } else {
            before.push(list.last())
        }
    }
}

/// The configuration path: the one given, or else the default of the mode.
pub open spec fn config_path_of(config: Option<Seq<char>>, ofelia: bool) -> Seq<char> {
    match config {
        Some(path) => path,
        None => if ofelia {
            "/etc/ofelia.conf"@
        } else {
            "/etc/cfc.conf"@
        },
    }
}

/// The label prefixes of the daemon: the prefixes given, each once; where
/// none is given, `ofelia` in compatibility mode and `cfc` otherwise.
pub open spec fn prefixes_of(given: Seq<Seq<char>>, ofelia: bool) -> Seq<Seq<char>> {
    if given.len() > 0 {
        without_repeats(given)
    } else if ofelia {
        seq!["ofelia"@]
    } else {
        seq!["cfc"@]
    }
}

impl CliArgs {
    /// The settings that the command line asks for.
    pub fn get_context(&self) -> (r: ApplicationContext)
        ensures
            r.config_path@ == config_path_of(self.config.deep_view(), self.ofelia),
            match self.command {
                SubCommands::Daemon(daemon) => {
                    &&& r.unsafe_labels == (daemon.allow_unsafe || self.ofelia)
                    &&& r.socket.deep_view() == daemon.socket_path.deep_view()
                    &&& r.label_prefixes.deep_view() == prefixes_of(
                        daemon.label_prefixes.deep_view(),
                        self.ofelia,
                    )
                },
                SubCommands::Validate(_) => {
                    &&& !r.unsafe_labels
                    &&& r.socket is None
                    &&& r.label_prefixes@.len() == 0
                },
            },
    {
        let mut context = ApplicationContext::default();
        context.config_path = match &self.config {
            Some(path) => path.clone(),
            None => if self.ofelia {
                String::from_str("/etc/ofelia.conf")
            } else {
                context.config_path
            },
        };
        match &self.command {
            SubCommands::Daemon(daemon) => {
                context.unsafe_labels = daemon.allow_unsafe;
                context.socket = match &daemon.socket_path {
                    Some(path) => Some(path.clone()),
                    None => None,
                };
                if self.ofelia {
                    context.unsafe_labels = true;
                }
                let mut prefixes: Vec<String> = Vec::new();
                assert(prefixes.deep_view() =~= Seq::<Seq<char>>::empty());
                let ghost given = daemon.label_prefixes.deep_view();
                let mut i: usize = 0;
                assert(given.take(0) =~= Seq::<Seq<char>>::empty());
                while i < daemon.label_prefixes.len()
                    invariant
                        i <= daemon.label_prefixes.len(),
                        given == daemon.label_prefixes.deep_view(),
                        prefixes.deep_view() == without_repeats(given.take(i as int)),
                    decreases daemon.label_prefixes.len() - i,
                {
                    let ghost before = prefixes.deep_view();
                    assert(given.take(i + 1).drop_last() =~= given.take(i as int));
                    assert(given.take(i + 1).last() == daemon.label_prefixes@[i as int]@);
                    if !contains_str(&prefixes, daemon.label_prefixes[i].as_str()) {
                        prefixes.push(daemon.label_prefixes[i].clone());
                        assert(prefixes.deep_view() =~= before.push(
                            daemon.label_prefixes@[i as int]@,
                        ));
                    }
                    i += 1;
                }
                assert(given.take(given.len() as int) =~= given);
                if daemon.label_prefixes.len() == 0 {
                    if self.ofelia {
                        prefixes.push(String::from_str("ofelia"));
                        assert(prefixes.deep_view() =~= seq!["ofelia"@]);
                    } else {
                        prefixes.push(String::from_str("cfc"));
                        assert(prefixes.deep_view() =~= seq!["cfc"@]);
                    }
                }
                context.label_prefixes = prefixes;
            },
            SubCommands::Validate(_) => {},
        }
        context
    }
}

} // verus!
