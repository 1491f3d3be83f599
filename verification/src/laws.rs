//! What holds of the library as a whole.
use crate::args;
use crate::args::BitcoindParams;
use crate::args::Ports;
use crate::args::ZmqPorts;
use crate::conf::Conf;
use crate::error::Error;
use crate::exe::EnvVar;
use crate::launch::Action;
use crate::launch::Event;
use crate::launch::Failure;
use crate::launch::Launch;
use crate::launch::Place;
use crate::launch::Spawned;
use crate::launch::Stage;
use crate::node::DataDir;
use crate::node::KillStep;
use crate::node::Lnd;
use crate::paths;
use crate::results;
use crate::rpc;
use crate::text;
use crate::zmq;
use std::path::PathBuf;
use vstd::prelude::*;

verus! {

/// The launch that a sequence of events leads to.
pub open spec fn run<'a>(start: Launch<'a>, events: Seq<Event>) -> Launch<'a>
    decreases events.len(),
{
    if events.len() == 0 {
        start
    } else {
        run(start, events.drop_last()).after(events.last())
    }
}

/// Whether each of a sequence of events can come of the action called for at its time.
pub open spec fn accepted(start: Launch, events: Seq<Event>) -> bool
    decreases events.len(),
{
    events.len() == 0 || {
        &&& accepted(start, events.drop_last())
        &&& run(start, events.drop_last()).accepts(events.last())
    }
}

/// How many processes were spawned.
pub open spec fn spawns(events: Seq<Event>) -> nat
    decreases events.len(),
{
    if events.len() == 0 {
        0
    } else {
        spawns(events.drop_last()) + (if events.last() is Spawned {
            1nat
        } else {
            0nat
        })
    }
}

/// How many processes exited early.
pub open spec fn exits(events: Seq<Event>) -> nat
    decreases events.len(),
{
    if events.len() == 0 {
        0
    } else {
        exits(events.drop_last()) + (if events.last() is Exited {
            1nat
        } else {
            0nat
        })
    }
}

/// How many blocks were generated.
pub open spec fn blocks(events: Seq<Event>) -> nat
    decreases events.len(),
{
    if events.len() == 0 {
        0
    } else {
        blocks(events.drop_last()) + (if events.last() is BlockGenerated {
            1nat
        } else {
            0nat
        })
    }
}

/// Whether the launch gave up because the process exited early.
pub open spec fn gave_up(launch: Launch) -> bool {
    launch.stage matches Stage::Failed { failure: Failure::Refused(Error::EarlyExit(_)) }
}

/// The working directory of a launch, once there is one and as long as the launch uses it.
pub open spec fn work_dir_of(stage: Stage) -> Option<DataDir> {
    match stage {
        Stage::Bitcoind { work_dir } => Some(work_dir),
        Stage::ListenPort { work_dir, bitcoind } => Some(work_dir),
        Stage::GrpcPort { work_dir, bitcoind, listen } => Some(work_dir),
        Stage::RestPort { work_dir, bitcoind, listen, grpc } => Some(work_dir),
        Stage::Process { work_dir, bitcoind, ports } => Some(work_dir),
        Stage::Status { spawned } => Some(spawned.work_dir),
        Stage::Client { spawned } => Some(spawned.work_dir),
        Stage::Pause { spawned } => Some(spawned.work_dir),
        Stage::Cert { spawned } => Some(spawned.work_dir),
        Stage::Macaroon { spawned, cert } => Some(spawned.work_dir),
        Stage::WarmUp { spawned, cert, macaroon } => Some(spawned.work_dir),
        Stage::Ready { spawned, cert, macaroon } => Some(spawned.work_dir),
        _ => None,
    }
}

/// The ports that lnd is told to listen on, once all are picked.
pub open spec fn ports_of(stage: Stage) -> Option<Ports> {
    match stage {
        Stage::Process { work_dir, bitcoind, ports } => Some(ports),
        Stage::Status { spawned } => Some(spawned.ports),
        Stage::Client { spawned } => Some(spawned.ports),
        Stage::Pause { spawned } => Some(spawned.ports),
        Stage::Cert { spawned } => Some(spawned.ports),
        Stage::Macaroon { spawned, cert } => Some(spawned.ports),
        Stage::WarmUp { spawned, cert, macaroon } => Some(spawned.ports),
        Stage::Ready { spawned, cert, macaroon } => Some(spawned.ports),
        _ => None,
    }
}

/// Whether the process was spawned in this attempt.
pub open spec fn has_process(stage: Stage) -> bool {
    ports_of(stage) is Some && !(stage is Process)
}

/// A launch keeps what the user wants and where bitcoind publishes, and never gains attempts.
pub proof fn law_configuration_is_kept(conf: Conf, zmq: ZmqPorts, events: Seq<Event>)
    requires
        accepted(Launch::start(conf, zmq), events),
    ensures
        run(Launch::start(conf, zmq), events).wf(),
        run(Launch::start(conf, zmq), events).conf == conf,
        run(Launch::start(conf, zmq), events).zmq == zmq,
    decreases events.len(),
{
    if events.len() > 0 {
        law_configuration_is_kept(conf, zmq, events.drop_last());
    }
}

/// How many times a launch tries to spawn the process: as often as attempts are configured, and
/// at least once.
pub open spec fn tries(conf: Conf) -> int {
    if conf.attempts == 0 {
        1
    } else {
        conf.attempts as int
    }
}

/// At any time, each process that exited early but the one over which the launch gave up has
/// cost one attempt.
pub proof fn law_each_exit_costs_an_attempt(conf: Conf, zmq: ZmqPorts, events: Seq<Event>)
    requires
        accepted(Launch::start(conf, zmq), events),
    ensures
        exits(events) == conf.attempts - run(Launch::start(conf, zmq), events).attempts + (
        if gave_up(run(Launch::start(conf, zmq), events)) {
            1int
        } else {
            0int
        }),
        gave_up(run(Launch::start(conf, zmq), events)) ==> run(
            Launch::start(conf, zmq),
            events,
        ).attempts <= 1,
        conf.attempts >= 1 ==> run(Launch::start(conf, zmq), events).attempts >= 1,
    decreases events.len(),
{
    if events.len() > 0 {
        law_each_exit_costs_an_attempt(conf, zmq, events.drop_last());
        law_configuration_is_kept(conf, zmq, events.drop_last());
    }
}

/// A launch gives up over an early exit exactly when as many processes exited as it may try to
/// spawn, and it reports the status of the last.
pub proof fn law_gives_up_when_attempts_are_used_up(conf: Conf, zmq: ZmqPorts, events: Seq<Event>)
    requires
        accepted(Launch::start(conf, zmq), events),
    ensures
        gave_up(run(Launch::start(conf, zmq), events)) <==> exits(events) == tries(conf),
        exits(events) <= tries(conf),
        run(Launch::start(conf, zmq), events).stage matches Stage::Failed {
            failure: Failure::Refused(Error::EarlyExit(status)),
        } ==> events.len() > 0 && events.last() == Event::Exited(status),
{
    law_each_exit_costs_an_attempt(conf, zmq, events);
    law_configuration_is_kept(conf, zmq, events);
}

/// No more processes are spawned than the launch may try to spawn, and just as many where it
/// gives up over an early exit; a new one is spawned only when the one before it exited.
pub proof fn law_spawns_are_bounded(conf: Conf, zmq: ZmqPorts, events: Seq<Event>)
    requires
        accepted(Launch::start(conf, zmq), events),
    ensures
        spawns(events) <= exits(events) + 1,
        has_process(run(Launch::start(conf, zmq), events).stage) ==> spawns(events) == exits(events)
            + 1,
        spawns(events) <= tries(conf),
        gave_up(run(Launch::start(conf, zmq), events)) ==> spawns(events) == tries(conf),
{
    lemma_spawns_follow_exits(conf, zmq, events);
    law_each_exit_costs_an_attempt(conf, zmq, events);
    law_configuration_is_kept(conf, zmq, events);
}

proof fn lemma_spawns_follow_exits(conf: Conf, zmq: ZmqPorts, events: Seq<Event>)
    requires
        accepted(Launch::start(conf, zmq), events),
    ensures
        exits(events) <= spawns(events) <= exits(events) + 1,
        has_process(run(Launch::start(conf, zmq), events).stage) ==> spawns(events) == exits(events)
            + 1,
        gave_up(run(Launch::start(conf, zmq), events)) ==> spawns(events) == exits(events),
        !has_process(run(Launch::start(conf, zmq), events).stage) && !(run(
            Launch::start(conf, zmq),
            events,
        ).stage is Failed) ==> spawns(events) == exits(events),
    decreases events.len(),
{
    if events.len() > 0 {
        lemma_spawns_follow_exits(conf, zmq, events.drop_last());
    }
}

/// A block is generated only after bitcoind said that it is in initial block download, and at
/// most once for each time that the launch begins anew.
pub proof fn law_blocks_are_generated_in_download(conf: Conf, zmq: ZmqPorts, events: Seq<Event>)
    requires
        accepted(Launch::start(conf, zmq), events),
    ensures
        blocks(events) <= exits(events) + 1,
        match run(Launch::start(conf, zmq), events).stage {
            Stage::ChainInfo => blocks(events) <= exits(events),
            Stage::Address => {
                &&& blocks(events) <= exits(events)
                &&& events.last() matches Event::ChainInfo(info)
                &&& rpc::downloading(info)
            },
            Stage::Block { address } => blocks(events) <= exits(events) && events.last()
                == Event::Address(address),
            _ => true,
        },
    decreases events.len(),
{
    if events.len() > 0 {
        law_blocks_are_generated_in_download(conf, zmq, events.drop_last());
    }
}

/// A client is connected only to a process that was just seen running, and after a failed try
/// the launch pauses before it looks at the process again.
pub proof fn law_process_is_checked_before_each_try(conf: Conf, zmq: ZmqPorts, events: Seq<Event>)
    requires
        accepted(Launch::start(conf, zmq), events),
    ensures
        match run(Launch::start(conf, zmq), events).stage {
            Stage::Client { spawned } => events.len() > 0 && events.last() is Running,
            Stage::Pause { spawned } => events.len() > 0 && events.last() is NotConnected,
            Stage::Status { spawned } => events.len() > 0 && (events.last() == Event::Spawned(
                spawned.process,
            ) || events.last() is Waited),
            _ => true,
        },
{
}

/// Whether no process exited since the event at `i`.
pub open spec fn same_attempt(events: Seq<Event>, i: int) -> bool {
    &&& 0 <= i < events.len()
    &&& forall|j: int| i <= j < events.len() ==> !(#[trigger] events[j] is Exited)
}

proof fn lemma_attempt_goes_on(events: Seq<Event>, i: int)
    requires
        events.len() > 0,
        same_attempt(events.drop_last(), i),
        !(events.last() is Exited),
    ensures
        same_attempt(events, i),
{
    assert forall|j: int| i <= j < events.len() implies !(#[trigger] events[j] is Exited) by {
        if j < events.len() - 1 {
            assert(events[j] == events.drop_last()[j]);
        }
    }
}

/// Whether the events from `i` on gave these ports, in the attempt that still goes on.
pub open spec fn ports_given(events: Seq<Event>, i: int, ports: Ports) -> bool {
    &&& same_attempt(events, i)
    &&& i + 2 < events.len()
    &&& events[i] == Event::Port(ports.listen)
    &&& events[i + 1] == Event::Port(ports.grpc)
    &&& events[i + 2] == Event::Port(ports.rest)
}

/// Each process is told to listen on ports that the system was asked for in the same attempt,
/// one after the other.
pub proof fn law_ports_are_asked_for_in_each_attempt(
    conf: Conf,
    zmq: ZmqPorts,
    events: Seq<Event>,
)
    requires
        accepted(Launch::start(conf, zmq), events),
    ensures
        ports_of(run(Launch::start(conf, zmq), events).stage) matches Some(ports) ==> exists|i: int|
            ports_given(events, i, ports),
    decreases events.len(),
{
    if events.len() > 0 {
        let start = Launch::start(conf, zmq);
        let before = events.drop_last();
        let n = events.len() as int;
        law_ports_are_asked_for_in_each_attempt(conf, zmq, before);
        if let Some(ports) = ports_of(run(start, events).stage) {
            if run(start, events).stage is Process {
                lemma_ports_so_far(conf, zmq, before);
                assert(events[n - 3] == before[n - 3] && events[n - 2] == before[n - 2]);
                assert(ports_given(events, n - 3, ports));
            } else {
                let i = choose|i: int| ports_given(before, i, ports);
                lemma_attempt_goes_on(events, i);
                assert(events[i] == before[i] && events[i + 1] == before[i + 1] && events[i + 2]
                    == before[i + 2]);
                assert(ports_given(events, i, ports));
            }
        }
    }
}

proof fn lemma_ports_so_far(conf: Conf, zmq: ZmqPorts, events: Seq<Event>)
    requires
        accepted(Launch::start(conf, zmq), events),
    ensures
        match run(Launch::start(conf, zmq), events).stage {
            Stage::GrpcPort { work_dir, bitcoind, listen } => events.len() >= 1 && events.last()
                == Event::Port(listen),
            Stage::RestPort { work_dir, bitcoind, listen, grpc } => events.len() >= 2
                && events[events.len() - 2] == Event::Port(listen) && events.last() == Event::Port(
                grpc,
            ),
            _ => true,
        },
    decreases events.len(),
{
    if events.len() > 0 {
        lemma_ports_so_far(conf, zmq, events.drop_last());
    }
}

/// Whether the event at `i` says that a temporary directory was created at `path`, where it had
/// to be: in the directory that the configuration names, or else in the one that the environment
/// was just found to name, or else where the system keeps such directories. It came in the
/// attempt that still goes on.
pub open spec fn temporary_created(
    conf: Conf,
    zmq: ZmqPorts,
    events: Seq<Event>,
    i: int,
    path: PathBuf,
) -> bool {
    &&& same_attempt(events, i)
    &&& events[i] == Event::TemporaryDirectory(path)
    &&& run(Launch::start(conf, zmq), events.take(i)).stage matches Stage::Directory { place }
    &&& place_is_due(conf, events.take(i), place)
}

/// Whether the event at `i` says that the persistent directory `path` is there, after it was
/// called for. It came in the attempt that still goes on.
pub open spec fn persistent_created(
    conf: Conf,
    zmq: ZmqPorts,
    events: Seq<Event>,
    i: int,
    path: PathBuf,
) -> bool {
    &&& same_attempt(events, i)
    &&& events[i] is PersistentDirectory
    &&& run(Launch::start(conf, zmq), events.take(i)).stage == (Stage::Directory {
        place: Place::Persistent(path),
    })
}

/// Whether `place` is where a working directory has to be created after these events.
pub open spec fn place_is_due(conf: Conf, events: Seq<Event>, place: Place) -> bool {
    match place {
        Place::TemporaryIn(path) => conf.tmpdir == Some(path) && conf.staticdir is None,
        Place::TemporaryInRoot(root) => {
            &&& conf.tmpdir is None
            &&& conf.staticdir is None
            &&& events.len() > 0
            &&& events.last() == Event::TempRoot(EnvVar::Value(root))
        },
        Place::TemporaryDefault => {
            &&& conf.tmpdir is None
            &&& conf.staticdir is None
            &&& events.len() > 0
            &&& events.last() matches Event::TempRoot(root)
            &&& !(root is Value)
        },
        Place::Persistent(path) => conf.tmpdir is None && conf.staticdir == Some(path),
    }
}

/// Whether the stage after these events uses directories as the configuration says.
pub open spec fn directories_follow(conf: Conf, zmq: ZmqPorts, events: Seq<Event>) -> bool {
    let stage = run(Launch::start(conf, zmq), events).stage;
    &&& work_dir_of(stage) matches Some(work_dir) ==> match work_dir {
        DataDir::Persistent(path) => {
            &&& conf.tmpdir is None
            &&& conf.staticdir == Some(path)
            &&& exists|i: int| persistent_created(conf, zmq, events, i, path)
        },
        DataDir::Temporary(path) => {
            &&& conf.staticdir is None
            &&& exists|i: int| temporary_created(conf, zmq, events, i, path)
        },
    }
    &&& stage matches Stage::Directory { place } ==> place_is_due(conf, events, place)
    &&& stage is TempRoot ==> conf.tmpdir is None && conf.staticdir is None
}

/// The working directory is the persistent one that the configuration names, if it names one,
/// and else a temporary one, and it was created in this attempt: a temporary one in the directory that the configuration
/// names, or else in the one that the environment names, or else where the system keeps them.
pub proof fn law_directories_follow_configuration(conf: Conf, zmq: ZmqPorts, events: Seq<Event>)
    requires
        accepted(Launch::start(conf, zmq), events),
    ensures
        directories_follow(conf, zmq, events),
    decreases events.len(),
{
    if events.len() > 0 {
        let start = Launch::start(conf, zmq);
        let before = events.drop_last();
        law_directories_follow_configuration(conf, zmq, before);
        law_configuration_is_kept(conf, zmq, before);
        let n = before.len() as int;
        assert(events.take(n) =~= before);
        match work_dir_of(run(start, events).stage) {
            Some(DataDir::Temporary(path)) => {
                if run(start, events).stage is Bitcoind {
                    assert(temporary_created(conf, zmq, events, n, path));
                } else {
                    let i = choose|i: int| temporary_created(conf, zmq, before, i, path);
                    assert(events.take(i) =~= before.take(i));
                    lemma_attempt_goes_on(events, i);
                    assert(temporary_created(conf, zmq, events, i, path));
                }
            },
            Some(DataDir::Persistent(path)) => {
                if run(start, events).stage is Bitcoind {
                    assert(persistent_created(conf, zmq, events, n, path));
                } else {
                    let i = choose|i: int| persistent_created(conf, zmq, before, i, path);
                    assert(events.take(i) =~= before.take(i));
                    lemma_attempt_goes_on(events, i);
                    assert(persistent_created(conf, zmq, events, i, path));
                }
            },
            None => {},
        }
    }
}

/// With the default configuration lnd works in a temporary directory.
pub proof fn law_default_directory_is_temporary(conf: Conf, zmq: ZmqPorts, events: Seq<Event>)
    requires
        conf.is_default(),
        accepted(Launch::start(conf, zmq), events),
    ensures
        work_dir_of(run(Launch::start(conf, zmq), events).stage) matches Some(work_dir) ==> work_dir
            is Temporary,
{
    law_directories_follow_configuration(conf, zmq, events);
}

/// Where both a temporary and a persistent directory are configured no process is ever spawned,
/// and once bitcoind is out of initial block download the launch is refused.
pub proof fn law_both_directories_are_refused(conf: Conf, zmq: ZmqPorts, events: Seq<Event>)
    requires
        conf.tmpdir is Some,
        conf.staticdir is Some,
        accepted(Launch::start(conf, zmq), events),
    ensures
        spawns(events) == 0,
        match run(Launch::start(conf, zmq), events).stage {
            Stage::ChainInfo => true,
            Stage::Address => true,
            Stage::Block { address } => true,
            Stage::Failed { failure } => failure == Failure::Refused(Error::BothDirsSpecified)
                || (failure == Failure::Outside && events.last() is Failed),
            _ => false,
        },
    decreases events.len(),
{
    if events.len() > 0 {
        law_both_directories_are_refused(conf, zmq, events.drop_last());
        law_configuration_is_kept(conf, zmq, events.drop_last());
    }
}

/// From the time that its arguments are made until it is up, as long as the process does not
/// exit, a launch keeps the ports and the working directory of those arguments.
pub proof fn law_launch_keeps_to_its_arguments(
    launch: Launch,
    work_dir: DataDir,
    bitcoind: BitcoindParams,
    ports: Ports,
    events: Seq<Event>,
)
    requires
        launch.stage == (Stage::Process { work_dir, bitcoind, ports }),
        accepted(launch, events),
        exits(events) == 0,
    ensures
        ({
            let stage = run(launch, events).stage;
            stage is Failed || (ports_of(stage) == Some(ports) && work_dir_of(stage) == Some(
                work_dir,
            ))
        }),
    decreases events.len(),
{
    if events.len() > 0 {
        law_launch_keeps_to_its_arguments(launch, work_dir, bitcoind, ports, events.drop_last());
    }
}

/// A node is reached where its arguments told it to listen, and works in the directory that
/// they told it to use.
pub proof fn law_node_is_where_its_arguments_say(
    launch: Launch,
    work_dir: DataDir,
    bitcoind: BitcoindParams,
    ports: Ports,
    events: Seq<Event>,
    spawned: Spawned,
    cert: Vec<u8>,
    macaroon: Vec<u8>,
    node: Lnd,
)
    requires
        launch.stage == (Stage::Process { work_dir, bitcoind, ports }),
        accepted(launch, events),
        exits(events) == 0,
        run(launch, events).stage == (Stage::Ready { spawned, cert, macaroon }),
        Launch::yields(spawned, cert@, macaroon@, node),
    ensures
        ({
            let line = args::lnd_args(
                launch.conf,
                paths::path_text(node.work_dir.location()),
                bitcoind,
                launch.zmq,
                ports,
            );
            forall|action: Action| #[trigger]
                launch.calls_for(action) ==> (action matches Action::Spawn { args, view_stderr }
                    && args::texts(args@) == line)
        }),
        node.work_dir == work_dir,
        node.grpc_url@ == "https://localhost:"@ + args::port_text(ports.grpc),
        node.rest_url@ == "https://localhost:"@ + args::port_text(ports.rest),
        node.listen_url matches Some(url) && url@ == "localhost:"@ + args::port_text(ports.listen),
        ({
            let line = args::lnd_args(
                launch.conf,
                paths::path_text(node.work_dir.location()),
                bitcoind,
                launch.zmq,
                ports,
            );
            &&& line.contains("--lnddir="@ + paths::path_text(node.work_dir.location()))
            &&& line.contains("--rpclisten=0.0.0.0:"@ + args::port_text(ports.grpc))
            &&& line.contains("--restlisten=0.0.0.0:"@ + args::port_text(ports.rest))
            &&& line.contains("--listen=0.0.0.0:"@ + args::port_text(ports.listen))
        }),
{
    law_launch_keeps_to_its_arguments(launch, work_dir, bitcoind, ports, events);
    let dir = paths::path_text(work_dir.location());
    let line = args::lnd_args(launch.conf, dir, bitcoind, launch.zmq, ports);
    let n = launch.conf.args@.len() as int;
    assert(line[n] == "--lnddir="@ + dir);
    assert(line[n + 9] == "--listen=0.0.0.0:"@ + args::port_text(ports.listen));
    assert(line[n + 10] == "--rpclisten=0.0.0.0:"@ + args::port_text(ports.grpc));
    assert(line[n + 11] == "--restlisten=0.0.0.0:"@ + args::port_text(ports.rest));
}

/// A launch has an end only when the node is up or the launch failed.
pub proof fn law_launch_is_never_stuck(launch: Launch)
    ensures
        (exists|event: Event| launch.accepts(event)) <==> !(launch.stage is Ready
            || launch.stage is Failed),
{
    let bitcoind: BitcoindParams = arbitrary();
    assert(launch.stage is Bitcoind ==> launch.accepts(Event::Bitcoind(bitcoind)));
    assert(launch.stage is Block ==> launch.accepts(Event::BlockGenerated));
    assert(launch.stage is TempRoot ==> launch.accepts(Event::TempRoot(EnvVar::Absent)));
    assert(launch.stage is Client ==> launch.accepts(Event::Connected));
    assert(launch.stage is Pause || launch.stage is WarmUp ==> launch.accepts(Event::Waited));
    assert(launch.accepts(Event::Failed) || launch.stage is Bitcoind || launch.stage is Block
        || launch.stage is TempRoot || launch.stage is Client || launch.stage is Pause
        || launch.stage is WarmUp || launch.stage is Ready || launch.stage is Failed);
}

/// The user's arguments come first, unchanged and in their order.
pub proof fn law_user_arguments_come_first(
    conf: Conf,
    work_dir: Seq<char>,
    bitcoind: BitcoindParams,
    zmq: ZmqPorts,
    ports: Ports,
)
    ensures
        args::lnd_args(conf, work_dir, bitcoind, zmq, ports).take(conf.args@.len() as int)
            == conf.arg_texts(),
{
    assert(args::lnd_args(conf, work_dir, bitcoind, zmq, ports).take(conf.args@.len() as int)
        =~= conf.arg_texts());
}

/// The files that are read once a client is connected are those that it was connected with.
pub proof fn law_files_read_are_those_of_the_client(
    launch: Launch,
    spawned: Spawned,
    cert: Vec<u8>,
    connect: Action,
    first: Action,
    second: Action,
)
    requires
        launch.at(Stage::Client { spawned }).calls_for(connect),
        launch.at(Stage::Cert { spawned }).calls_for(first),
        launch.at(Stage::Macaroon { spawned, cert }).calls_for(second),
    ensures
        connect matches Action::Connect { url, cert_file, macaroon_file } && first
            == (Action::ReadFile { path: cert_file }) && second == (Action::ReadFile {
            path: macaroon_file,
        }),
{
}

/// Of the configuration only the user's arguments and the network reach the command line: the
/// ports on it are those that the system gave.
pub proof fn law_command_line_takes_arguments_and_network(
    conf: Conf,
    other: Conf,
    work_dir: Seq<char>,
    bitcoind: BitcoindParams,
    zmq: ZmqPorts,
    ports: Ports,
)
    requires
        conf.arg_texts() == other.arg_texts(),
        conf.network@ == other.network@,
    ensures
        args::lnd_args(conf, work_dir, bitcoind, zmq, ports) == args::lnd_args(
            other,
            work_dir,
            bitcoind,
            zmq,
            ports,
        ),
{
}

/// lnd is told to write its certificate into its working directory, under the name by which the
/// library looks for it there.
pub proof fn law_certificate_is_written_under_the_name_that_is_read(
    conf: Conf,
    work_dir: Seq<char>,
    bitcoind: BitcoindParams,
    zmq: ZmqPorts,
    ports: Ports,
)
    ensures
        args::lnd_args(conf, work_dir, bitcoind, zmq, ports).contains(
            "--tlscertpath="@ + (work_dir + "/"@ + args::cert_file()),
        ),
{
    reveal_strlit("/");
    reveal_strlit("tls.cert");
    reveal_strlit("/tls.cert");
    assert("/tls.cert"@ =~= "/"@ + "tls.cert"@);
    assert("--tlscertpath="@ + work_dir + "/tls.cert"@ =~= "--tlscertpath="@ + (work_dir + "/"@
        + "tls.cert"@));
    assert(args::lnd_args(conf, work_dir, bitcoind, zmq, ports)[conf.args@.len() as int + 1]
        == "--tlscertpath="@ + work_dir + "/tls.cert"@);
}

/// lnd subscribes to the ports on which bitcoind publishes, if it is given those with which
/// bitcoind was set up.
pub proof fn law_lnd_subscribes_where_bitcoind_publishes(
    conf: Conf,
    work_dir: Seq<char>,
    bitcoind: BitcoindParams,
    zmq: ZmqPorts,
    ports: Ports,
)
    ensures
        exists|block: Seq<char>, tx: Seq<char>|
            {
                &&& zmq::publish_blocks(zmq.raw_block) == "-zmqpubrawblock=tcp://0.0.0.0:"@ + block
                &&& zmq::publish_txs(zmq.raw_tx) == "-zmqpubrawtx=tcp://0.0.0.0:"@ + tx
                &&& #[trigger] args::lnd_args(conf, work_dir, bitcoind, zmq, ports).contains(
                    "--bitcoind.zmqpubrawblock=tcp://127.0.0.1:"@ + block,
                )
                &&& #[trigger] args::lnd_args(conf, work_dir, bitcoind, zmq, ports).contains(
                    "--bitcoind.zmqpubrawtx=tcp://127.0.0.1:"@ + tx,
                )
            },
{
    let line = args::lnd_args(conf, work_dir, bitcoind, zmq, ports);
    let block = args::port_text(zmq.raw_block);
    let tx = args::port_text(zmq.raw_tx);
    let n = conf.args@.len() as int;
    assert(line[n + 7] == "--bitcoind.zmqpubrawblock=tcp://127.0.0.1:"@ + block);
    assert(line[n + 8] == "--bitcoind.zmqpubrawtx=tcp://127.0.0.1:"@ + tx);
    assert(line.contains("--bitcoind.zmqpubrawblock=tcp://127.0.0.1:"@ + block));
    assert(line.contains("--bitcoind.zmqpubrawtx=tcp://127.0.0.1:"@ + tx));
}

/// Different numbers have different decimal texts.
pub proof fn law_decimal_tells_numbers_apart(a: nat, b: nat)
    requires
        text::decimal_text(a) == text::decimal_text(b),
    ensures
        a == b,
{
    results::lemma_decimal_reads_back(a);
    results::lemma_decimal_reads_back(b);
}

/// Servers on different ports have different urls.
pub proof fn law_urls_tell_ports_apart(a: u16, b: u16)
    ensures
        args::https_url(a) == args::https_url(b) ==> a == b,
        args::peer_url(a) == args::peer_url(b) ==> a == b,
{
    if args::https_url(a) == args::https_url(b) {
        lemma_same_rest("https://localhost:"@, args::port_text(a), args::port_text(b));
        law_decimal_tells_numbers_apart(a as nat, b as nat);
    }
    if args::peer_url(a) == args::peer_url(b) {
        lemma_same_rest("localhost:"@, args::port_text(a), args::port_text(b));
        law_decimal_tells_numbers_apart(a as nat, b as nat);
    }
}

proof fn lemma_same_rest(prefix: Seq<char>, a: Seq<char>, b: Seq<char>)
    requires
        prefix + a == prefix + b,
    ensures
        a == b,
{
    assert(a =~= (prefix + a).skip(prefix.len() as int));
    assert(b =~= (prefix + b).skip(prefix.len() as int));
}

/// The certificate and the macaroon can be told from their hexadecimal texts.
pub proof fn law_hex_tells_bytes_apart(a: Seq<u8>, b: Seq<u8>)
    requires
        text::hex_text(a) == text::hex_text(b),
    ensures
        a == b,
{
    assert(text::hex_text(a).len() == 2 * a.len());
    assert(text::hex_text(b).len() == 2 * b.len());
    assert forall|i: int| 0 <= i < a.len() implies a[i] == b[i] by {
        assert((2 * i) / 2 == i && (2 * i + 1) / 2 == i);
        assert(text::hex_text(a)[2 * i] == text::hex_char((a[i] / 16) as nat));
        assert(text::hex_text(b)[2 * i] == text::hex_char((b[i] / 16) as nat));
        assert(text::hex_text(a)[2 * i + 1] == text::hex_char((a[i] % 16) as nat));
        assert(text::hex_text(b)[2 * i + 1] == text::hex_char((b[i] % 16) as nat));
        lemma_hex_digits_differ((a[i] / 16) as nat, (b[i] / 16) as nat);
        lemma_hex_digits_differ((a[i] % 16) as nat, (b[i] % 16) as nat);
    }
    assert(a =~= b);
}

proof fn lemma_hex_digits_differ(c: nat, d: nat)
    requires
        c < 16,
        d < 16,
        text::hex_char(c) == text::hex_char(d),
    ensures
        c == d,
{
}

/// What terminating a node comes to after some of its steps succeeded or not.
pub open spec fn kill_run(step: KillStep, outcomes: Seq<bool>) -> KillStep
    decreases outcomes.len(),
{
    if outcomes.len() == 0 {
        step
    } else {
        kill_run(step, outcomes.drop_last()).following(outcomes.last())
    }
}

/// A node that is asked to shut down is never killed outright, and one that is killed outright
/// is not asked before, nor waited for.
pub proof fn law_shutdown_and_killing_do_not_mix(step: KillStep, outcomes: Seq<bool>)
    ensures
        step is Interrupt ==> !(kill_run(step, outcomes) is Terminate),
        step is Terminate ==> !(kill_run(step, outcomes) is Interrupt) && !(kill_run(
            step,
            outcomes,
        ) is AwaitExit),
    decreases outcomes.len(),
{
    if outcomes.len() > 0 {
        law_shutdown_and_killing_do_not_mix(step, outcomes.drop_last());
        lemma_kill_goes_forward(step, outcomes.drop_last());
    }
}

proof fn lemma_kill_goes_forward(step: KillStep, outcomes: Seq<bool>)
    ensures
        step is Terminate ==> kill_run(step, outcomes) is Terminate || kill_run(step, outcomes)
            is Finished || kill_run(step, outcomes) is Failed,
    decreases outcomes.len(),
{
    if outcomes.len() > 0 {
        lemma_kill_goes_forward(step, outcomes.drop_last());
    }
}

/// Terminating a node succeeds exactly when each of its steps does: the signal and the wait of a
/// node that is asked to shut down, the killing of one that is killed outright.
pub proof fn law_kill_succeeds_when_each_step_does(step: KillStep, first: bool, second: bool)
    ensures
        step is Interrupt ==> (step.following(first).following(second) is Finished <==> first
            && second),
        step is Interrupt && !first ==> step.following(first) is Failed,
        step is Terminate ==> (step.following(first) is Finished <==> first),
        step is Terminate && !first ==> step.following(first) is Failed,
{
}

} // verus!
