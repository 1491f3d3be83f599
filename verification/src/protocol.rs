//! What a launch calls for, said of what happened before: the events that came, and the
//! configuration.
use crate::args;
use crate::args::BitcoindParams;
use crate::args::Ports;
use crate::args::ZmqPorts;
use crate::conf::Conf;
use crate::error::Error;
use crate::exe::EnvVar;
use crate::launch;
use crate::launch::Action;
use crate::launch::Event;
use crate::launch::Failure;
use crate::launch::Launch;
use crate::launch::Place;
use crate::launch::Spawned;
use crate::launch::Stage;
use crate::laws;
use crate::node::DataDir;
use crate::node::Lnd;
use crate::paths;
use crate::results;
use crate::rpc;
use crate::text;
use serde_json::Value;
use std::path::PathBuf;
use vstd::prelude::*;

verus! {

/// The launch of a node with this configuration, after these events.
pub open spec fn after_all<'a>(conf: Conf<'a>, zmq: ZmqPorts, events: Seq<Event>) -> Launch<'a> {
    laws::run(Launch::start(conf, zmq), events)
}

/// Whether these events can come, one after the other, of the actions that a launch calls for.
pub open spec fn can_come(conf: Conf, zmq: ZmqPorts, events: Seq<Event>) -> bool {
    laws::accepted(Launch::start(conf, zmq), events)
}

/// Whether `action` is what [`Launch::action`] returns after these events, which can come.
pub open spec fn called_for<'a>(
    conf: Conf<'a>,
    zmq: ZmqPorts,
    events: Seq<Event>,
    action: Action,
) -> bool {
    &&& can_come(conf, zmq, events)
    &&& call_ensures(Launch::<'a>::action, (&after_all(conf, zmq, events),), action)
}

/// Launches begin with [`Lnd::with_conf`], or [`Lnd::new`], and go on by [`Launch::step`].
pub proof fn law_launches_are_made_of_steps<'a>(
    conf: Conf<'a>,
    block: u16,
    tx: u16,
    first: Launch<'a>,
    default: Launch<'a>,
    events: Seq<Event>,
    event: Event,
    next: Launch<'a>,
)
    requires
        call_ensures(Lnd::with_conf, (conf, block, tx), first),
        call_ensures(Lnd::new, (block, tx), default),
        call_ensures(
            Launch::<'a>::step,
            (after_all(conf, ZmqPorts { raw_block: block, raw_tx: tx }, events), event),
            next,
        ),
    ensures
        ({
            let zmq = ZmqPorts { raw_block: block, raw_tx: tx };
            &&& first == after_all(conf, zmq, Seq::empty())
            &&& first.conf == conf
            &&& first.zmq == zmq
            &&& next == after_all(conf, zmq, events.push(event))
            &&& default.conf.is_default()
            &&& default == after_all(default.conf, zmq, Seq::empty())
        }),
{
    assert(events.push(event).drop_last() =~= events);
}

/// Whether three ports came last.
pub open spec fn three_ports(events: Seq<Event>) -> bool {
    let n = events.len() as int;
    n >= 3 && events[n - 1] is Port && events[n - 2] is Port && events[n - 3] is Port
}

/// Whether bitcoind is known to be out of initial block download by the last event: by its
/// answer, or because a block was generated.
pub open spec fn out_of_download(events: Seq<Event>) -> bool {
    &&& events.len() > 0
    &&& match events.last() {
        Event::ChainInfo(info) => !rpc::json_members(info).contains_pair(
            "initialblockdownload"@,
            Some(true),
        ),
        Event::BlockGenerated => true,
        _ => false,
    }
}

/// Whether the event at `i` says that the working directory is there, at `path`.
pub open spec fn directory_at(conf: Conf, events: Seq<Event>, i: int, path: PathBuf) -> bool {
    &&& 0 <= i < events.len()
    &&& match events[i] {
        Event::TemporaryDirectory(created) => created == path,
        Event::PersistentDirectory => conf.staticdir == Some(path),
        _ => false,
    }
}

/// Whether five events from `i` on gave a process its directory, its bitcoind and its ports.
pub open spec fn gathered(
    conf: Conf,
    events: Seq<Event>,
    i: int,
    path: PathBuf,
    bitcoind: BitcoindParams,
    ports: Ports,
) -> bool {
    &&& directory_at(conf, events, i, path)
    &&& i + 4 < events.len()
    &&& events[i + 1] == Event::Bitcoind(bitcoind)
    &&& events[i + 2] == Event::Port(ports.listen)
    &&& events[i + 3] == Event::Port(ports.grpc)
    &&& events[i + 4] == Event::Port(ports.rest)
}

/// Whether the process that is now tried was spawned right after the five events from `i` on.
pub open spec fn spawned_after(
    conf: Conf,
    events: Seq<Event>,
    i: int,
    path: PathBuf,
    ports: Ports,
    process: u32,
) -> bool {
    &&& laws::same_attempt(events, i)
    &&& i + 5 < events.len()
    &&& events[i + 1] is Bitcoind
    &&& gathered(conf, events, i, path, events[i + 1]->Bitcoind_0, ports)
    &&& events[i + 5] == Event::Spawned(process)
}

/// Whether the kind of a working directory is that of the event at `i`.
spec fn kind_at(events: Seq<Event>, i: int, work_dir: DataDir) -> bool {
    work_dir is Temporary <==> events[i] is TemporaryDirectory
}

spec fn made(conf: Conf, events: Seq<Event>, i: int, work_dir: DataDir) -> bool {
    directory_at(conf, events, i, work_dir.location()) && kind_at(events, i, work_dir)
}

spec fn launched(conf: Conf, events: Seq<Event>, i: int, spawned: Spawned) -> bool {
    &&& spawned_after(
        conf,
        events,
        i,
        spawned.work_dir.location(),
        spawned.ports,
        spawned.process,
    )
    &&& kind_at(events, i, spawned.work_dir)
}

/// What the stage of a launch says of the events that came last.
spec fn remembers(conf: Conf, events: Seq<Event>, stage: Stage) -> bool {
    let n = events.len() as int;
    match stage {
        Stage::ChainInfo => n == 0 || events.last() is Exited,
        Stage::Address => n > 0 && (events.last() matches Event::ChainInfo(info)
            && rpc::json_members(info).contains_pair("initialblockdownload"@, Some(true))),
        Stage::Block { address } => n > 0 && events.last() == Event::Address(address),
        Stage::TempRoot => out_of_download(events) && conf.tmpdir is None && conf.staticdir is None,
        Stage::Directory { place } => match place {
            Place::TemporaryIn(path) => out_of_download(events) && conf.tmpdir == Some(path)
                && conf.staticdir is None,
            Place::Persistent(path) => out_of_download(events) && conf.tmpdir is None
                && conf.staticdir == Some(path),
            Place::TemporaryInRoot(root) => n > 0 && out_of_download(events.drop_last())
                && events.last() == Event::TempRoot(EnvVar::Value(root)) && conf.tmpdir is None
                && conf.staticdir is None,
            Place::TemporaryDefault => n > 0 && out_of_download(events.drop_last())
                && events.last() is TempRoot && !(events.last()->TempRoot_0 is Value)
                && conf.tmpdir is None && conf.staticdir is None,
        },
        Stage::Bitcoind { work_dir } => n > 0 && made(conf, events, n - 1, work_dir),
        Stage::ListenPort { work_dir, bitcoind } => n >= 2 && made(conf, events, n - 2, work_dir)
            && events[n - 1] == Event::Bitcoind(bitcoind),
        Stage::GrpcPort { work_dir, bitcoind, listen } => n >= 3 && made(
            conf,
            events,
            n - 3,
            work_dir,
        ) && events[n - 2] == Event::Bitcoind(bitcoind) && events[n - 1] == Event::Port(listen),
        Stage::RestPort { work_dir, bitcoind, listen, grpc } => n >= 4 && made(
            conf,
            events,
            n - 4,
            work_dir,
        ) && events[n - 3] == Event::Bitcoind(bitcoind) && events[n - 2] == Event::Port(listen)
            && events[n - 1] == Event::Port(grpc),
        Stage::Process { work_dir, bitcoind, ports } => n >= 5 && made(
            conf,
            events,
            n - 5,
            work_dir,
        ) && gathered(conf, events, n - 5, work_dir.location(), bitcoind, ports),
        Stage::Status { spawned } => {
            &&& exists|i: int| #[trigger] launched(conf, events, i, spawned)
            &&& n >= 2
            &&& events[n - 1] is Spawned || (events[n - 1] is Waited && events[n - 2]
                is NotConnected)
        },
        Stage::Client { spawned } => {
            &&& exists|i: int| #[trigger] launched(conf, events, i, spawned)
            &&& events[n - 1] is Running
        },
        Stage::Pause { spawned } => {
            &&& exists|i: int| #[trigger] launched(conf, events, i, spawned)
            &&& events[n - 1] is NotConnected
        },
        Stage::Cert { spawned } => {
            &&& exists|i: int| #[trigger] launched(conf, events, i, spawned)
            &&& events[n - 1] is Connected
        },
        Stage::Macaroon { spawned, cert } => {
            &&& exists|i: int| #[trigger] launched(conf, events, i, spawned)
            &&& n >= 2
            &&& events[n - 2] is Connected
            &&& events[n - 1] == Event::FileRead(cert)
        },
        Stage::WarmUp { spawned, cert, macaroon } => {
            &&& exists|i: int| #[trigger] launched(conf, events, i, spawned)
            &&& n >= 3
            &&& events[n - 3] is Connected
            &&& events[n - 2] == Event::FileRead(cert)
            &&& events[n - 1] == Event::FileRead(macaroon)
        },
        Stage::Ready { spawned, cert, macaroon } => {
            &&& exists|i: int| #[trigger] launched(conf, events, i, spawned)
            &&& n >= 4
            &&& events[n - 4] is Connected
            &&& events[n - 3] == Event::FileRead(cert)
            &&& events[n - 2] == Event::FileRead(macaroon)
            &&& events[n - 1] is Waited
        },
        Stage::Failed { failure } => match failure {
            Failure::Refused(Error::EarlyExit(status)) => n > 0 && events.last() == Event::Exited(
                status,
            ),
            Failure::Refused(Error::BothDirsSpecified) => out_of_download(events)
                && conf.tmpdir is Some && conf.staticdir is Some,
            Failure::Refused(_) => false,
            Failure::Outside => n > 0 && events.last() is Failed && !three_ports(
                events.drop_last(),
            ),
            Failure::NotExecuted => n > 0 && events.last() is Failed && three_ports(
                events.drop_last(),
            ),
        },
    }
}

proof fn lemma_launched_lasts(conf: Conf, events: Seq<Event>, i: int, spawned: Spawned)
    requires
        events.len() > 0,
        launched(conf, events.drop_last(), i, spawned),
        !(events.last() is Exited),
    ensures
        launched(conf, events, i, spawned),
{
    let before = events.drop_last();
    assert(forall|k: int| i <= k <= i + 5 ==> #[trigger] events[k] == before[k]);
    assert forall|j: int| i <= j < events.len() implies !(#[trigger] events[j] is Exited) by {
        if j < before.len() {
            assert(events[j] == before[j]);
        }
    }
}

proof fn lemma_remembers(conf: Conf, zmq: ZmqPorts, events: Seq<Event>)
    requires
        can_come(conf, zmq, events),
    ensures
        remembers(conf, events, after_all(conf, zmq, events).stage),
        after_all(conf, zmq, events).conf == conf,
        after_all(conf, zmq, events).zmq == zmq,
        after_all(conf, zmq, events).wf(),
    decreases events.len(),
{
    laws::law_configuration_is_kept(conf, zmq, events);
    if events.len() > 0 {
        let before = events.drop_last();
        let n = events.len() as int;
        lemma_remembers(conf, zmq, before);
        let was = after_all(conf, zmq, before).stage;
        let now = after_all(conf, zmq, events).stage;
        assert(forall|k: int| 0 <= k < n - 1 ==> #[trigger] events[k] == before[k]);
        let kept = match now {
            Stage::Status { spawned } => Some(spawned),
            Stage::Client { spawned } => Some(spawned),
            Stage::Pause { spawned } => Some(spawned),
            Stage::Cert { spawned } => Some(spawned),
            Stage::Macaroon { spawned, cert } => Some(spawned),
            Stage::WarmUp { spawned, cert, macaroon } => Some(spawned),
            Stage::Ready { spawned, cert, macaroon } => Some(spawned),
            _ => None,
        };
        if let Some(spawned) = kept {
            if was is Process {
                assert(forall|j: int| n - 6 <= j < n ==> !(#[trigger] events[j] is Exited));
                assert(launched(conf, events, n - 6, spawned));
            } else {
                let i = choose|i: int| #[trigger] launched(conf, before, i, spawned);
                assert(launched(conf, before, i, spawned));
                lemma_launched_lasts(conf, events, i, spawned);
            }
        }
    }
}

/// A launch begins with the question how the chain of bitcoind is.
pub proof fn law_launch_begins_with_chain(conf: Conf, zmq: ZmqPorts, action: Action)
    requires
        called_for(conf, zmq, Seq::empty(), action),
    ensures
        action matches Action::AskChainInfo { method } && method@ == "getblockchaininfo"@,
{
    lemma_remembers(conf, zmq, Seq::empty());
}

/// After an early exit, whatever its status, the launch begins anew as long as fewer processes
/// exited than it may try to spawn; after the last one it fails, with that status.
pub proof fn law_early_exit_begins_anew(
    conf: Conf,
    zmq: ZmqPorts,
    events: Seq<Event>,
    status: i32,
    action: Action,
)
    requires
        called_for(conf, zmq, events, action),
        events.len() > 0,
        events.last() == Event::Exited(status),
    ensures
        laws::exits(events) < laws::tries(conf) ==> (action matches Action::AskChainInfo { method }
            && method@ == "getblockchaininfo"@),
        laws::exits(events) >= laws::tries(conf) ==> (action matches Action::Fail {
            failure,
            contexts,
        } && failure == Failure::Refused(Error::EarlyExit(status))),
{
    lemma_remembers(conf, zmq, events);
    laws::law_gives_up_when_attempts_are_used_up(conf, zmq, events);
}

/// Whatever the configuration, a bitcoind that is in initial block download is asked for an
/// address, and then told to generate one block to that address.
pub proof fn law_download_is_ended_first(
    conf: Conf,
    zmq: ZmqPorts,
    events: Seq<Event>,
    action: Action,
)
    requires
        called_for(conf, zmq, events, action),
        events.len() > 0,
    ensures
        events.last() matches Event::ChainInfo(info) ==> rpc::json_members(info).contains_pair(
            "initialblockdownload"@,
            Some(true),
        ) ==> (action matches Action::AskAddress { method } && method@ == "getnewaddress"@),
        events.last() matches Event::Address(address) ==> (action matches Action::Generate {
            method,
            blocks,
            address: to,
        } && method@ == "generatetoaddress"@ && blocks == 1 && *to == address),
{
    lemma_remembers(conf, zmq, events);
}

/// Once bitcoind is out of initial block download a directory is settled on: two that are
/// configured are refused, one is created where it is configured, and without any the
/// environment is asked.
pub proof fn law_directory_is_settled_on(
    conf: Conf,
    zmq: ZmqPorts,
    events: Seq<Event>,
    action: Action,
)
    requires
        called_for(conf, zmq, events, action),
        out_of_download(events),
    ensures
        conf.tmpdir is Some && conf.staticdir is Some <==> action is Fail,
        action matches Action::Fail { failure, contexts } ==> failure == Failure::Refused(
            Error::BothDirsSpecified,
        ),
        conf.tmpdir is None && conf.staticdir is None <==> action is ReadVariable,
        action matches Action::ReadVariable { variable } ==> variable@ == "TEMPDIR_ROOT"@,
        conf.staticdir is None ==> (conf.tmpdir matches Some(path) ==> (
        action matches Action::CreateDirectory { place } && *place == Place::TemporaryIn(path))),
        conf.tmpdir is None ==> (conf.staticdir matches Some(path) ==> (
        action matches Action::CreateDirectory { place } && *place == Place::Persistent(path))),
{
    lemma_remembers(conf, zmq, events);
}

/// No directory is called for, nor the environment asked for one, unless bitcoind is known to be
/// out of initial block download.
pub proof fn law_no_directory_in_download(
    conf: Conf,
    zmq: ZmqPorts,
    events: Seq<Event>,
    action: Action,
)
    requires
        called_for(conf, zmq, events, action),
        action is CreateDirectory || action is ReadVariable,
    ensures
        out_of_download(events) || (events.len() > 0 && events.last() is TempRoot
            && out_of_download(events.drop_last())),
{
    lemma_remembers(conf, zmq, events);
}

/// The directory that the environment names is used where it names one, and else the default.
pub proof fn law_environment_names_the_root(
    conf: Conf,
    zmq: ZmqPorts,
    events: Seq<Event>,
    variable: EnvVar,
    action: Action,
)
    requires
        called_for(conf, zmq, events, action),
        events.len() > 0,
        events.last() == Event::TempRoot(variable),
    ensures
        action matches Action::CreateDirectory { place } && match variable {
            EnvVar::Value(root) => *place == Place::TemporaryInRoot(root),
            EnvVar::NotUnicode => *place == Place::TemporaryDefault,
            EnvVar::Absent => *place == Place::TemporaryDefault,
        },
{
    lemma_remembers(conf, zmq, events);
}

/// Once the directory is there the launch finds out about bitcoind, and then asks for three
/// ports, one after the other.
pub proof fn law_bitcoind_and_ports_come_next(
    conf: Conf,
    zmq: ZmqPorts,
    events: Seq<Event>,
    action: Action,
)
    requires
        called_for(conf, zmq, events, action),
        events.len() > 0,
    ensures
        events.last() is TemporaryDirectory || events.last() is PersistentDirectory
            ==> action is DescribeBitcoind,
        events.last() is Bitcoind ==> action is PickPort,
        events.last() is Port && !three_ports(events) ==> action is PickPort,
        three_ports(events) ==> action is Spawn,
{
    lemma_remembers(conf, zmq, events);
}

/// A process is spawned once its directory, its bitcoind and its ports are known, and not
/// before.
pub proof fn law_process_waits_for_what_it_needs(
    conf: Conf,
    zmq: ZmqPorts,
    events: Seq<Event>,
    action: Action,
)
    requires
        called_for(conf, zmq, events, action),
        action is Spawn,
    ensures
        exists|path: PathBuf, bitcoind: BitcoindParams, ports: Ports| #[trigger]
            gathered(conf, events, events.len() - 5, path, bitcoind, ports),
{
    lemma_remembers(conf, zmq, events);
}

/// The process is spawned with the directory that was created, the bitcoind that was found, the
/// ports that were given, and the zmq ports that the launch began with; its error output is seen
/// where the configuration says so.
pub proof fn law_process_gets_what_was_gathered(
    conf: Conf,
    zmq: ZmqPorts,
    events: Seq<Event>,
    path: PathBuf,
    bitcoind: BitcoindParams,
    ports: Ports,
    action: Action,
)
    requires
        called_for(conf, zmq, events, action),
        gathered(conf, events, events.len() - 5, path, bitcoind, ports),
    ensures
        action matches Action::Spawn { args, view_stderr } && view_stderr == conf.view_stderr
            && results::connects(args@, conf, paths::path_text(path), bitcoind, zmq, ports),
{
    lemma_remembers(conf, zmq, events);
    if let Action::Spawn { args, view_stderr } = action {
        results::lemma_line_connects(
            args@,
            conf,
            paths::path_text(path),
            bitcoind,
            zmq,
            ports,
        );
    }
}

/// A process is looked at after it was spawned and after each pause; a pause of half a second
/// follows each try to connect that failed.
pub proof fn law_process_is_watched(
    conf: Conf,
    zmq: ZmqPorts,
    events: Seq<Event>,
    action: Action,
)
    requires
        called_for(conf, zmq, events, action),
        events.len() > 0,
    ensures
        events.last() is Spawned ==> action is CheckProcess,
        events.last() is Running ==> action is Connect,
        events.last() is NotConnected ==> action == (Action::Pause { millis: 500 }),
        events.last() is Waited && events.len() >= 2 && events[events.len() - 2] is NotConnected
            ==> action is CheckProcess,
{
    lemma_remembers(conf, zmq, events);
}

/// A client is connected to the port that the process was given for gRPC in this attempt, with
/// the two files in the directory that it was given.
pub proof fn law_client_goes_to_the_process(
    conf: Conf,
    zmq: ZmqPorts,
    events: Seq<Event>,
    action: Action,
)
    requires
        called_for(conf, zmq, events, action),
    ensures
        action matches Action::Connect { url, cert_file, macaroon_file } ==> exists|
            i: int,
            path: PathBuf,
            ports: Ports,
            process: u32,
        |
            {
                &&& #[trigger] spawned_after(conf, events, i, path, ports, process)
                &&& results::is_numbered("https://localhost:"@, url@, ports.grpc as int)
                &&& cert_file == paths::joined_path(path, "tls.cert"@)
                &&& macaroon_file == paths::joined_path(
                    path,
                    "data/chain/bitcoin/"@ + conf.network@ + "/admin.macaroon"@,
                )
            },
{
    lemma_remembers(conf, zmq, events);
    if let Stage::Client { spawned } = after_all(conf, zmq, events).stage {
        let i = choose|i: int| #[trigger] launched(conf, events, i, spawned);
        results::law_port_reads_back("https://localhost:"@, spawned.ports.grpc);
        assert(spawned_after(
            conf,
            events,
            i,
            spawned.work_dir.location(),
            spawned.ports,
            spawned.process,
        ));
    }
}

/// Once a client is connected the certificate is read and then the macaroon, from the directory
/// of the process; then the servers have five seconds, and then the node is up.
pub proof fn law_files_are_read_and_servers_warm_up(
    conf: Conf,
    zmq: ZmqPorts,
    events: Seq<Event>,
    action: Action,
)
    requires
        called_for(conf, zmq, events, action),
        events.len() > 0,
    ensures
        events.last() is Connected ==> exists|
            i: int,
            path: PathBuf,
            ports: Ports,
            process: u32,
        |
            {
                &&& #[trigger] spawned_after(conf, events, i, path, ports, process)
                &&& action == (Action::ReadFile { path: paths::joined_path(path, "tls.cert"@) })
            },
        events.last() is FileRead && events[events.len() - 2] is Connected ==> exists|
            i: int,
            path: PathBuf,
            ports: Ports,
            process: u32,
        |
            {
                &&& #[trigger] spawned_after(conf, events, i, path, ports, process)
                &&& action == (Action::ReadFile {
                    path: paths::joined_path(
                        path,
                        "data/chain/bitcoin/"@ + conf.network@ + "/admin.macaroon"@,
                    ),
                })
            },
        events.last() is FileRead && !(events[events.len() - 2] is Connected) ==> action == (
        Action::WarmUp { seconds: 5 }),
        events.last() is Waited && !(events[events.len() - 2] is NotConnected)
            ==> action is Finish,
{
    lemma_remembers(conf, zmq, events);
    let running = match after_all(conf, zmq, events).stage {
        Stage::Cert { spawned } => Some(spawned),
        Stage::Macaroon { spawned, cert } => Some(spawned),
        _ => None,
    };
    if let Some(spawned) = running {
        let i = choose|i: int| #[trigger] launched(conf, events, i, spawned);
        assert(spawned_after(
            conf,
            events,
            i,
            spawned.work_dir.location(),
            spawned.ports,
            spawned.process,
        ));
    }
}

/// An action that failed ends the launch, without another try; whether it was the spawning of the
/// process is told apart.
pub proof fn law_failed_action_ends_launch(
    conf: Conf,
    zmq: ZmqPorts,
    events: Seq<Event>,
    action: Action,
)
    requires
        called_for(conf, zmq, events, action),
        events.len() > 0,
        events.last() is Failed,
    ensures
        action matches Action::Fail { failure, contexts } && failure == (if three_ports(
            events.drop_last(),
        ) {
            Failure::NotExecuted
        } else {
            Failure::Outside
        }),
{
    lemma_remembers(conf, zmq, events);
}

/// A launch fails only for a reason: an action that just failed, the exit of the last process
/// that it may try, or two directories.
pub proof fn law_failure_has_a_reason(
    conf: Conf,
    zmq: ZmqPorts,
    events: Seq<Event>,
    action: Action,
)
    requires
        called_for(conf, zmq, events, action),
    ensures
        action matches Action::Fail { failure, contexts } ==> match failure {
            Failure::Outside => events.len() > 0 && events.last() is Failed,
            Failure::NotExecuted => events.len() > 0 && events.last() is Failed && three_ports(
                events.drop_last(),
            ),
            Failure::Refused(Error::EarlyExit(status)) => events.len() > 0 && events.last()
                == Event::Exited(status) && laws::exits(events) == laws::tries(conf),
            Failure::Refused(Error::BothDirsSpecified) => out_of_download(events)
                && conf.tmpdir is Some && conf.staticdir is Some,
            Failure::Refused(_) => false,
        },
{
    lemma_remembers(conf, zmq, events);
    laws::law_gives_up_when_attempts_are_used_up(conf, zmq, events);
}

/// A failure is put into context by one line for each time that the launch began anew: the
/// outermost tells how many attempts were left the first time, and each one within it one less.
pub proof fn law_contexts_count_attempts(
    conf: Conf,
    zmq: ZmqPorts,
    events: Seq<Event>,
    action: Action,
)
    requires
        called_for(conf, zmq, events, action),
    ensures
        action matches Action::Fail { failure, contexts } ==> {
            &&& contexts@.len() == laws::exits(events) - (if events.len() > 0 && events.last()
                is Exited {
                1int
            } else {
                0int
            })
            &&& forall|i: int|
                0 <= i < contexts@.len() ==> results::is_numbered(
                    "Remaining attempts "@,
                    #[trigger] contexts@[i]@,
                    conf.attempts - contexts@.len() + i,
                )
        },
{
    lemma_remembers(conf, zmq, events);
    laws::law_each_exit_costs_an_attempt(conf, zmq, events);
    let launch = after_all(conf, zmq, events);
    if let Action::Fail { failure, contexts } = action {
        assert(args::texts(contexts@).len() == contexts@.len());
        assert forall|i: int| 0 <= i < contexts@.len() implies results::is_numbered(
            "Remaining attempts "@,
            #[trigger] contexts@[i]@,
            conf.attempts - contexts@.len() + i,
        ) by {
            assert(args::texts(contexts@)[i] == contexts@[i]@);
            assert(launch::retry_contexts(conf.attempts, launch.attempts)[i]
                == "Remaining attempts "@ + text::decimal_text((launch.attempts + i) as nat));
            results::law_number_reads_back("Remaining attempts "@, (launch.attempts + i) as nat);
        }
    }
}

/// A node is handed out exactly where the launch calls for that.
pub proof fn law_node_is_handed_out_at_the_end<'a>(
    conf: Conf<'a>,
    zmq: ZmqPorts,
    events: Seq<Event>,
    action: Action,
    node: Option<Lnd>,
)
    requires
        called_for(conf, zmq, events, action),
        call_ensures(Launch::<'a>::finish, (after_all(conf, zmq, events),), node),
    ensures
        node is Some <==> action is Finish,
{
    lemma_remembers(conf, zmq, events);
}

/// Whether `node` is the process that was spawned after the five events from `i` on: it works in
/// the directory that these gave, and is reached at the ports that they gave.
pub open spec fn is_node(
    conf: Conf,
    events: Seq<Event>,
    i: int,
    ports: Ports,
    node: Lnd,
) -> bool {
    &&& spawned_after(conf, events, i, node.work_dir.location(), ports, node.process)
    &&& match events[i] {
        Event::TemporaryDirectory(path) => node.work_dir == DataDir::Temporary(path),
        _ => conf.staticdir matches Some(path) && node.work_dir == DataDir::Persistent(path),
    }
    &&& results::is_numbered("https://localhost:"@, node.grpc_url@, ports.grpc as int)
    &&& results::is_numbered("https://localhost:"@, node.rest_url@, ports.rest as int)
    &&& node.listen_url matches Some(url)
    &&& results::is_numbered("localhost:"@, url@, ports.listen as int)
}

/// The node is the process that was spawned in the last attempt, with its directory and at its
/// ports, and every byte of the two files that were read last is read back from its texts.
pub proof fn law_node_is_what_was_launched<'a>(
    conf: Conf<'a>,
    zmq: ZmqPorts,
    events: Seq<Event>,
    node: Lnd,
)
    requires
        can_come(conf, zmq, events),
        call_ensures(Launch::<'a>::finish, (after_all(conf, zmq, events),), Some(node)),
    ensures
        exists|i: int, ports: Ports| #[trigger] is_node(conf, events, i, ports, node),
        events.len() >= 3,
        events[events.len() - 3] matches Event::FileRead(cert) && results::is_hex(
            node.tls_cert@,
            cert@,
        ),
        events[events.len() - 2] matches Event::FileRead(macaroon) && results::is_hex(
            node.admin_macaroon@,
            macaroon@,
        ),
{
    lemma_remembers(conf, zmq, events);
    if let Stage::Ready { spawned, cert, macaroon } = after_all(conf, zmq, events).stage {
        let i = choose|i: int| #[trigger] launched(conf, events, i, spawned);
        results::law_port_reads_back("https://localhost:"@, spawned.ports.grpc);
        results::law_port_reads_back("https://localhost:"@, spawned.ports.rest);
        results::law_port_reads_back("localhost:"@, spawned.ports.listen);
        results::law_hex_reads_back(cert@);
        results::law_hex_reads_back(macaroon@);
        assert(is_node(conf, events, i, spawned.ports, node));
    }
}

/// Nodes of launches that read different certificates, or different macaroons, have different
/// texts of them.
pub proof fn law_nodes_tell_their_files_apart<'a>(
    conf: Conf<'a>,
    zmq: ZmqPorts,
    events: Seq<Event>,
    node: Lnd,
    other_conf: Conf<'a>,
    other_zmq: ZmqPorts,
    other_events: Seq<Event>,
    other: Lnd,
)
    requires
        can_come(conf, zmq, events),
        can_come(other_conf, other_zmq, other_events),
        call_ensures(Launch::<'a>::finish, (after_all(conf, zmq, events),), Some(node)),
        call_ensures(
            Launch::<'a>::finish,
            (after_all(other_conf, other_zmq, other_events),),
            Some(other),
        ),
    ensures
        node.tls_cert@ == other.tls_cert@ ==> events[events.len() - 3]->FileRead_0@
            == other_events[other_events.len() - 3]->FileRead_0@,
        node.admin_macaroon@ == other.admin_macaroon@ ==> events[events.len() - 2]->FileRead_0@
            == other_events[other_events.len() - 2]->FileRead_0@,
{
    law_node_is_what_was_launched(conf, zmq, events, node);
    law_node_is_what_was_launched(other_conf, other_zmq, other_events, other);
    let cert = events[events.len() - 3]->FileRead_0@;
    let other_cert = other_events[other_events.len() - 3]->FileRead_0@;
    let macaroon = events[events.len() - 2]->FileRead_0@;
    let other_macaroon = other_events[other_events.len() - 2]->FileRead_0@;
    if node.tls_cert@ == other.tls_cert@ {
        results::law_hex_reads_as_one(node.tls_cert@, cert, other_cert);
    }
    if node.admin_macaroon@ == other.admin_macaroon@ {
        results::law_hex_reads_as_one(node.admin_macaroon@, macaroon, other_macaroon);
    }
}

/// Whatever comes of an action, the launch takes it: any answer, address, port, path, process and
/// exit status, any file whose text fits in a string, and the failure of whatever can fail.
pub proof fn law_every_outcome_is_taken<'a>(
    launch: Launch<'a>,
    action: Action,
    info: Value,
    variable: EnvVar,
    path: PathBuf,
    bitcoind: BitcoindParams,
    port: u16,
    process: u32,
    status: i32,
    bytes: Vec<u8>,
)
    requires
        call_ensures(Launch::<'a>::action, (&launch,), action),
        bytes@.len() <= isize::MAX / 2,
    ensures
        match action {
            Action::AskChainInfo { method } => launch.accepts(Event::ChainInfo(info))
                && launch.accepts(Event::Failed),
            Action::AskAddress { method } => launch.accepts(Event::Address(info))
                && launch.accepts(Event::Failed),
            Action::Generate { method, blocks, address } => launch.accepts(Event::BlockGenerated),
            Action::ReadVariable { variable: name } => launch.accepts(Event::TempRoot(variable)),
            Action::CreateDirectory { place } => {
                &&& launch.accepts(Event::Failed)
                &&& launch.accepts(Event::TemporaryDirectory(path)) <==> !(place is Persistent)
                &&& launch.accepts(Event::PersistentDirectory) <==> place is Persistent
            },
            Action::DescribeBitcoind => launch.accepts(Event::Bitcoind(bitcoind)),
            Action::PickPort => launch.accepts(Event::Port(port)) && launch.accepts(Event::Failed),
            Action::Spawn { args, view_stderr } => launch.accepts(Event::Spawned(process))
                && launch.accepts(Event::Failed),
            Action::CheckProcess => launch.accepts(Event::Running) && launch.accepts(
                Event::Exited(status),
            ) && launch.accepts(Event::Failed),
            Action::Connect { url, cert_file, macaroon_file } => launch.accepts(Event::Connected)
                && launch.accepts(Event::NotConnected),
            Action::Pause { millis } => launch.accepts(Event::Waited),
            Action::ReadFile { path: file } => launch.accepts(Event::FileRead(bytes))
                && launch.accepts(Event::Failed),
            Action::WarmUp { seconds } => launch.accepts(Event::Waited),
            Action::Finish => true,
            Action::Fail { failure, contexts } => true,
        },
{
}

} // verus!
