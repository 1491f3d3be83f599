use lnd::args::BitcoindParams;
use lnd::launch::{spawn_context, Place, Stage};
use lnd::rpc::{in_initial_block_download, is_set};
use lnd::{setup_bitcoind, Action, Conf, DataDir, EnvVar, Error, Event, Failure, Launch, Lnd};
use serde_json::Value;
use std::path::PathBuf;

fn json(text: &str) -> Value {
    serde_json::from_str(text).unwrap()
}

fn synced() -> Event {
    Event::ChainInfo(json("{\"chain\":\"regtest\",\"initialblockdownload\":false}"))
}

fn downloading() -> Event {
    Event::ChainInfo(json("{\"chain\":\"regtest\",\"initialblockdownload\":true}"))
}

fn bitcoind() -> Event {
    Event::Bitcoind(BitcoindParams {
        cookie_file: "/b/regtest/.cookie".to_string(),
        rpc_socket: "127.0.0.1:18443".to_string(),
    })
}

/// Takes a launch from its beginning to a spawned process, in `dir`.
fn spawn<'a>(launch: Launch<'a>, dir: &str, ports: (u16, u16, u16), process: u32) -> Launch<'a> {
    let launch = to_process(launch, dir, ports);
    let launch = launch.step(Event::Spawned(process));
    assert!(matches!(launch.action(), Action::CheckProcess));
    launch
}

fn to_process<'a>(launch: Launch<'a>, dir: &str, ports: (u16, u16, u16)) -> Launch<'a> {
    assert!(matches!(launch.action(), Action::AskChainInfo { method: "getblockchaininfo" }));
    let launch = launch.step(synced());
    let launch = match launch.action() {
        Action::ReadVariable { variable } => {
            assert_eq!(variable, "TEMPDIR_ROOT");
            launch.step(Event::TempRoot(EnvVar::Absent))
        }
        _ => launch,
    };
    let event = match launch.action() {
        Action::CreateDirectory { place: Place::Persistent(_) } => Event::PersistentDirectory,
        Action::CreateDirectory { .. } => Event::TemporaryDirectory(PathBuf::from(dir)),
        other => panic!("{:?}", other),
    };
    let launch = launch.step(event);
    assert!(matches!(launch.action(), Action::DescribeBitcoind));
    let launch = launch.step(bitcoind());
    assert!(matches!(launch.action(), Action::PickPort));
    let launch = launch.step(Event::Port(ports.0));
    assert!(matches!(launch.action(), Action::PickPort));
    let launch = launch.step(Event::Port(ports.1));
    assert!(matches!(launch.action(), Action::PickPort));
    launch.step(Event::Port(ports.2))
}

fn contexts_of(launch: &Launch) -> (Failure, Vec<String>) {
    match launch.action() {
        Action::Fail { failure, contexts } => (failure, contexts),
        other => panic!("{:?}", other),
    }
}

#[test]
fn launch_to_the_end() {
    let launch = to_process(Lnd::new(28332, 28333), "/tmp/n", (1001, 1002, 1003));
    match launch.action() {
        Action::Spawn { args, view_stderr } => {
            assert!(!view_stderr);
            assert_eq!(
                args,
                vec![
                    "--lnddir=/tmp/n",
                    "--tlscertpath=/tmp/n/tls.cert",
                    "--bitcoin.regtest",
                    "--bitcoin.active",
                    "--bitcoin.node=bitcoind",
                    "--bitcoind.rpccookie=/b/regtest/.cookie",
                    "--bitcoind.rpchost=127.0.0.1:18443",
                    "--bitcoind.zmqpubrawblock=tcp://127.0.0.1:28332",
                    "--bitcoind.zmqpubrawtx=tcp://127.0.0.1:28333",
                    "--listen=0.0.0.0:1001",
                    "--rpclisten=0.0.0.0:1002",
                    "--restlisten=0.0.0.0:1003",
                    "--noseedbackup",
                    "--protocol.wumbo-channels",
                ]
            );
        }
        other => panic!("{:?}", other),
    }
    let launch = launch.step(Event::Spawned(4711));
    assert!(matches!(launch.action(), Action::CheckProcess));
    let launch = launch.step(Event::Running);
    match launch.action() {
        Action::Connect {
            url,
            cert_file,
            macaroon_file,
        } => {
            assert_eq!(url, "https://localhost:1002");
            assert_eq!(cert_file, PathBuf::from("/tmp/n/tls.cert"));
            assert_eq!(
                macaroon_file,
                PathBuf::from("/tmp/n/data/chain/bitcoin/regtest/admin.macaroon")
            );
        }
        other => panic!("{:?}", other),
    }

    // Not up yet: pause, check, and try again.
    let launch = launch.step(Event::NotConnected);
    assert!(matches!(launch.action(), Action::Pause { millis: 500 }));
    let launch = launch.step(Event::Waited);
    assert!(matches!(launch.action(), Action::CheckProcess));
    let launch = launch.step(Event::Running).step(Event::Connected);

    match launch.action() {
        Action::ReadFile { path } => assert_eq!(path, PathBuf::from("/tmp/n/tls.cert")),
        other => panic!("{:?}", other),
    }
    let launch = launch.step(Event::FileRead(vec![0x00, 0x9a, 0xff]));
    match launch.action() {
        Action::ReadFile { path } => assert_eq!(
            path,
            PathBuf::from("/tmp/n/data/chain/bitcoin/regtest/admin.macaroon")
        ),
        other => panic!("{:?}", other),
    }
    let launch = launch.step(Event::FileRead(b"Hello world!".to_vec()));
    assert!(matches!(launch.action(), Action::WarmUp { seconds: 5 }));
    let launch = launch.step(Event::Waited);
    assert!(matches!(launch.action(), Action::Finish));

    let node = launch.finish().unwrap();
    assert_eq!(
        node,
        Lnd {
            process: 4711,
            work_dir: DataDir::Temporary(PathBuf::from("/tmp/n")),
            grpc_url: "https://localhost:1002".to_string(),
            rest_url: "https://localhost:1003".to_string(),
            listen_url: Some("localhost:1001".to_string()),
            admin_macaroon: "48656c6c6f20776f726c6421".to_string(),
            tls_cert: "009aff".to_string(),
        }
    );
    assert_eq!(node.workdir(), PathBuf::from("/tmp/n"));
}

#[test]
fn launch_is_not_finished_before_its_end() {
    assert_eq!(Lnd::new(1, 2).finish(), None);
    assert_eq!(spawn(Lnd::new(1, 2), "/tmp/n", (1, 2, 3), 4).finish(), None);
}

#[test]
fn two_launches_do_not_share_anything() {
    let one = spawn(Lnd::new(1, 2), "/tmp/one", (11, 12, 13), 100);
    let two = spawn(Lnd::new(1, 2), "/tmp/two", (21, 22, 23), 200);
    let up = |launch: Launch| {
        launch
            .step(Event::Running)
            .step(Event::Connected)
            .step(Event::FileRead(vec![1]))
            .step(Event::FileRead(vec![2]))
            .step(Event::Waited)
            .finish()
            .unwrap()
    };
    let lnd = up(one);
    let lnd_two = up(two);
    assert_ne!(lnd.workdir(), lnd_two.workdir());
    assert_ne!(lnd.grpc_url, lnd_two.grpc_url);
    assert_ne!(lnd.rest_url, lnd_two.rest_url);
    assert_ne!(lnd.listen_url, lnd_two.listen_url);
    assert_ne!(lnd.trigger(), lnd_two.trigger());
}

#[test]
fn block_is_generated_in_initial_block_download() {
    let launch = Lnd::new(1, 2).step(downloading());
    assert!(matches!(launch.action(), Action::AskAddress { method: "getnewaddress" }));
    let address = json("\"bcrt1qaddress\"");
    let launch = launch.step(Event::Address(address.clone()));
    match launch.action() {
        Action::Generate {
            method,
            blocks,
            address: to,
        } => {
            assert_eq!(method, "generatetoaddress");
            assert_eq!(blocks, 1);
            assert_eq!(*to, address);
        }
        other => panic!("{:?}", other),
    }
    let launch = launch.step(Event::BlockGenerated);
    assert!(matches!(launch.stage, Stage::TempRoot));
}

#[test]
fn initial_block_download_is_read_from_the_answer() {
    assert!(in_initial_block_download(&json("{\"initialblockdownload\":true}")));
    assert!(!in_initial_block_download(&json("{\"initialblockdownload\":false}")));
    assert!(!in_initial_block_download(&json("{\"initialblockdownload\":\"true\"}")));
    assert!(!in_initial_block_download(&json("{\"initialblockdownload\":1}")));
    assert!(!in_initial_block_download(&json("{\"other\":true}")));
    assert!(!in_initial_block_download(&json("[true]")));
    assert!(!in_initial_block_download(&json("true")));
    assert!(!in_initial_block_download(&json("null")));
    assert!(is_set(Some(Some(true))));
    assert!(!is_set(Some(None)));
    assert!(!is_set(None));
}

#[test]
fn directories_are_chosen_by_configuration_and_environment() {
    let place = |conf: Conf<'static>, root: EnvVar| {
        let launch = Lnd::with_conf(conf, 1, 2).step(synced());
        let launch = match launch.action() {
            Action::ReadVariable { .. } => launch.step(Event::TempRoot(root)),
            _ => launch,
        };
        match launch.stage {
            Stage::Directory { place } => place,
            other => panic!("{:?}", other),
        }
    };

    let set = || EnvVar::Value("/root".to_string());
    let mut conf = Conf::default();
    conf.tmpdir = Some(PathBuf::from("/t"));
    assert!(matches!(place(conf, set()), Place::TemporaryIn(p) if p == PathBuf::from("/t")));

    let mut conf = Conf::default();
    conf.staticdir = Some(PathBuf::from("/s"));
    assert!(matches!(place(conf, set()), Place::Persistent(p) if p == PathBuf::from("/s")));

    let root = place(Conf::default(), set());
    assert!(matches!(root, Place::TemporaryInRoot(p) if p == "/root"));
    for unset in [EnvVar::Absent, EnvVar::NotUnicode] {
        assert!(matches!(place(Conf::default(), unset), Place::TemporaryDefault));
    }
}

#[test]
fn persistent_directory_is_the_configured_one() {
    let mut conf = Conf::default();
    conf.staticdir = Some(PathBuf::from("/keep/lnd"));
    conf.view_stderr = true;
    let launch = to_process(Lnd::with_conf(conf, 1, 2), "/unused", (1, 2, 3));
    match launch.action() {
        Action::Spawn { args, view_stderr } => {
            assert!(view_stderr);
            assert_eq!(args[0], "--lnddir=/keep/lnd");
            assert_eq!(args[1], "--tlscertpath=/keep/lnd/tls.cert");
        }
        other => panic!("{:?}", other),
    }
    match launch.stage {
        Stage::Process { work_dir, .. } => {
            assert_eq!(work_dir, DataDir::Persistent(PathBuf::from("/keep/lnd")))
        }
        other => panic!("{:?}", other),
    }
}

#[test]
fn both_directories_are_refused() {
    let both = || {
        let mut conf = Conf::default();
        conf.tmpdir = Some(PathBuf::from("/t"));
        conf.staticdir = Some(PathBuf::from("/s"));
        Lnd::with_conf(conf, 1, 2)
    };
    let refused = (Failure::Refused(Error::BothDirsSpecified), Vec::new());
    assert_eq!(contexts_of(&both().step(synced())), refused);
    let launch = both()
        .step(downloading())
        .step(Event::Address(json("\"a\"")))
        .step(Event::BlockGenerated);
    assert_eq!(contexts_of(&launch), refused);
}

#[test]
fn early_exits_use_attempts_up() {
    let mut launch = Lnd::new(1, 2);
    let mut spawned = 0;
    for left in [3, 2, 1] {
        assert_eq!(launch.attempts, left);
        launch = spawn(launch, "/tmp/n", (1, 2, 3), 10 + left as u32);
        spawned += 1;
        launch = launch.step(Event::Exited(256 + left as i32));
    }
    assert_eq!(spawned, 3);
    let (failure, contexts) = contexts_of(&launch);
    assert_eq!(failure, Failure::Refused(Error::EarlyExit(257)));
    assert_eq!(contexts, vec!["Remaining attempts 1", "Remaining attempts 2"]);
    assert_eq!(launch.finish(), None);
}

#[test]
fn retry_starts_over_with_what_the_user_wants() {
    let mut conf = Conf::default();
    conf.network = "signet";
    let launch = spawn(Lnd::with_conf(conf.clone(), 7, 8), "/tmp/a", (1, 2, 3), 4);
    let launch = launch.step(Event::Running).step(Event::NotConnected);
    let launch = launch.step(Event::Waited).step(Event::Exited(9));
    assert_eq!(launch.conf, conf);
    assert_eq!((launch.zmq.raw_block, launch.zmq.raw_tx), (7, 8));
    assert_eq!(launch.attempts, 2);
    let launch = to_process(launch, "/tmp/b", (5, 6, 7));
    match launch.action() {
        Action::Spawn { args, .. } => {
            assert_eq!(args[0], "--lnddir=/tmp/b");
            assert_eq!(args[2], "--bitcoin.signet");
            assert_eq!(args[9], "--listen=0.0.0.0:5");
        }
        other => panic!("{:?}", other),
    }
}

#[test]
fn process_is_spawned_once_without_attempts_to_spare() {
    for attempts in [0, 1] {
        let mut conf = Conf::default();
        conf.attempts = attempts;
        let launch = spawn(Lnd::with_conf(conf, 1, 2), "/tmp/n", (1, 2, 3), 4);
        let launch = launch.step(Event::Exited(139));
        let failure = Failure::Refused(Error::EarlyExit(139));
        assert_eq!(contexts_of(&launch), (failure, Vec::new()));
    }
}

#[test]
fn process_is_spawned_as_often_as_configured() {
    for attempts in 1..=u8::MAX {
        let mut conf = Conf::default();
        conf.attempts = attempts;
        let mut launch = Lnd::with_conf(conf, 1, 2);
        let mut spawned = 0;
        while matches!(launch.action(), Action::AskChainInfo { .. }) {
            launch = spawn(launch, "/tmp/n", (1, 2, 3), 4).step(Event::Exited(1));
            spawned += 1;
        }
        assert_eq!(spawned, attempts as u32);
        let (failure, contexts) = contexts_of(&launch);
        assert_eq!(failure, Failure::Refused(Error::EarlyExit(1)));
        assert_eq!(contexts.len(), attempts as usize - 1);
    }
}

#[test]
fn failure_to_spawn_names_the_executable() {
    let exe = format!("{:?}", "/bin/lnd");
    assert_eq!(spawn_context(&exe), "Error while executing \"/bin/lnd\"");
}

#[test]
fn failures_are_reported() {
    let outside = (Failure::Outside, Vec::new());
    assert_eq!(contexts_of(&Lnd::new(1, 2).step(Event::Failed)), outside);
    let launch = Lnd::new(1, 2).step(downloading()).step(Event::Failed);
    assert_eq!(contexts_of(&launch), outside);
    let launch = Lnd::new(1, 2).step(synced()).step(Event::TempRoot(EnvVar::Absent));
    assert_eq!(contexts_of(&launch.step(Event::Failed)), outside);

    let launch = to_process(Lnd::new(1, 2), "/tmp/n", (1, 2, 3)).step(Event::Failed);
    assert_eq!(contexts_of(&launch), (Failure::NotExecuted, Vec::new()));

    let launch = spawn(Lnd::new(1, 2), "/tmp/n", (1, 2, 3), 4).step(Event::Exited(1));
    let launch = to_process(launch, "/tmp/m", (1, 2, 3)).step(Event::Failed);
    let contexts = vec!["Remaining attempts 2".to_string()];
    assert_eq!(contexts_of(&launch), (Failure::NotExecuted, contexts));

    let up = || {
        spawn(Lnd::new(1, 2), "/tmp/n", (1, 2, 3), 4)
            .step(Event::Running)
            .step(Event::Connected)
    };
    assert_eq!(contexts_of(&up().step(Event::Failed)), outside);
    let launch = up().step(Event::FileRead(Vec::new())).step(Event::Failed);
    assert_eq!(contexts_of(&launch), outside);
}

#[test]
fn different_files_have_different_texts() {
    let node = |cert: Vec<u8>, macaroon: Vec<u8>| {
        spawn(Lnd::new(1, 2), "/tmp/n", (1, 2, 3), 4)
            .step(Event::Running)
            .step(Event::Connected)
            .step(Event::FileRead(cert))
            .step(Event::FileRead(macaroon))
            .step(Event::Waited)
            .finish()
            .unwrap()
    };
    let one = node(vec![0x01, 0x10], (0..=255).collect());
    let two = node(vec![0x11, 0x00], Vec::new());
    assert_eq!(one.tls_cert, "0110");
    assert_eq!(two.tls_cert, "1100");
    let all: String = (0..=255).map(|b| format!("{:02x}", b)).collect();
    assert_eq!(one.admin_macaroon, all);
    assert_eq!(two.admin_macaroon, "");
}

#[test]
fn lnd_subscribes_where_bitcoind_publishes() {
    let (published, block, tx) = setup_bitcoind(40001, 40002);
    assert_eq!(published[0], "-zmqpubrawblock=tcp://0.0.0.0:40001");
    assert_eq!(published[1], "-zmqpubrawtx=tcp://0.0.0.0:40002");
    match to_process(Lnd::new(block, tx), "/tmp/n", (1, 2, 3)).action() {
        Action::Spawn { args, .. } => {
            let has = |arg: &str| args.iter().any(|a| a == arg);
            assert!(has("--bitcoind.zmqpubrawblock=tcp://127.0.0.1:40001"));
            assert!(has("--bitcoind.zmqpubrawtx=tcp://127.0.0.1:40002"));
        }
        other => panic!("{:?}", other),
    }
}

#[test]
fn only_an_end_stops_a_launch() {
    let failed = Lnd::new(1, 2).step(Event::Failed);
    assert!(matches!(failed.action(), Action::Fail { .. }));
    let running = spawn(Lnd::new(1, 2), "/tmp/n", (1, 2, 3), 4);
    assert!(!matches!(running.action(), Action::Fail { .. } | Action::Finish));
}
