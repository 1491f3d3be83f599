use lnd::node::{KillStep, Signal, SignalRequest};
use lnd::{Conf, DataDir, Lnd};
use std::path::PathBuf;

fn node(process: u32, work_dir: DataDir) -> Lnd {
    Lnd {
        process,
        work_dir,
        grpc_url: "https://localhost:1".to_string(),
        rest_url: "https://localhost:2".to_string(),
        listen_url: Some("localhost:3".to_string()),
        admin_macaroon: "00".to_string(),
        tls_cert: "ff".to_string(),
    }
}

fn persistent(process: u32) -> Lnd {
    node(process, DataDir::Persistent(PathBuf::from("/keep")))
}

fn temporary(process: u32) -> Lnd {
    node(process, DataDir::Temporary(PathBuf::from("/tmp/x")))
}

#[test]
fn default_configuration() {
    let mut conf = Conf::default();
    conf.view_stderr = false;
    conf.network = "regtest";
    conf.tmpdir = None;
    conf.staticdir = None;
    conf.minchansize = None;
    conf.maxchansize = None;
    assert_eq!(conf, Conf::default());
    assert!(conf.args.is_empty());
    assert_eq!(conf.attempts, 3);
    assert_eq!(conf.listen_port, 9735);
}

#[test]
fn workdir_is_the_path_of_the_data_directory() {
    assert_eq!(persistent(1).workdir(), PathBuf::from("/keep"));
    assert_eq!(temporary(1).workdir(), PathBuf::from("/tmp/x"));
    assert_eq!(temporary(1).work_dir.path(), PathBuf::from("/tmp/x"));
}

#[test]
fn trigger_sends_usr1() {
    let signal = Signal::Usr1;
    assert_eq!(temporary(4242).trigger(), SignalRequest { pid: 4242, signal });
    assert_eq!(
        temporary(u32::MAX).trigger(),
        SignalRequest { pid: -1, signal }
    );
}

#[test]
fn persistent_node_is_shut_down() {
    let step = persistent(77).kill();
    let request = SignalRequest {
        pid: 77,
        signal: Signal::Int,
    };
    assert_eq!(step, KillStep::Interrupt(request));
    assert_eq!(step.next(true), KillStep::AwaitExit);
    assert_eq!(step.next(true).next(true), KillStep::Finished);
    assert_eq!(step.next(false), KillStep::Failed);
    assert_eq!(step.next(true).next(false), KillStep::Failed);
    assert_eq!(step.next(false).next(true), KillStep::Failed);
}

#[test]
fn temporary_node_is_killed() {
    let step = temporary(77).kill();
    assert_eq!(step, KillStep::Terminate);
    assert_eq!(step.next(true), KillStep::Finished);
    assert_eq!(step.next(false), KillStep::Failed);
    assert_eq!(step.next(true).next(false), KillStep::Finished);
}
