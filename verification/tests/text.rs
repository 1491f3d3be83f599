use lnd::args::{make_args, make_https_url, make_macaroon_file, make_peer_url};
use lnd::args::{BitcoindParams, Ports, ZmqPorts};
use lnd::text::decimal;
use lnd::{setup_bitcoind, Conf};

#[test]
fn decimal_of_every_port() {
    for n in 0..=u16::MAX {
        assert_eq!(decimal(n), n.to_string());
    }
}

#[test]
fn urls_and_files() {
    assert_eq!(make_https_url(10009), "https://localhost:10009");
    assert_eq!(make_peer_url(0), "localhost:0");
    assert_eq!(
        make_macaroon_file("regtest"),
        "data/chain/bitcoin/regtest/admin.macaroon"
    );
    assert_ne!(make_https_url(1), make_https_url(10));
}

#[test]
fn bitcoind_publishes_on_the_given_ports() {
    let (args, block, tx) = setup_bitcoind(28332, 28333);
    assert_eq!(
        args,
        vec![
            "-zmqpubrawblock=tcp://0.0.0.0:28332",
            "-zmqpubrawtx=tcp://0.0.0.0:28333"
        ]
    );
    assert_eq!((block, tx), (28332, 28333));
}

#[test]
fn command_line_in_full() {
    let mut conf = Conf::default();
    conf.args.push("--debuglevel=trace");
    conf.args.push("--alias=alice");
    conf.network = "signet";
    let bitcoind = BitcoindParams {
        cookie_file: "/b/.cookie".to_string(),
        rpc_socket: "127.0.0.1:18443".to_string(),
    };
    let zmq = ZmqPorts {
        raw_block: 1,
        raw_tx: 22,
    };
    let ports = Ports {
        listen: 333,
        grpc: 4444,
        rest: 55555,
    };
    let args = make_args(&conf, "/w", &bitcoind, zmq, ports);
    assert_eq!(
        args,
        vec![
            "--debuglevel=trace",
            "--alias=alice",
            "--lnddir=/w",
            "--tlscertpath=/w/tls.cert",
            "--bitcoin.signet",
            "--bitcoin.active",
            "--bitcoin.node=bitcoind",
            "--bitcoind.rpccookie=/b/.cookie",
            "--bitcoind.rpchost=127.0.0.1:18443",
            "--bitcoind.zmqpubrawblock=tcp://127.0.0.1:1",
            "--bitcoind.zmqpubrawtx=tcp://127.0.0.1:22",
            "--listen=0.0.0.0:333",
            "--rpclisten=0.0.0.0:4444",
            "--restlisten=0.0.0.0:55555",
            "--noseedbackup",
            "--protocol.wumbo-channels",
        ]
    );

    // Nothing else of the configuration reaches the command line.
    conf.listen_port = 1;
    conf.attempts = 0;
    conf.minchansize = Some(20000);
    conf.maxchansize = Some(30000);
    assert_eq!(make_args(&conf, "/w", &bitcoind, zmq, ports), args);
}
