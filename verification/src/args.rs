//! The command line of an lnd process, and the addresses that follow from it.
use crate::conf::Conf;
use crate::text;
use vstd::prelude::*;

verus! {

/// What lnd has to know to reach bitcoind.
#[derive(Debug, PartialEq, Eq)]
pub struct BitcoindParams {
    /// Path of the cookie file that authenticates calls.
    pub cookie_file: String,
    /// Address and port of the server for remote procedure calls.
    pub rpc_socket: String,
}

/// The ports of the zmq sockets on which bitcoind publishes.
#[derive(Debug, Clone, Copy, PartialEq, Eq, Structural)]
pub struct ZmqPorts {
    /// Raw blocks.
    pub raw_block: u16,
    /// Raw transactions.
    pub raw_tx: u16,
}

/// The ports on which an lnd process listens.
#[derive(Debug, Clone, Copy, PartialEq, Eq, Structural)]
pub struct Ports {
    /// Peer-to-peer.
    pub listen: u16,
    /// gRPC.
    pub grpc: u16,
    /// REST.
    pub rest: u16,
}

/// `port` in decimal.
pub open spec fn port_text(port: u16) -> Seq<char> {
    text::decimal_text(port as nat)
}

/// The arguments of an lnd process that works in the directory displayed as `work_dir`: the
/// user's own first, then those that the library adds.
pub open spec fn lnd_args(
    conf: Conf,
    work_dir: Seq<char>,
    bitcoind: BitcoindParams,
    zmq: ZmqPorts,
    ports: Ports,
) -> Seq<Seq<char>> {
    conf.arg_texts() + seq![
        "--lnddir="@ + work_dir,
        "--tlscertpath="@ + work_dir + "/tls.cert"@,
        "--bitcoin."@ + conf.network@,
        "--bitcoin.active"@,
        "--bitcoin.node=bitcoind"@,
        "--bitcoind.rpccookie="@ + bitcoind.cookie_file@,
        "--bitcoind.rpchost="@ + bitcoind.rpc_socket@,
        "--bitcoind.zmqpubrawblock=tcp://127.0.0.1:"@ + port_text(zmq.raw_block),
        "--bitcoind.zmqpubrawtx=tcp://127.0.0.1:"@ + port_text(zmq.raw_tx),
        "--listen=0.0.0.0:"@ + port_text(ports.listen),
        "--rpclisten=0.0.0.0:"@ + port_text(ports.grpc),
        "--restlisten=0.0.0.0:"@ + port_text(ports.rest),
        "--noseedbackup"@,
        "--protocol.wumbo-channels"@,
    ]
}

/// Strings as text.
pub open spec fn texts(strings: Seq<String>) -> Seq<Seq<char>> {
    strings.map_values(|s: String| s@)
}

/// Adds `prefix` followed by `rest` to a list of arguments.
fn push_joined(args: &mut Vec<String>, prefix: &str, rest: &str)
    ensures
        texts(final(args)@) == texts(old(args)@).push(prefix@ + rest@),
{
    args.push(text::join(prefix, rest));
    assert(texts(args@) =~= texts(old(args)@).push(prefix@ + rest@));
}

/// Adds a fixed argument to a list of arguments.
fn push_fixed(args: &mut Vec<String>, arg: &str)
    ensures
        texts(final(args)@) == texts(old(args)@).push(arg@),
{
    args.push(arg.to_owned());
    assert(texts(args@) =~= texts(old(args)@).push(arg@));
}

/// Adds `prefix` followed by a port to a list of arguments.
fn push_port(args: &mut Vec<String>, prefix: &str, port: u16)
    ensures
        texts(final(args)@) == texts(old(args)@).push(prefix@ + port_text(port)),
{
    push_joined(args, prefix, text::decimal(port).as_str());
}

/// The user's arguments as strings.
fn user_args(conf: &Conf) -> (args: Vec<String>)
    ensures
        texts(args@) == conf.arg_texts(),
{
    let mut args: Vec<String> = Vec::new();
    let mut i: usize = 0;
    while i < conf.args.len()
        invariant
            i <= conf.args@.len(),
            texts(args@) =~= conf.arg_texts().take(i as int),
        decreases conf.args@.len() - i,
    {
        push_fixed(&mut args, conf.args[i]);
        i = i + 1;
    }
    assert(conf.arg_texts().take(i as int) =~= conf.arg_texts());
    args
}

/// The arguments of an lnd process that works in the directory displayed as `work_dir`.
pub fn make_args(
    conf: &Conf,
    work_dir: &str,
    bitcoind: &BitcoindParams,
    zmq: ZmqPorts,
    ports: Ports,
) -> (args: Vec<String>)
    ensures
        texts(args@) == lnd_args(*conf, work_dir@, *bitcoind, zmq, ports),
{
    let mut args = user_args(conf);
    push_joined(&mut args, "--lnddir=", work_dir);
    push_joined(&mut args, text::join("--tlscertpath=", work_dir).as_str(), "/tls.cert");
    push_joined(&mut args, "--bitcoin.", conf.network);
    push_fixed(&mut args, "--bitcoin.active");
    push_fixed(&mut args, "--bitcoin.node=bitcoind");
    push_joined(&mut args, "--bitcoind.rpccookie=", bitcoind.cookie_file.as_str());
    push_joined(&mut args, "--bitcoind.rpchost=", bitcoind.rpc_socket.as_str());
    push_port(&mut args, "--bitcoind.zmqpubrawblock=tcp://127.0.0.1:", zmq.raw_block);
    push_port(&mut args, "--bitcoind.zmqpubrawtx=tcp://127.0.0.1:", zmq.raw_tx);
    push_port(&mut args, "--listen=0.0.0.0:", ports.listen);
    push_port(&mut args, "--rpclisten=0.0.0.0:", ports.grpc);
    push_port(&mut args, "--restlisten=0.0.0.0:", ports.rest);
    push_fixed(&mut args, "--noseedbackup");
    push_fixed(&mut args, "--protocol.wumbo-channels");
    assert(texts(args@) =~= lnd_args(*conf, work_dir@, *bitcoind, zmq, ports));
    args
}

/// The url of a server on this machine that speaks TLS.
pub open spec fn https_url(port: u16) -> Seq<char> {
    "https://localhost:"@ + port_text(port)
}

/// The url of a server on this machine that speaks TLS.
pub fn make_https_url(port: u16) -> (url: String)
    ensures
        url@ == https_url(port),
{
    text::join("https://localhost:", text::decimal(port).as_str())
}

/// The address at which peers on this machine connect.
pub open spec fn peer_url(port: u16) -> Seq<char> {
    "localhost:"@ + port_text(port)
}

/// The address at which peers on this machine connect.
pub fn make_peer_url(port: u16) -> (url: String)
    ensures
        url@ == peer_url(port),
{
    text::join("localhost:", text::decimal(port).as_str())
}

/// Where lnd keeps the certificate of its servers, within its working directory.
pub open spec fn cert_file() -> Seq<char> {
    "tls.cert"@
}

/// Where lnd keeps the macaroon of the administrator, within its working directory.
pub open spec fn macaroon_file(network: Seq<char>) -> Seq<char> {
    "data/chain/bitcoin/"@ + network + "/admin.macaroon"@
}

/// Where lnd keeps the macaroon of the administrator, within its working directory.
pub fn make_macaroon_file(network: &str) -> (file: String)
    ensures
        file@ == macaroon_file(network@),
{
    text::join(text::join("data/chain/bitcoin/", network).as_str(), "/admin.macaroon")
}

} // verus!
