//! What the library's functions are for, said of their results alone: how a result is read back,
//! and how the results of two calls relate.
use crate::args;
use crate::args::BitcoindParams;
use crate::args::Ports;
use crate::args::ZmqPorts;
use crate::conf::Conf;
use crate::error::Error;
use crate::exe;
use crate::exe::EnvVar;
use crate::exe::ExeLookup;
use crate::launch;
use crate::laws;
use crate::node::DataDir;
use crate::node::KillStep;
use crate::node::Lnd;
use crate::node::Signal;
use crate::node::SignalRequest;
use crate::paths;
use crate::rpc;
use crate::text;
use crate::zmq;
use serde_json::Value;
use std::path::PathBuf;
use vstd::prelude::*;

verus! {

/// The number that decimal digits stand for.
pub open spec fn decimal_value(digits: Seq<char>) -> int
    decreases digits.len(),
{
    if digits.len() == 0 {
        0
    } else {
        10 * decimal_value(digits.drop_last()) + (digits.last() as int - '0' as int)
    }
}

/// Whether a text reads as the number `n`: digits only, no leading zero, and the right value.
pub open spec fn is_number(digits: Seq<char>, n: int) -> bool {
    &&& digits.len() > 0
    &&& forall|i: int| 0 <= i < digits.len() ==> '0' <= #[trigger] digits[i] <= '9'
    &&& digits.len() > 1 ==> digits[0] != '0'
    &&& decimal_value(digits) == n
}

/// Whether a text is `prefix` and then a number that reads as `n`.
pub open spec fn is_numbered(prefix: Seq<char>, s: Seq<char>, n: int) -> bool {
    &&& prefix.len() < s.len()
    &&& s.take(prefix.len() as int) == prefix
    &&& is_number(s.skip(prefix.len() as int), n)
}

/// What a lower-case hexadecimal digit stands for; -1 for any other character.
pub open spec fn hex_value(c: char) -> int {
    if '0' <= c <= '9' {
        c as int - '0' as int
    } else if 'a' <= c <= 'f' {
        10 + (c as int - 'a' as int)
    } else {
        -1
    }
}

/// Whether the byte at `i` is read back from the two digits for it.
pub open spec fn hex_byte(s: Seq<char>, bytes: Seq<u8>, i: int) -> bool {
    &&& hex_value(s[2 * i]) >= 0
    &&& hex_value(s[2 * i + 1]) >= 0
    &&& bytes[i] == 16 * hex_value(s[2 * i]) + hex_value(s[2 * i + 1])
}

/// Whether a text is two lower-case hexadecimal digits for each byte, from which every byte is
/// read back.
pub open spec fn is_hex(s: Seq<char>, bytes: Seq<u8>) -> bool {
    &&& s.len() == 2 * bytes.len()
    &&& forall|i: int| 0 <= i < bytes.len() ==> #[trigger] hex_byte(s, bytes, i)
}

pub(crate) proof fn lemma_decimal_reads_back(n: nat)
    ensures
        is_number(text::decimal_text(n), n as int),
        n > 0 ==> text::decimal_text(n)[0] != '0',
    decreases n,
{
    let s = text::decimal_text(n);
    if n < 10 {
        assert(s.drop_last() =~= Seq::<char>::empty());
        reveal_with_fuel(decimal_value, 2);
        assert(decimal_value(s) == n);
    } else {
        lemma_decimal_reads_back(n / 10);
        assert(s.drop_last() =~= text::decimal_text(n / 10));
        assert(decimal_value(s) == 10 * decimal_value(text::decimal_text(n / 10)) + (n % 10));
        assert(s[0] == text::decimal_text(n / 10)[0]);
    }
}

/// `prefix` followed by a port is read back as that port.
pub proof fn law_port_reads_back(prefix: Seq<char>, port: u16)
    ensures
        is_number(args::port_text(port), port as int),
        is_numbered(prefix, prefix + args::port_text(port), port as int),
{
    lemma_decimal_reads_back(port as nat);
    let s = prefix + args::port_text(port);
    assert(s.take(prefix.len() as int) =~= prefix);
    assert(s.skip(prefix.len() as int) =~= args::port_text(port));
}

/// `prefix` followed by any number is read back as that number.
pub proof fn law_number_reads_back(prefix: Seq<char>, n: nat)
    ensures
        is_numbered(prefix, prefix + text::decimal_text(n), n as int),
{
    lemma_decimal_reads_back(n);
    let s = prefix + text::decimal_text(n);
    assert(s.take(prefix.len() as int) =~= prefix);
    assert(s.skip(prefix.len() as int) =~= text::decimal_text(n));
}

/// The decimal text of a number reads as that number.
pub proof fn law_decimal_reads_back(n: u16, s: String)
    requires
        call_ensures(text::decimal, (n,), s),
    ensures
        is_number(s@, n as int),
{
    lemma_decimal_reads_back(n as nat);
}

/// Every byte is read back from its hexadecimal text.
pub proof fn law_hex_reads_back(bytes: Seq<u8>)
    ensures
        is_hex(text::hex_text(bytes), bytes),
{
    let s = text::hex_text(bytes);
    assert forall|i: int| 0 <= i < bytes.len() implies #[trigger] hex_byte(s, bytes, i) by {
        assert((2 * i) / 2 == i && (2 * i + 1) / 2 == i);
        assert(s[2 * i] == text::hex_char((bytes[i] / 16) as nat));
        assert(s[2 * i + 1] == text::hex_char((bytes[i] % 16) as nat));
    }
}

/// One text is the hexadecimal text of one sequence of bytes only.
pub proof fn law_hex_reads_as_one(s: Seq<char>, a: Seq<u8>, b: Seq<u8>)
    requires
        is_hex(s, a),
        is_hex(s, b),
    ensures
        a == b,
{
    assert forall|i: int| 0 <= i < a.len() implies a[i] == b[i] by {
        assert(hex_byte(s, a, i) && hex_byte(s, b, i));
    }
    assert(a =~= b);
}

/// Any bytes whose hexadecimal text fits in a string are taken.
pub proof fn law_every_file_that_fits_is_taken(bytes: Seq<u8>)
    ensures
        bytes.len() <= isize::MAX / 2 ==> text::hex_fits(bytes),
{
}

/// Whether a command line has this argument.
pub open spec fn has(line: Seq<String>, arg: Seq<char>) -> bool {
    exists|i: int| 0 <= i < line.len() && #[trigger] line[i]@ == arg
}

/// Whether a command line has an argument that is `prefix` and then `port`.
pub open spec fn has_port(line: Seq<String>, prefix: Seq<char>, port: u16) -> bool {
    exists|i: int| 0 <= i < line.len() && is_numbered(prefix, #[trigger] line[i]@, port as int)
}

/// Whether a command line starts lnd in this directory, connected to this bitcoind: it begins
/// with the user's arguments, and has fourteen more.
pub open spec fn connects(
    line: Seq<String>,
    conf: Conf,
    work_dir: Seq<char>,
    bitcoind: BitcoindParams,
    zmq: ZmqPorts,
    ports: Ports,
) -> bool {
    &&& line.len() == conf.args@.len() + 14
    &&& forall|i: int| 0 <= i < conf.args@.len() ==> #[trigger] line[i]@ == conf.args@[i]@
    &&& has(line, "--lnddir="@ + work_dir)
    &&& has(line, "--tlscertpath="@ + work_dir + "/tls.cert"@)
    &&& has(line, "--bitcoin."@ + conf.network@)
    &&& has(line, "--bitcoin.active"@)
    &&& has(line, "--bitcoin.node=bitcoind"@)
    &&& has(line, "--bitcoind.rpccookie="@ + bitcoind.cookie_file@)
    &&& has(line, "--bitcoind.rpchost="@ + bitcoind.rpc_socket@)
    &&& has_port(line, "--bitcoind.zmqpubrawblock=tcp://127.0.0.1:"@, zmq.raw_block)
    &&& has_port(line, "--bitcoind.zmqpubrawtx=tcp://127.0.0.1:"@, zmq.raw_tx)
    &&& has_port(line, "--listen=0.0.0.0:"@, ports.listen)
    &&& has_port(line, "--rpclisten=0.0.0.0:"@, ports.grpc)
    &&& has_port(line, "--restlisten=0.0.0.0:"@, ports.rest)
    &&& has(line, "--noseedbackup"@)
    &&& has(line, "--protocol.wumbo-channels"@)
}

/// A command line whose texts are those of `lnd_args` connects lnd to its bitcoind.
pub(crate) proof fn lemma_line_connects(
    line: Seq<String>,
    conf: Conf,
    work_dir: Seq<char>,
    bitcoind: BitcoindParams,
    zmq: ZmqPorts,
    ports: Ports,
)
    requires
        args::texts(line) == args::lnd_args(conf, work_dir, bitcoind, zmq, ports),
    ensures
        connects(line, conf, work_dir, bitcoind, zmq, ports),
{
    let n = conf.args@.len() as int;
    let full = args::lnd_args(conf, work_dir, bitcoind, zmq, ports);
    assert(args::texts(line).len() == line.len());
    assert(conf.arg_texts().len() == n);
    assert forall|i: int| 0 <= i < line.len() implies #[trigger] line[i]@ == full[i] by {
        assert(args::texts(line)[i] == line[i]@);
    }
    assert forall|i: int| 0 <= i < n implies #[trigger] line[i]@ == conf.args@[i]@ by {
        assert(conf.arg_texts()[i] == conf.args@[i]@);
    }
    law_port_reads_back("--bitcoind.zmqpubrawblock=tcp://127.0.0.1:"@, zmq.raw_block);
    law_port_reads_back("--bitcoind.zmqpubrawtx=tcp://127.0.0.1:"@, zmq.raw_tx);
    law_port_reads_back("--listen=0.0.0.0:"@, ports.listen);
    law_port_reads_back("--rpclisten=0.0.0.0:"@, ports.grpc);
    law_port_reads_back("--restlisten=0.0.0.0:"@, ports.rest);
    assert(line[n]@ == "--lnddir="@ + work_dir);
    assert(line[n + 1]@ == "--tlscertpath="@ + work_dir + "/tls.cert"@);
    assert(line[n + 2]@ == "--bitcoin."@ + conf.network@);
    assert(line[n + 3]@ == "--bitcoin.active"@);
    assert(line[n + 4]@ == "--bitcoin.node=bitcoind"@);
    assert(line[n + 5]@ == "--bitcoind.rpccookie="@ + bitcoind.cookie_file@);
    assert(line[n + 6]@ == "--bitcoind.rpchost="@ + bitcoind.rpc_socket@);
    assert(is_numbered(
        "--bitcoind.zmqpubrawblock=tcp://127.0.0.1:"@,
        line[n + 7]@,
        zmq.raw_block as int,
    ));
    assert(is_numbered(
        "--bitcoind.zmqpubrawtx=tcp://127.0.0.1:"@,
        line[n + 8]@,
        zmq.raw_tx as int,
    ));
    assert(is_numbered("--listen=0.0.0.0:"@, line[n + 9]@, ports.listen as int));
    assert(is_numbered("--rpclisten=0.0.0.0:"@, line[n + 10]@, ports.grpc as int));
    assert(is_numbered("--restlisten=0.0.0.0:"@, line[n + 11]@, ports.rest as int));
    assert(line[n + 12]@ == "--noseedbackup"@);
    assert(line[n + 13]@ == "--protocol.wumbo-channels"@);
}

/// For every bitcoind, directory and set of ports, the command line holds each of them, after
/// the user's own arguments.
pub proof fn law_command_line_connects_lnd(
    conf: Conf,
    work_dir: &str,
    bitcoind: BitcoindParams,
    zmq: ZmqPorts,
    ports: Ports,
    line: Vec<String>,
)
    requires
        call_ensures(args::make_args, (&conf, work_dir, &bitcoind, zmq, ports), line),
    ensures
        connects(line@, conf, work_dir@, bitcoind, zmq, ports),
{
    lemma_line_connects(line@, conf, work_dir@, bitcoind, zmq, ports);
}

/// Two command lines with as many user arguments are the same only for the same user arguments,
/// directory, network, bitcoind and ports.
pub proof fn law_command_lines_tell_settings_apart(
    conf: Conf,
    work_dir: &str,
    bitcoind: BitcoindParams,
    zmq: ZmqPorts,
    ports: Ports,
    line: Vec<String>,
    other_conf: Conf,
    other_work_dir: &str,
    other_bitcoind: BitcoindParams,
    other_zmq: ZmqPorts,
    other_ports: Ports,
    other_line: Vec<String>,
)
    requires
        call_ensures(args::make_args, (&conf, work_dir, &bitcoind, zmq, ports), line),
        call_ensures(
            args::make_args,
            (&other_conf, other_work_dir, &other_bitcoind, other_zmq, other_ports),
            other_line,
        ),
        conf.args@.len() == other_conf.args@.len(),
        line@.len() == other_line@.len(),
        forall|i: int| 0 <= i < line@.len() ==> #[trigger] line@[i]@ == other_line@[i]@,
    ensures
        forall|i: int|
            0 <= i < conf.args@.len() ==> #[trigger] conf.args@[i]@ == other_conf.args@[i]@,
        work_dir@ == other_work_dir@,
        conf.network@ == other_conf.network@,
        bitcoind.cookie_file@ == other_bitcoind.cookie_file@,
        bitcoind.rpc_socket@ == other_bitcoind.rpc_socket@,
        zmq == other_zmq,
        ports == other_ports,
{
    let n = conf.args@.len() as int;
    let a = args::lnd_args(conf, work_dir@, bitcoind, zmq, ports);
    let b = args::lnd_args(other_conf, other_work_dir@, other_bitcoind, other_zmq, other_ports);
    assert(args::texts(line@) =~= args::texts(other_line@));
    assert(a == b);
    assert(conf.arg_texts().len() == n && other_conf.arg_texts().len() == n);
    assert forall|i: int| 0 <= i < n implies #[trigger] conf.args@[i]@
        == other_conf.args@[i]@ by {
        assert(a[i] == conf.arg_texts()[i] && b[i] == other_conf.arg_texts()[i]);
    }
    assert(a[n] == "--lnddir="@ + work_dir@ && b[n] == "--lnddir="@ + other_work_dir@);
    lemma_same_tail("--lnddir="@, work_dir@, other_work_dir@);
    assert(a[n + 2] == "--bitcoin."@ + conf.network@);
    assert(b[n + 2] == "--bitcoin."@ + other_conf.network@);
    lemma_same_tail("--bitcoin."@, conf.network@, other_conf.network@);
    assert(a[n + 5] == "--bitcoind.rpccookie="@ + bitcoind.cookie_file@);
    assert(b[n + 5] == "--bitcoind.rpccookie="@ + other_bitcoind.cookie_file@);
    lemma_same_tail(
        "--bitcoind.rpccookie="@,
        bitcoind.cookie_file@,
        other_bitcoind.cookie_file@,
    );
    assert(a[n + 6] == "--bitcoind.rpchost="@ + bitcoind.rpc_socket@);
    assert(b[n + 6] == "--bitcoind.rpchost="@ + other_bitcoind.rpc_socket@);
    lemma_same_tail("--bitcoind.rpchost="@, bitcoind.rpc_socket@, other_bitcoind.rpc_socket@);
    assert(a[n + 7] == b[n + 7] && a[n + 8] == b[n + 8] && a[n + 9] == b[n + 9] && a[n + 10]
        == b[n + 10] && a[n + 11] == b[n + 11]);
    lemma_same_port(
        "--bitcoind.zmqpubrawblock=tcp://127.0.0.1:"@,
        zmq.raw_block,
        other_zmq.raw_block,
    );
    lemma_same_port("--bitcoind.zmqpubrawtx=tcp://127.0.0.1:"@, zmq.raw_tx, other_zmq.raw_tx);
    lemma_same_port("--listen=0.0.0.0:"@, ports.listen, other_ports.listen);
    lemma_same_port("--rpclisten=0.0.0.0:"@, ports.grpc, other_ports.grpc);
    lemma_same_port("--restlisten=0.0.0.0:"@, ports.rest, other_ports.rest);
}

proof fn lemma_same_tail(prefix: Seq<char>, a: Seq<char>, b: Seq<char>)
    requires
        prefix + a == prefix + b,
    ensures
        a == b,
{
    assert(a =~= (prefix + a).skip(prefix.len() as int));
    assert(b =~= (prefix + b).skip(prefix.len() as int));
}

proof fn lemma_same_port(prefix: Seq<char>, a: u16, b: u16)
    requires
        prefix + args::port_text(a) == prefix + args::port_text(b),
    ensures
        a == b,
{
    law_port_reads_back(prefix, a);
    law_port_reads_back(prefix, b);
}

/// The urls of a node hold the port that they are made of, and the scheme and the host.
pub proof fn law_urls_read_back(port: u16, https: String, peer: String)
    requires
        call_ensures(args::make_https_url, (port,), https),
        call_ensures(args::make_peer_url, (port,), peer),
    ensures
        is_numbered("https://localhost:"@, https@, port as int),
        is_numbered("localhost:"@, peer@, port as int),
{
    law_port_reads_back("https://localhost:"@, port);
    law_port_reads_back("localhost:"@, port);
}

/// The macaroon file lies in the directory of its network, whatever the network is called.
pub proof fn law_macaroon_lies_with_its_network(network: &str, file: String)
    requires
        call_ensures(args::make_macaroon_file, (network,), file),
    ensures
        "data/chain/bitcoin/"@.is_prefix_of(file@),
        "/admin.macaroon"@.is_suffix_of(file@),
        file@.len() == "data/chain/bitcoin/"@.len() + network@.len() + "/admin.macaroon"@.len(),
        file@.subrange(
            "data/chain/bitcoin/"@.len() as int,
            "data/chain/bitcoin/"@.len() as int + network@.len() as int,
        ) == network@,
{
    let a = "data/chain/bitcoin/"@;
    let c = "/admin.macaroon"@;
    assert(file@ == a + network@ + c);
    assert(file@.subrange(0, a.len() as int) =~= a);
    assert(file@.subrange(file@.len() - c.len(), file@.len() as int) =~= c);
    assert(file@.subrange(a.len() as int, a.len() as int + network@.len() as int) =~= network@);
}

/// bitcoind is told to publish blocks on the first port and transactions on the second, and
/// these are handed on in the same order.
pub proof fn law_bitcoind_is_told_its_ports(
    block_port: u16,
    tx_port: u16,
    setup: (Vec<String>, u16, u16),
)
    requires
        call_ensures(zmq::setup_bitcoind, (block_port, tx_port), setup),
    ensures
        setup.0@.len() == 2,
        is_numbered("-zmqpubrawblock=tcp://0.0.0.0:"@, setup.0@[0]@, block_port as int),
        is_numbered("-zmqpubrawtx=tcp://0.0.0.0:"@, setup.0@[1]@, tx_port as int),
        setup.1 == block_port,
        setup.2 == tx_port,
{
    law_port_reads_back("-zmqpubrawblock=tcp://0.0.0.0:"@, block_port);
    law_port_reads_back("-zmqpubrawtx=tcp://0.0.0.0:"@, tx_port);
    assert(args::texts(setup.0@).len() == setup.0@.len());
    assert(args::texts(setup.0@)[0] == setup.0@[0]@);
    assert(args::texts(setup.0@)[1] == setup.0@[1]@);
}

/// lnd, started with what the set-up of bitcoind hands on, subscribes to the very ports on which
/// bitcoind was told to publish.
pub proof fn law_lnd_and_bitcoind_agree_on_ports(
    block_port: u16,
    tx_port: u16,
    setup: (Vec<String>, u16, u16),
    conf: Conf,
    work_dir: &str,
    bitcoind: BitcoindParams,
    ports: Ports,
    line: Vec<String>,
)
    requires
        call_ensures(zmq::setup_bitcoind, (block_port, tx_port), setup),
        call_ensures(
            args::make_args,
            (
                &conf,
                work_dir,
                &bitcoind,
                (ZmqPorts { raw_block: setup.1, raw_tx: setup.2 }),
                ports,
            ),
            line,
        ),
    ensures
        has_port(line@, "--bitcoind.zmqpubrawblock=tcp://127.0.0.1:"@, block_port),
        has_port(line@, "--bitcoind.zmqpubrawtx=tcp://127.0.0.1:"@, tx_port),
{
    law_bitcoind_is_told_its_ports(block_port, tx_port, setup);
    law_command_line_connects_lnd(
        conf,
        work_dir,
        bitcoind,
        ZmqPorts { raw_block: setup.1, raw_tx: setup.2 },
        ports,
        line,
    );
}

/// A signal goes to the process of the node: its identifier, bit for bit, and the same number
/// wherever that is not negative.
pub proof fn law_signals_go_to_the_process(node: Lnd, trigger: SignalRequest, kill: KillStep)
    requires
        call_ensures(Lnd::trigger, (&node,), trigger),
        call_ensures(Lnd::kill, (&node,), kill),
    ensures
        trigger.signal == Signal::Usr1,
        node.process <= i32::MAX ==> trigger.pid == node.process,
        (trigger.pid - node.process) % 0x1_0000_0000 == 0,
        node.work_dir is Temporary ==> kill is Terminate,
        node.work_dir is Persistent ==> kill is Interrupt,
        kill matches KillStep::Interrupt(request) ==> {
            &&& request.signal == Signal::Int
            &&& request.pid == trigger.pid
        },
{
}

/// Different processes are sent signals at different identifiers.
pub proof fn law_signals_tell_processes_apart(
    a: Lnd,
    b: Lnd,
    to_a: SignalRequest,
    to_b: SignalRequest,
)
    requires
        call_ensures(Lnd::trigger, (&a,), to_a),
        call_ensures(Lnd::trigger, (&b,), to_b),
        a.process != b.process,
    ensures
        to_a.pid != to_b.pid,
{
}

/// A step of terminating a node that fails is the end, with a failure. One that succeeds leads
/// from the request to shut down to the wait for it, and from that, or from killing, to success.
/// An end stays as it is.
pub proof fn law_terminating_goes_step_by_step(step: KillStep, succeeded: bool, next: KillStep)
    requires
        call_ensures(KillStep::next, (step, succeeded), next),
    ensures
        next == step.following(succeeded),
        step is Finished || step is Failed ==> next == step,
        !(step is Finished) && !succeeded ==> next is Failed,
        step is Interrupt && succeeded ==> next is AwaitExit,
        (step is AwaitExit || step is Terminate) && succeeded ==> next is Finished,
{
}

/// The path of a data directory is the one that it was made with, and that of a node is the path
/// of its data directory.
pub proof fn law_paths_are_handed_out_unchanged(
    dir: PathBuf,
    node: Lnd,
    temporary: PathBuf,
    persistent: PathBuf,
    work_dir: PathBuf,
)
    requires
        call_ensures(DataDir::path, (&DataDir::Temporary(dir),), temporary),
        call_ensures(DataDir::path, (&DataDir::Persistent(dir),), persistent),
        call_ensures(Lnd::workdir, (&node,), work_dir),
    ensures
        temporary == dir,
        persistent == dir,
        node.work_dir == DataDir::Temporary(work_dir) || node.work_dir == DataDir::Persistent(
            work_dir,
        ),
{
}

/// Two variables that are set are refused, and nothing else is. A path is the value of a variable
/// that is set, of either alike; without one `lnd` is searched for.
pub proof fn law_executable_is_the_one_named(
    exec: EnvVar,
    exe: EnvVar,
    lookup: Result<ExeLookup, Error>,
)
    requires
        call_ensures(exe::exe_path, (exec, exe), lookup),
    ensures
        lookup is Err <==> !(exec is Absent) && !(exe is Absent),
        lookup matches Err(error) ==> error == Error::BothEnvVars,
        forall|path: String|
            lookup == Ok::<ExeLookup, Error>(#[trigger] found(path)) <==> (exec == value(path)
                && exe is Absent || exe == value(path) && exec is Absent),
        lookup matches Ok(ExeLookup::Search(name)) ==> {
            &&& name@ == "lnd"@
            &&& !(exec is Value)
            &&& !(exe is Value)
        },
{
}

/// An executable that is known to be at `path`.
pub open spec fn found(path: String) -> ExeLookup {
    ExeLookup::Found(path)
}

/// A variable that is set to `path`.
pub open spec fn value(path: String) -> EnvVar {
    EnvVar::Value(path)
}

/// Which of the two variables names the executable makes no difference.
pub proof fn law_variables_are_alike(
    a: EnvVar,
    b: EnvVar,
    one: Result<ExeLookup, Error>,
    other: Result<ExeLookup, Error>,
)
    requires
        call_ensures(exe::exe_path, (a, b), one),
        call_ensures(exe::exe_path, (b, a), other),
    ensures
        one is Err <==> other is Err,
        forall|path: String|
            one == Ok::<ExeLookup, Error>(#[trigger] found(path)) <==> other == Ok::<
                ExeLookup,
                Error,
            >(found(path)),
{
}

/// The variables are known by two different names, there is no downloaded executable, and a
/// search ends in the path that it found, as it is displayed, or in an error.
pub proof fn law_search_ends_as_it_went(
    names: (&'static str, &'static str),
    downloaded: Option<String>,
    path: Option<PathBuf>,
    searched: Result<String, Error>,
)
    requires
        call_ensures(exe::exe_variables, (), names),
        call_ensures(exe::downloaded_exe_path, (), downloaded),
        call_ensures(exe::searched_exe_path, (path,), searched),
    ensures
        names.0@ == "LND_EXEC"@,
        names.1@ == "LND_EXE"@,
        names.0@ != names.1@,
        downloaded is None,
        searched is Ok <==> path is Some,
        searched matches Err(error) ==> error == Error::NoElectrsExecutableFound,
        searched matches Ok(shown) ==> shown@ == paths::path_text(path->0),
{
    reveal_strlit("LND_EXEC");
    reveal_strlit("LND_EXE");
    assert("LND_EXEC"@.len() != "LND_EXE"@.len());
}

/// bitcoind is in initial block download where its answer says so by `true`, and only there;
/// answers that agree on that member count alike.
pub proof fn law_download_is_read_from_its_member(info: Value, other: Value, yes: bool, also: bool)
    requires
        call_ensures(rpc::in_initial_block_download, (&info,), yes),
        call_ensures(rpc::in_initial_block_download, (&other,), also),
    ensures
        yes <==> rpc::json_members(info).contains_pair("initialblockdownload"@, Some(true)),
        yes && rpc::json_members(other).contains_key("initialblockdownload"@)
            && rpc::json_members(other)["initialblockdownload"@]
            == rpc::json_members(info)["initialblockdownload"@] ==> also,
        yes == rpc::downloading(info),
{
}

/// A member counts as set only where it is there and is `true`.
pub proof fn law_only_true_is_set(member: Option<Option<bool>>, yes: bool)
    requires
        call_ensures(rpc::is_set, (member,), yes),
    ensures
        member is None ==> !yes,
        member matches Some(None) ==> !yes,
        member matches Some(Some(flag)) ==> yes == flag,
{
}

/// The text around a failure to spawn names the executable, whole and last.
pub proof fn law_failure_to_spawn_names_executable(exe: &str, context: String)
    requires
        call_ensures(launch::spawn_context, (exe,), context),
    ensures
        "Error while executing "@.is_prefix_of(context@),
        context@.skip("Error while executing "@.len() as int) == exe@,
{
    let a = "Error while executing "@;
    assert(context@.subrange(0, a.len() as int) =~= a);
    assert(context@.skip(a.len() as int) =~= exe@);
}

/// By default lnd is told to use regtest, given no other arguments, and tried three times; its
/// error output is suppressed and no directory is named.
pub proof fn law_default_is_regtest<'a>(
    conf: Conf<'a>,
    work_dir: &str,
    bitcoind: BitcoindParams,
    zmq: ZmqPorts,
    ports: Ports,
    line: Vec<String>,
)
    requires
        call_ensures(<Conf<'a> as Default>::default, (), conf),
        call_ensures(args::make_args, (&conf, work_dir, &bitcoind, zmq, ports), line),
    ensures
        conf.is_default(),
        line@.len() == 14,
        has(line@, "--bitcoin.regtest"@),
        laws::tries(conf) == 3,
        conf.attempts == 3,
        conf.listen_port == 9735,
        !conf.view_stderr,
        conf.tmpdir is None && conf.staticdir is None,
        conf.minchansize is None && conf.maxchansize is None,
{
    law_command_line_connects_lnd(conf, work_dir, bitcoind, zmq, ports, line);
    reveal_strlit("--bitcoin.");
    reveal_strlit("regtest");
    reveal_strlit("--bitcoin.regtest");
    assert("--bitcoin."@ + "regtest"@ =~= "--bitcoin.regtest"@);
}

} // verus!
