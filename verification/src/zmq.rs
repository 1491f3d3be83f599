//! The zmq sockets of bitcoind, from which lnd learns of blocks and transactions.
use crate::args;
use crate::text;
use vstd::prelude::*;

verus! {

/// The argument that makes bitcoind publish raw blocks on `port`.
pub open spec fn publish_blocks(port: u16) -> Seq<char> {
    "-zmqpubrawblock=tcp://0.0.0.0:"@ + args::port_text(port)
}

/// The argument that makes bitcoind publish raw transactions on `port`.
pub open spec fn publish_txs(port: u16) -> Seq<char> {
    "-zmqpubrawtx=tcp://0.0.0.0:"@ + args::port_text(port)
}

/// How to set up a bitcoind that an lnd process can connect to: the arguments that bitcoind has
/// to be given besides its default ones, in this order, and the ports on which it then publishes
/// raw blocks and raw transactions.
pub fn setup_bitcoind(zmq_block_port: u16, zmq_tx_port: u16) -> (setup: (Vec<String>, u16, u16))
    ensures
        args::texts(setup.0@) == seq![publish_blocks(zmq_block_port), publish_txs(zmq_tx_port)],
        setup.1 == zmq_block_port,
        setup.2 == zmq_tx_port,
{
    let mut args: Vec<String> = Vec::new();
    args.push(
        text::join("-zmqpubrawblock=tcp://0.0.0.0:", text::decimal(zmq_block_port).as_str()),
    );
    args.push(text::join("-zmqpubrawtx=tcp://0.0.0.0:", text::decimal(zmq_tx_port).as_str()));
    assert(args::texts(args@) =~= seq![
        publish_blocks(zmq_block_port),
        publish_txs(zmq_tx_port),
    ]);
    (args, zmq_block_port, zmq_tx_port)
}

} // verus!
