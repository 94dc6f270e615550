use vstd::prelude::*;

verus! {

/// Interrupt cause that accompanies a controller response.
#[derive(Clone, Copy, Debug, PartialEq, Eq, Structural)]
pub enum IntCause {
    /// A sector is ready to be transferred.
    DataReady,
    /// A command's long-running work has finished.
    Complete,
    /// A command was received.
    Acknowledge,
    /// End of data; reserved, none of the handlers raises it.
    DataEnd,
    /// A command failed.
    Error,
}

impl IntCause {
    /// Hardware number of the cause.
    pub open spec fn code_spec(self) -> u8 {
        match self {
            IntCause::DataReady => 1,
            IntCause::Complete => 2,
            IntCause::Acknowledge => 3,
            IntCause::DataEnd => 4,
            IntCause::Error => 5,
        }
    }

    /// The wire value of the cause, as the interrupt flag register shows it.
    pub fn code(&self) -> (r: u8)
        ensures
            r == self.code_spec(),
    {
        match self {
            IntCause::DataReady => 1,
            IntCause::Complete => 2,
            IntCause::Acknowledge => 3,
            IntCause::DataEnd => 4,
            IntCause::Error => 5,
        }
    }
}

/// One timed interrupt event of a response chain.
#[derive(Clone, Debug)]
pub struct Packet {
    /// Kind of the event.
    pub cause: IntCause,
    /// Bytes handed to the result channel.
    pub response: Vec<u8>,
    /// Cycles between the previous event (or the command, for the first one)
    /// and this one.
    pub execution_cycles: u32,
    /// The command that produced the event.
    pub command: u8,
}

/// Whether `p` carries exactly the given cause, bytes, delay and command.
pub open spec fn is_packet(p: Packet, cause: IntCause, bytes: Seq<u8>, cycles: u32, command: u8) -> bool {
    &&& p.cause == cause
    &&& p.response@ == bytes
    &&& p.execution_cycles == cycles
    &&& p.command == command
}

/// Cycles from the command until the `n`-th event of `chain` is delivered:
/// the sum of the first `n` delays.
pub open spec fn elapsed(chain: Seq<Packet>, n: nat) -> nat
    decreases n,
{
    if n == 0 || n > chain.len() {
        0
    } else {
        elapsed(chain, (n - 1) as nat) + chain[n - 1].execution_cycles as nat
    }
}

/// One delivery of a chain: when, counted from the command, and what.
#[derive(Clone, Debug)]
pub struct Delivery {
    pub at_cycle: u64,
    pub cause: IntCause,
    pub response: Vec<u8>,
}

proof fn lemma_elapsed_bound(chain: Seq<Packet>, n: nat)
    ensures
        elapsed(chain, n) <= n * 0xFFFF_FFFF,
    decreases n,
{
    if n > 0 && n <= chain.len() {
        lemma_elapsed_bound(chain, (n - 1) as nat);
        assert(((n - 1) as nat) * 0xFFFF_FFFF + 0xFFFF_FFFF == n * 0xFFFF_FFFF) by (nonlinear_arith)
            requires
                n > 0,
        ;
    }
}

/// The deliveries that a scheduler makes of `chain`: one per packet, in chain
/// order, each at the sum of the delays up to and including its own.
pub fn delivery_schedule(chain: &Vec<Packet>) -> (r: Vec<Delivery>)
    requires
        chain.len() <= 0xFFFF_FFFF,
    ensures
        r.len() == chain.len(),
        forall|i: int|
            0 <= i < r.len() ==> {
                &&& r[i].at_cycle == elapsed(chain@, (i + 1) as nat)
                &&& r[i].cause == chain[i].cause
                &&& r[i].response@ == chain[i].response@
            },
{
    let mut r: Vec<Delivery> = Vec::new();
    let mut at: u64 = 0;
    let mut i: usize = 0;
    while i < chain.len()
        invariant
            i <= chain.len(),
            chain.len() <= 0xFFFF_FFFF,
            r.len() == i,
            at == elapsed(chain@, i as nat),
            forall|k: int|
                0 <= k < r.len() ==> {
                    &&& r[k].at_cycle == elapsed(chain@, (k + 1) as nat)
                    &&& r[k].cause == chain[k].cause
                    &&& r[k].response@ == chain[k].response@
                },
        decreases chain.len() - i,
    {
        proof {
            lemma_elapsed_bound(chain@, (i + 1) as nat);
            assert((i + 1) * 0xFFFF_FFFF <= 0x1_0000_0000 * 0xFFFF_FFFF) by (nonlinear_arith)
                requires
                    i + 1 <= 0x1_0000_0000,
            ;
        }
        at = at + chain[i].execution_cycles as u64;
        let response = chain[i].response.clone();
        r.push(Delivery { at_cycle: at, cause: chain[i].cause, response });
        i = i + 1;
    }
    r
}

} // verus!
