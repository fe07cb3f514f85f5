//! The stream record, the instruction set and the error taxonomy.

use vstd::prelude::*;

verus! {

/// A 32-byte account address.
#[derive(Clone, Copy, Debug, Eq)]
pub struct Pubkey {
    pub bytes: [u8; 32],
}

impl Pubkey {
    pub fn new_from_array(bytes: [u8; 32]) -> (r: Pubkey)
        ensures
            r.bytes == bytes,
    {
        Pubkey { bytes }
    }

    pub fn to_bytes(&self) -> (r: [u8; 32])
        ensures
            r == self.bytes,
    {
        self.bytes
    }
}

/// Two keys are equal exactly when their bytes are.
pub proof fn lemma_pubkey_eq(a: Pubkey, b: Pubkey)
    ensures
        (a.bytes@ == b.bytes@) <==> a == b,
{
    if a.bytes@ == b.bytes@ {
        vstd::array::axiom_array_ext_equal(a.bytes, b.bytes);
    }
}

impl PartialEq for Pubkey {
    fn eq(&self, other: &Pubkey) -> (r: bool) {
        let mut i: usize = 0;
        while i < 32
            invariant
                0 <= i <= 32,
                forall|j: int| 0 <= j < i ==> self.bytes@[j] == other.bytes@[j],
            decreases 32 - i,
        {
            if self.bytes[i] != other.bytes[i] {
                return false;
            }
            i = i + 1;
        }
        assert(self.bytes@ =~= other.bytes@);
        true
    }
}

impl vstd::std_specs::cmp::PartialEqSpecImpl for Pubkey {
    open spec fn obeys_eq_spec() -> bool {
        true
    }

    open spec fn eq_spec(&self, other: &Pubkey) -> bool {
        self.bytes@ == other.bytes@
    }
}

impl Default for Pubkey {
    /// The all-zero address.
    fn default() -> (r: Pubkey)
        ensures
            forall|i: int| 0 <= i < 32 ==> r.bytes@[i] == 0,
    {
        Pubkey { bytes: [0u8; 32] }
    }
}

/// The persistent record of one stream.
#[derive(Clone, Copy, Debug)]
pub struct StreamConfig {
    pub sender: Pubkey,
    pub receiver: Pubkey,
    /// Units of balance drained per second.
    pub flow_rate: i64,
    /// The balance as of the last update of the record.
    pub static_balance: u64,
    /// Seconds since the epoch at which `static_balance` became valid.
    pub start_time: i64,
}

impl StreamConfig {
    /// A fresh record holding `initial_balance` from `start_time` on.
    pub fn initialize(
        sender: Pubkey,
        receiver: Pubkey,
        flow_rate: i64,
        initial_balance: u64,
        start_time: i64,
    ) -> (r: StreamConfig)
        ensures
            r == (StreamConfig {
                sender,
                receiver,
                flow_rate,
                static_balance: initial_balance,
                start_time,
            }),
    {
        StreamConfig { sender, receiver, flow_rate, static_balance: initial_balance, start_time }
    }
}

/// A request against a stream record.
#[derive(Clone, Copy, Debug, PartialEq, Eq, Structural)]
pub enum StreamInstruction {
    Initialize { flow_rate: i64, initial_balance: u64 },
    Terminate,
}

/// Why a request was refused. Every refusal leaves the stored record as it was.
#[derive(Clone, Copy, Debug, PartialEq, Eq, Structural)]
pub enum StreamError {
    /// Fewer than the three accounts `[stream, sender, receiver]` were given.
    NotEnoughAccountKeys,
    /// The stream account is not owned by the controlling program.
    IncorrectOwner,
    /// The required signature is absent.
    MissingSignature,
    /// The instruction bytes name no known request.
    MalformedInstruction,
    /// The stored bytes are not a record written by this program.
    MalformedRecord,
    /// The clock could not be read.
    ClockUnavailable,
    /// The stream account's data is too short to hold a record.
    AccountDataTooSmall,
}

} // verus!
