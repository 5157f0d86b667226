use crate::account::AccountId;
use crate::codec::{
    decode_location, decode_message_within, encode_location, encode_message, location_decoding,
    location_encoding, message_decoding_within, message_encoding, MESSAGE_DEPTH_LIMIT,
};
use crate::error::Error;
use ink::xcm::v4::{Location, Xcm};
use vstd::prelude::*;

verus! {

/// An amount of the chain's native balance.
pub type Balance = u128;

/// A block height: the progress counter that deadlines are measured in.
pub type BlockNumber = u32;

/// An invocation of another contract.
#[derive(Debug, PartialEq, Eq)]
pub struct ContractCall {
    /// The contract that is called.
    pub callee: AccountId,
    /// The four bytes that select the function of the callee.
    pub selector: [u8; 4],
    /// The encoded parameters handed to that function.
    pub input: Vec<u8>,
    /// The balance transferred to the callee.
    pub transferred_value: Balance,
    /// The computation time granted to the call.
    pub ref_time_limit: u64,
    /// Whether the callee may call back into the caller. Off unless asked for.
    pub allow_reentry: bool,
}

/// What a `ContractCall` is in contracts.
pub struct ContractCallView {
    pub callee: AccountId,
    pub selector: [u8; 4],
    pub input: Seq<u8>,
    pub transferred_value: Balance,
    pub ref_time_limit: u64,
    pub allow_reentry: bool,
}

impl View for ContractCall {
    type V = ContractCallView;

    open spec fn view(&self) -> ContractCallView {
        ContractCallView {
            callee: self.callee,
            selector: self.selector,
            input: self.input@,
            transferred_value: self.transferred_value,
            ref_time_limit: self.ref_time_limit,
            allow_reentry: self.allow_reentry,
        }
    }
}

impl Clone for ContractCall {
    fn clone(&self) -> (r: Self)
        ensures
            r@ == self@,
    {
        let input = self.input.clone();
        proof {
            assert(input@ =~= self.input@);
        }
        ContractCall {
            callee: self.callee,
            selector: self.selector,
            input,
            transferred_value: self.transferred_value,
            ref_time_limit: self.ref_time_limit,
            allow_reentry: self.allow_reentry,
        }
    }
}

/// A message for another chain. Only the encodings of the destination and of
/// the message are kept; the structured values are decoded on demand.
#[derive(Debug, PartialEq, Eq, Hash)]
pub struct ChainCall {
    dest: Vec<u8>,
    msg: Vec<u8>,
}

/// What a `ChainCall` is in contracts: its two byte strings.
pub struct ChainCallView {
    pub dest: Seq<u8>,
    pub msg: Seq<u8>,
}

impl View for ChainCall {
    type V = ChainCallView;

    closed spec fn view(&self) -> ChainCallView {
        ChainCallView { dest: self.dest@, msg: self.msg@ }
    }
}

impl ChainCallView {
    /// The destination that the stored bytes decode to, or the error that
    /// reading it gives.
    pub open spec fn destination(self) -> Result<Location, Error> {
        match location_decoding(self.dest) {
            Some(dest) => Ok(dest),
            None => Err(Error::MalformedEncoding),
        }
    }

    /// The message that the stored bytes decode to, or the error that
    /// reading it gives. A message nested deeper than the format allows is
    /// not read.
    pub open spec fn message(self) -> Result<Xcm<()>, Error> {
        match message_decoding_within(MESSAGE_DEPTH_LIMIT, self.msg) {
            Some(msg) => Ok(msg),
            None => Err(Error::MalformedEncoding),
        }
    }
}

impl Clone for ChainCall {
    fn clone(&self) -> (r: Self)
        ensures
            r@ == self@,
    {
        let dest = self.dest.clone();
        let msg = self.msg.clone();
        proof {
            assert(dest@ =~= self.dest@);
            assert(msg@ =~= self.msg@);
        }
        ChainCall { dest, msg }
    }
}

/// What reading stored bytes gives: the value that was read, or
/// `MalformedEncoding` where the bytes held none.
pub fn read_or_malformed<T>(decoded: Option<T>) -> (r: Result<T, Error>)
    ensures
        r == match decoded {
            Some(value) => Ok::<T, Error>(value),
            None => Err::<T, Error>(Error::MalformedEncoding),
        },
{
    match decoded {
        Some(value) => Ok(value),
        None => Err(Error::MalformedEncoding),
    }
}

impl ChainCall {
    /// Stores the encodings of a destination and of a message. The
    /// destination is read back from what is stored.
    pub fn new(dest: &Location, msg: &Xcm<()>) -> (r: Self)
        ensures
            r@.dest == location_encoding(*dest),
            r@.msg == message_encoding(*msg),
            r@.destination() == Ok::<Location, Error>(*dest),
    {
        ChainCall { dest: encode_location(dest), msg: encode_message(msg) }
    }

    /// Takes two byte strings as they are, without reading them. This is how
    /// a call that was stored or received in encoded form comes back.
    pub fn from_encoded(dest: Vec<u8>, msg: Vec<u8>) -> (r: Self)
        ensures
            r@.dest == dest@,
            r@.msg == msg@,
    {
        ChainCall { dest, msg }
    }

    /// Decodes the destination. Bytes that are no encoding of a location are
    /// reported, never replaced by a default.
    pub fn get_dest(&self) -> (r: Result<Location, Error>)
        ensures
            r == self@.destination(),
    {
        read_or_malformed(decode_location(self.dest.as_slice()))
    }

    /// Decodes the message. Bytes that are no encoding of a message, or of
    /// one nested deeper than the format allows, are reported, never
    /// replaced by a default.
    pub fn get_msg(&self) -> (r: Result<Xcm<()>, Error>)
        ensures
            r == self@.message(),
    {
        read_or_malformed(decode_message_within(MESSAGE_DEPTH_LIMIT, self.msg.as_slice()))
    }

    /// A copy of the stored destination bytes.
    pub fn get_encoded_dest(&self) -> (r: Vec<u8>)
        ensures
            r@ == self@.dest,
    {
        let r = self.dest.clone();
        proof {
            assert(r@ =~= self.dest@);
        }
        r
    }

    /// A copy of the stored message bytes.
    pub fn get_encoded_msg(&self) -> (r: Vec<u8>)
        ensures
            r@ == self@.msg,
    {
        let r = self.msg.clone();
        proof {
            assert(r@ =~= self.msg@);
        }
        r
    }
}

/// What an approved proposal triggers.
#[derive(Debug, PartialEq, Eq)]
pub enum Call {
    /// A call into another contract.
    Contract(ContractCall),
    /// A message for another chain.
    Chain(ChainCall),
}

/// What a `Call` is in contracts.
pub enum CallView {
    Contract(ContractCallView),
    Chain(ChainCallView),
}

impl View for Call {
    type V = CallView;

    open spec fn view(&self) -> CallView {
        match self {
            Call::Contract(call) => CallView::Contract(call@),
            Call::Chain(call) => CallView::Chain(call@),
        }
    }
}

impl Clone for Call {
    fn clone(&self) -> (r: Self)
        ensures
            r@ == self@,
    {
        match self {
            Call::Contract(call) => Call::Contract(call.clone()),
            Call::Chain(call) => Call::Chain(call.clone()),
        }
    }
}

/// A pending action and the height at which voting on it closes.
#[derive(Debug, PartialEq, Eq)]
pub struct Proposal {
    pub call: Call,
    pub voting_period_end: BlockNumber,
}

/// What a `Proposal` is in contracts.
pub struct ProposalView {
    pub call: CallView,
    pub voting_period_end: BlockNumber,
}

impl View for Proposal {
    type V = ProposalView;

    open spec fn view(&self) -> ProposalView {
        ProposalView { call: self.call@, voting_period_end: self.voting_period_end }
    }
}

impl Clone for Proposal {
    fn clone(&self) -> (r: Self)
        ensures
            r@ == self@,
    {
        Proposal { call: self.call.clone(), voting_period_end: self.voting_period_end }
    }
}

} // verus!
