use crate::call::{Call, CallView, ContractCall, ContractCallView};
use crate::codec::{is_here, location_is_here};
use crate::error::Error;
use ink::xcm::v4::{Location, Xcm};
use vstd::prelude::*;

verus! {

/// What the host has to do to carry out an approved call.
#[derive(Debug, PartialEq, Eq)]
pub enum DispatchAction {
    /// Call the named contract with the selector, input, value and time
    /// limit of the call, allowing re-entry only if the call says so.
    Invoke(ContractCall),
    /// Execute the message on this chain.
    Execute(Xcm<()>),
    /// Send the message to the destination.
    Send(Location, Xcm<()>),
}

/// What a `DispatchAction` is in contracts.
pub enum DispatchActionView {
    Invoke(ContractCallView),
    Execute(Xcm<()>),
    Send(Location, Xcm<()>),
}

impl View for DispatchAction {
    type V = DispatchActionView;

    open spec fn view(&self) -> DispatchActionView {
        match self {
            DispatchAction::Invoke(call) => DispatchActionView::Invoke(call@),
            DispatchAction::Execute(msg) => DispatchActionView::Execute(*msg),
            DispatchAction::Send(dest, msg) => DispatchActionView::Send(*dest, *msg),
        }
    }
}

/// Where a decoded message goes: it is executed on this chain if that is
/// its destination, and sent to the destination otherwise.
pub open spec fn routed(dest: Location, msg: Xcm<()>, here: bool) -> DispatchActionView {
    if here {
        DispatchActionView::Execute(msg)
    } else {
        DispatchActionView::Send(dest, msg)
    }
}

/// Routes a decoded message, given whether its destination is this chain.
pub fn route(dest: Location, msg: Xcm<()>, here: bool) -> (r: DispatchAction)
    ensures
        r@ == routed(dest, msg, here),
{
    if here {
        DispatchAction::Execute(msg)
    } else {
        DispatchAction::Send(dest, msg)
    }
}

/// The action that carries out a call. A contract call is invoked as it
/// stands. A chain call is decoded first: its message is executed here if
/// the destination is this chain, and sent to the destination otherwise.
/// Bytes that do not decode are an error, the destination being read first.
pub open spec fn planned(call: CallView) -> Result<DispatchActionView, Error> {
    match call {
        CallView::Contract(call) => Ok(DispatchActionView::Invoke(call)),
        CallView::Chain(call) => match (call.destination(), call.message()) {
            (Ok(dest), Ok(msg)) => Ok(routed(dest, msg, location_is_here(dest))),
            _ => Err(Error::MalformedEncoding),
        },
    }
}

/// What `plan_dispatch` hands back, with the action taken by its view.
pub open spec fn plan_view(r: Result<DispatchAction, Error>) -> Result<DispatchActionView, Error> {
    match r {
        Ok(action) => Ok(action@),
        Err(e) => Err(e),
    }
}

/// Decides how an approved call is carried out.
pub fn plan_dispatch(call: Call) -> (r: Result<DispatchAction, Error>)
    ensures
        plan_view(r) == planned(call@),
{
    match call {
        Call::Contract(call) => Ok(DispatchAction::Invoke(call)),
        Call::Chain(call) => {
            let dest = match call.get_dest() {
                Ok(dest) => dest,
                Err(e) => {
                    return Err(e);
                },
            };
            let msg = match call.get_msg() {
                Ok(msg) => msg,
                Err(e) => {
                    return Err(e);
                },
            };
            let here = is_here(&dest);
            Ok(route(dest, msg, here))
        },
    }
}

/// What the resolver is told once the host has tried to carry out an
/// action: a failure is reported, and changes nothing in the engine.
pub fn dispatch_outcome(delivered: bool) -> (r: Result<(), Error>)
    ensures
        r == if delivered {
            Ok::<(), Error>(())
        } else {
            Err::<(), Error>(Error::DispatchFailed)
        },
{
    if delivered {
        Ok(())
    } else {
        Err(Error::DispatchFailed)
    }
}

} // verus!
