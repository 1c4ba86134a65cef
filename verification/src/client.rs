use vstd::prelude::*;

use crate::codec;
use crate::error::FatalError;
use crate::event::{Event, EventKind};

verus! {

/// What a confirmed transaction carries besides its envelope: either a
/// contract call or data this layer has no interest in.
#[derive(Debug)]
pub enum TransactionPayload {
    /// A call of `function` on the contract deployed at `contract`, with
    /// fixed-width unsigned wire values as arguments.
    ContractCall { contract: u64, function: String, args: Vec<u64> },
    /// Any other transaction data.
    Other,
}

/// The face a confirmed ledger transaction shows to this layer: which
/// address issued it, when it was timestamped, and what it carries.
#[derive(Debug)]
pub struct ConfirmedTransaction {
    pub sender: String,
    pub timestamp: u64,
    pub payload: TransactionPayload,
}

/// The outcome of deriving domain events from one confirmed transaction
/// observed against the game contract at `contract_address`: no event for
/// transactions addressed elsewhere or calling an unrecognized function,
/// exactly one event for a well-formed game call, and a fatal error for a
/// recognized call whose arguments are malformed — emitting a best-effort
/// event there would silently misrepresent game state.
pub open spec fn derived_event(tx: ConfirmedTransaction, contract_address: u64) -> Result<
    Option<Event>,
    FatalError,
> {
    match tx.payload {
        TransactionPayload::Other => Ok(None),
        TransactionPayload::ContractCall { contract, function, args } => {
            if contract != contract_address {
                Ok(None)
            } else if function@ == "spawn_player"@ {
                if args@.len() != 2 {
                    Err(FatalError::WrongArgumentCount)
                } else if !(codec::in_wire_range(args@[0] as int) && codec::in_wire_range(
                    args@[1] as int,
                )) {
                    Err(FatalError::CoordinateOutOfRange)
                } else {
                    Ok(
                        Some(
                            Event {
                                id: tx.sender,
                                x: codec::decoded(args@[0] as int) as i32,
                                y: codec::decoded(args@[1] as int) as i32,
                                heading: 0,
                                kind: EventKind::Spawn,
                                timestamp: tx.timestamp,
                            },
                        ),
                    )
                }
            } else if function@ == "apply_input"@ {
                if args@.len() != 1 {
                    Err(FatalError::WrongArgumentCount)
                } else if args@[0] > u32::MAX {
                    Err(FatalError::HeadingCodeOutOfRange)
                } else {
                    Ok(
                        Some(
                            Event {
                                id: tx.sender,
                                x: 0,
                                y: 0,
                                heading: args@[0] as u32,
                                kind: EventKind::Input,
                                timestamp: tx.timestamp,
                            },
                        ),
                    )
                }
            } else {
                Ok(None)
            }
        },
    }
}

/// Derives the domain event, if any, that one confirmed transaction means
/// for the game contract at `contract_address`.
pub fn derive_event(tx: &ConfirmedTransaction, contract_address: u64) -> (r: Result<
    Option<Event>,
    FatalError,
>)
    ensures
        r == derived_event(*tx, contract_address),
{
    match &tx.payload {
        TransactionPayload::Other => Ok(None),
        TransactionPayload::ContractCall { contract, function, args } => {
            if *contract != contract_address {
                return Ok(None);
            }
            let spawn_name = String::from_str("spawn_player");
            let input_name = String::from_str("apply_input");
            if *function == spawn_name {
                if args.len() != 2 {
                    return Err(FatalError::WrongArgumentCount);
                }
                let x = match codec::try_decode(args[0]) {
                    Err(e) => return Err(e),
                    Ok(v) => v,
                };
                let y = match codec::try_decode(args[1]) {
                    Err(e) => return Err(e),
                    Ok(v) => v,
                };
                Ok(Some(Event::spawn(tx.sender.clone(), x, y, tx.timestamp)))
            } else if *function == input_name {
                if args.len() != 1 {
                    return Err(FatalError::WrongArgumentCount);
                }
                if args[0] > u32::MAX as u64 {
                    return Err(FatalError::HeadingCodeOutOfRange);
                }
                Ok(Some(Event::input(tx.sender.clone(), args[0] as u32, tx.timestamp)))
            } else {
                Ok(None)
            }
        },
    }
}

/// The client-side reconciliation core: it folds the confirmed-transaction
/// stream of one replica and this client's own just-confirmed actions into
/// a single event queue, in the exact order they were fed in.
pub struct Context {
    contract_address: u64,
    events: Vec<Event>,
}

impl View for Context {
    type V = Seq<Event>;

    closed spec fn view(&self) -> Seq<Event> {
        self.events@
    }
}

impl Context {
    /// The address of the game contract whose transactions are of
    /// interest; everything else in the stream is filtered out.
    pub closed spec fn spec_contract_address(&self) -> u64 {
        self.contract_address
    }

    pub fn new(contract_address: u64) -> (c: Context)
        ensures
            c.spec_contract_address() == contract_address,
            c@ == Seq::<Event>::empty(),
    {
        Context { contract_address, events: Vec::new() }
    }

    /// Feeds one transaction from the replica's confirmed stream: the
    /// derived event, if there is one, is appended behind everything
    /// already queued, so events leave in the replica's confirmed order.
    /// On a fatal derivation error nothing is appended.
    pub fn handle_transaction(&mut self, tx: &ConfirmedTransaction) -> (r: Result<(), FatalError>)
        ensures
            final(self).spec_contract_address() == old(self).spec_contract_address(),
            match derived_event(*tx, old(self).spec_contract_address()) {
                Ok(Some(e)) => r is Ok && final(self)@ == old(self)@.push(e),
                Ok(None) => r is Ok && final(self)@ == old(self)@,
                Err(e) => r == Err::<(), FatalError>(e) && final(self)@ == old(self)@,
            },
    {
        match derive_event(tx, self.contract_address) {
            Err(e) => Err(e),
            Ok(None) => Ok(()),
            Ok(Some(e)) => {
                self.events.push(e);
                Ok(())
            },
        }
    }

    /// Queues the locally predicted event for this client's own spawn the
    /// moment the ledger call returns, before the same transaction comes
    /// back through the confirmed stream. Consumers therefore see
    /// self-originated actions at least once — usually twice — and rely on
    /// the state layer's value-based idempotence.
    pub fn record_local_spawn(&mut self, id: String, x: i32, y: i32, timestamp: u64)
        ensures
            final(self).spec_contract_address() == old(self).spec_contract_address(),
            final(self)@ == old(self)@.push(
                Event { id, x, y, heading: 0, kind: EventKind::Spawn, timestamp },
            ),
    {
        let e = Event::spawn(id, x, y, timestamp);
        self.events.push(e);
    }

    /// Queues the locally predicted event for this client's own heading
    /// input, as `record_local_spawn` does for spawns.
    pub fn record_local_input(&mut self, id: String, heading: u32, timestamp: u64)
        ensures
            final(self).spec_contract_address() == old(self).spec_contract_address(),
            final(self)@ == old(self)@.push(
                Event { id, x: 0, y: 0, heading, kind: EventKind::Input, timestamp },
            ),
    {
        let e = Event::input(id, heading, timestamp);
        self.events.push(e);
    }

    /// Drains every event currently queued, oldest first. No event is
    /// dropped and none is handed out twice.
    pub fn take_events(&mut self) -> (evs: Vec<Event>)
        ensures
            final(self).spec_contract_address() == old(self).spec_contract_address(),
            evs@ == old(self)@,
            final(self)@ == Seq::<Event>::empty(),
    {
        let mut out: Vec<Event> = Vec::new();
        core::mem::swap(&mut out, &mut self.events);
        out
    }
}

/// The client-side snapshot of one player's contract state, decoded from
/// the wire values the three positional queries return.
#[derive(Debug, Clone, Copy, PartialEq, Eq, Structural)]
pub struct PlayerData {
    pub x: i32,
    pub y: i32,
    pub heading: u32,
}

impl PlayerData {
    /// Decodes the results of the `get_player_x`, `get_player_y` and
    /// `get_player_heading` queries. Values outside their domains indicate
    /// a corrupted decode path and fail fast.
    pub fn from_contract(x: u64, y: u64, heading: u64) -> (r: Result<PlayerData, FatalError>)
        ensures
            r is Ok <==> (codec::in_wire_range(x as int) && codec::in_wire_range(y as int)
                && heading <= u32::MAX),
            r matches Ok(pd) ==> pd == (PlayerData {
                x: codec::decoded(x as int) as i32,
                y: codec::decoded(y as int) as i32,
                heading: heading as u32,
            }),
            r == Err::<PlayerData, FatalError>(FatalError::CoordinateOutOfRange) <==> !(
            codec::in_wire_range(x as int) && codec::in_wire_range(y as int)),
            r == Err::<PlayerData, FatalError>(FatalError::HeadingCodeOutOfRange) <==> (
            codec::in_wire_range(x as int) && codec::in_wire_range(y as int) && heading
                > u32::MAX),
    {
        let dx = match codec::try_decode(x) {
            Err(e) => return Err(e),
            Ok(v) => v,
        };
        let dy = match codec::try_decode(y) {
            Err(e) => return Err(e),
            Ok(v) => v,
        };
        if heading > u32::MAX as u64 {
            return Err(FatalError::HeadingCodeOutOfRange);
        }
        Ok(PlayerData { x: dx, y: dy, heading: heading as u32 })
    }

    pub fn x(&self) -> (v: i32)
        ensures
            v == self.x,
    {
        self.x
    }

    pub fn y(&self) -> (v: i32)
        ensures
            v == self.y,
    {
        self.y
    }

    pub fn heading(&self) -> (v: u32)
        ensures
            v == self.heading,
    {
        self.heading
    }
}

} // verus!
