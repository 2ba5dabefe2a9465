//! Plans: the calls of other programs that carry out an operation.
//!
//! An operation decides what to call and in which order; whoever runs the plan
//! makes the calls one after the other, stops at the first that fails, and
//! ends as the plan says.

use vstd::prelude::*;

use crate::error::Error;
use crate::instruction::{built, Instruction, InstructionView};
use crate::key::Pubkey;

verus! {

/// One call of another program: the instruction, and the addresses of the
/// accounts that are handed along with it, in order.
#[derive(Debug, PartialEq, Eq)]
pub struct Cpi {
    pub instruction: Instruction,
    pub accounts: Vec<Pubkey>,
}

/// The calls of an operation, in order, and how it ends once they succeeded.
#[derive(Debug, PartialEq, Eq)]
pub struct Plan {
    pub calls: Vec<Cpi>,
    pub outcome: Result<(), Error>,
}

/// The model of a [`Cpi`].
pub struct CpiView {
    pub instruction: InstructionView,
    pub accounts: Seq<Seq<u8>>,
}

/// The model of a [`Plan`].
pub struct PlanView {
    pub calls: Seq<CpiView>,
    pub outcome: Result<(), Error>,
}

/// The model of a list of addresses.
pub open spec fn keys_of(keys: Seq<Pubkey>) -> Seq<Seq<u8>> {
    keys.map_values(|k: Pubkey| k@)
}

impl View for Cpi {
    type V = CpiView;

    open spec fn view(&self) -> CpiView {
        CpiView {
            instruction: self.instruction@,
            accounts: keys_of(self.accounts@),
        }
    }
}

impl View for Plan {
    type V = PlanView;

    open spec fn view(&self) -> PlanView {
        PlanView { calls: self.calls@.map_values(|c: Cpi| c@), outcome: self.outcome }
    }
}

/// The model of a step: the call that it makes, or the error that ends the
/// operation there.
pub open spec fn step(r: Result<Cpi, Error>) -> Result<CpiView, Error> {
    match r {
        Ok(c) => Ok(c@),
        Err(e) => Err(e),
    }
}

/// The model of a list of steps.
pub open spec fn steps_of(steps: Seq<Result<Cpi, Error>>) -> Seq<Result<CpiView, Error>> {
    steps.map_values(|s: Result<Cpi, Error>| step(s))
}

/// A call with the accounts handed along, if its instruction could be built.
pub open spec fn call_with(
    instruction: Result<InstructionView, u64>,
    accounts: Seq<Seq<u8>>,
) -> Result<CpiView, Error> {
    match instruction {
        Ok(instruction) => Ok(CpiView { instruction, accounts }),
        Err(code) => Err(Error::Program(code)),
    }
}

/// The plan of an operation that is refused before it calls anything.
pub open spec fn refused(error: Error) -> PlanView {
    PlanView { calls: seq![], outcome: Err(error) }
}

/// A call that is only made if the accounts are taken.
pub open spec fn call_if(
    validity: Result<(), Error>,
    call: Result<CpiView, Error>,
) -> Result<CpiView, Error> {
    match validity {
        Ok(_) => call,
        Err(error) => Err(error),
    }
}

/// A plan that is only followed if the accounts are taken.
pub open spec fn plan_if(validity: Result<(), Error>, plan: PlanView) -> PlanView {
    match validity {
        Ok(_) => plan,
        Err(error) => refused(error),
    }
}

impl PlanView {
    /// The plan that goes on with one more step. Nothing follows an error.
    pub open spec fn and(self, next: Result<CpiView, Error>) -> PlanView {
        match (self.outcome, next) {
            (Err(_), _) => self,
            (Ok(_), Ok(call)) => PlanView { calls: self.calls.push(call), outcome: Ok(()) },
            (Ok(_), Err(error)) => PlanView { calls: self.calls, outcome: Err(error) },
        }
    }
}

/// The plan that takes the steps in order, up to the first that is an error.
pub open spec fn plan_of(steps: Seq<Result<CpiView, Error>>) -> PlanView
    decreases steps.len(),
{
    if steps.len() == 0 {
        PlanView { calls: seq![], outcome: Ok(()) }
    } else {
        plan_of(steps.drop_last()).and(steps.last())
    }
}

/// The calls of a plan are its steps up to the first that is an error, and it
/// ends with that error; a plan without such a step takes all of them.
pub proof fn plan_stops_at_first_error(steps: Seq<Result<CpiView, Error>>)
    ensures
        plan_of(steps).calls.len() <= steps.len(),
        forall|i: int|
            #![trigger steps[i]]
            #![trigger plan_of(steps).calls[i]]
            0 <= i < plan_of(steps).calls.len() ==> steps[i] == Ok::<CpiView, Error>(
                plan_of(steps).calls[i],
            ),
        match plan_of(steps).outcome {
            Ok(_) => plan_of(steps).calls.len() == steps.len(),
            Err(error) => plan_of(steps).calls.len() < steps.len()
                && steps[plan_of(steps).calls.len() as int] == Err::<CpiView, Error>(error),
        },
    decreases steps.len(),
{
    if steps.len() > 0 {
        let before = steps.drop_last();
        plan_stops_at_first_error(before);
        assert forall|i: int| 0 <= i < plan_of(steps).calls.len() implies steps[i] == Ok::<
            CpiView,
            Error,
        >(plan_of(steps).calls[i]) by {
            assert(i < before.len() ==> steps[i] == before[i]);
        }
    }
}

/// One address as a list.
pub(crate) fn one(only: &Pubkey) -> (r: Vec<Pubkey>)
    ensures
        keys_of(r@) == seq![only@],
{
    let r = vec![*only];
    assert(keys_of(r@) =~= seq![only@]);
    r
}

/// Two addresses as a list.
pub(crate) fn two(first: &Pubkey, second: &Pubkey) -> (r: Vec<Pubkey>)
    ensures
        keys_of(r@) == seq![first@, second@],
{
    let r = vec![*first, *second];
    assert(keys_of(r@) =~= seq![first@, second@]);
    r
}

/// Three addresses as a list.
pub(crate) fn three(first: &Pubkey, second: &Pubkey, third: &Pubkey) -> (r: Vec<Pubkey>)
    ensures
        keys_of(r@) == seq![first@, second@, third@],
{
    let r = vec![*first, *second, *third];
    assert(keys_of(r@) =~= seq![first@, second@, third@]);
    r
}

/// Four addresses as a list.
pub(crate) fn four(
    first: &Pubkey,
    second: &Pubkey,
    third: &Pubkey,
    fourth: &Pubkey,
) -> (r: Vec<Pubkey>)
    ensures
        keys_of(r@) == seq![first@, second@, third@, fourth@],
{
    let r = vec![*first, *second, *third, *fourth];
    assert(keys_of(r@) =~= seq![first@, second@, third@, fourth@]);
    r
}

/// Five addresses as a list.
pub(crate) fn five(
    first: &Pubkey,
    second: &Pubkey,
    third: &Pubkey,
    fourth: &Pubkey,
    fifth: &Pubkey,
) -> (r: Vec<Pubkey>)
    ensures
        keys_of(r@) == seq![first@, second@, third@, fourth@, fifth@],
{
    let r = vec![*first, *second, *third, *fourth, *fifth];
    assert(keys_of(r@) =~= seq![first@, second@, third@, fourth@, fifth@]);
    r
}

impl Cpi {
    /// A call with the accounts handed along, if its instruction could be
    /// built.
    pub fn new(
        instruction: Result<Instruction, u64>,
        accounts: Vec<Pubkey>,
    ) -> (r: Result<Cpi, Error>)
        ensures
            step(r) == call_with(built(instruction), keys_of(accounts@)),
    {
        match instruction {
            Ok(instruction) => Ok(Cpi { instruction, accounts }),
            Err(code) => Err(Error::Program(code)),
        }
    }
}

impl Plan {
    /// The plan of an operation that is refused before it calls anything.
    pub fn refused(error: Error) -> (r: Plan)
        ensures
            r@ == refused(error),
    {
        let r = Plan { calls: Vec::new(), outcome: Err(error) };
        assert(r@.calls =~= seq![]);
        r
    }

    /// The plan that takes the steps in order, up to the first that is an
    /// error.
    pub fn of(steps: Vec<Result<Cpi, Error>>) -> (r: Plan)
        ensures
            r@ == plan_of(steps_of(steps@)),
    {
        let ghost all = steps_of(steps@);
        let mut r = Plan { calls: Vec::new(), outcome: Ok(()) };
        assert(r@.calls =~= seq![]);
        assert(all.take(0) =~= seq![]);
        for s in iter: steps
            invariant
                all == steps_of(iter.seq()),
                r@ == plan_of(all.take(iter.index())),
        {
            let ghost before = r@;
            assert(all.take(iter.index() + 1).drop_last() =~= all.take(iter.index()));
            assert(all.take(iter.index() + 1).last() == step(s));
            if r.outcome.is_ok() {
                match s {
                    Ok(call) => {
                        r.calls.push(call);
                        assert(r@.calls =~= before.calls.push(call@));
                    },
                    Err(error) => {
                        r.outcome = Err(error);
                    },
                }
            }
        }
        assert(all.take(all.len() as int) =~= all);
        r
    }
}

} // verus!
