//! Saving and updating a charge: one insert, or one read and one
//! conditional write on the status.

use vstd::prelude::*;

use crate::charge::{
    Charge, ChargeUpdate, ChargeUpdateView, ChargeView, CHARGE_FAILED, CHARGE_WINDOW_MS,
};
use crate::error::Error;
use crate::id::Id;
use crate::store::{MemStore, Reply, ReplyView, Request, RequestView, StoreView, request_view};

verus! {

/// Where the saving or the updating of a charge stands.
#[derive(Clone, Copy, Debug)]
pub enum ChargePhase {
    /// The insertion of the new charge was asked for.
    Inserting,
    /// The stored charge was asked for.
    Reading,
    /// The conditional write was asked for.
    Writing,
    /// The charge is saved or updated.
    Succeeded,
    /// The operation gave up.
    Failed(Error),
}

/// The saving or the updating of one charge.
#[derive(Debug)]
pub struct ChargeMachine {
    pub phase: ChargePhase,
    /// The charge as far as it is known.
    pub charge: Charge,
    /// The columns to write, for an update.
    pub changes: ChargeUpdate,
    /// The status that the stored charge must have, for an update.
    pub expected: i8,
    /// The time of the operation, in milliseconds.
    pub now: i64,
}

pub ghost struct ChargeFlowView {
    pub phase: ChargePhase,
    pub charge: ChargeView,
    pub changes: ChargeUpdateView,
    pub expected: int,
    pub now: int,
}

impl View for ChargeMachine {
    type V = ChargeFlowView;

    open spec fn view(&self) -> ChargeFlowView {
        ChargeFlowView {
            phase: self.phase,
            charge: self.charge@,
            changes: self.changes@,
            expected: self.expected as int,
            now: self.now as int,
        }
    }
}

impl ChargeFlowView {
    pub open spec fn fail(self, e: Error) -> (ChargeFlowView, Option<RequestView>) {
        (ChargeFlowView { phase: ChargePhase::Failed(e), ..self }, None)
    }

    /// The saving of a new charge at its start, and its request. A new
    /// charge is initialized or awaits the provider; it gets the given
    /// identifier, the time as its last update, and a day to run.
    pub open spec fn spec_start_save(charge: ChargeView, id: Id, now: int) -> (
        ChargeFlowView,
        Option<RequestView>,
    ) {
        let m = ChargeFlowView {
            phase: ChargePhase::Inserting,
            charge,
            changes: ChargeUpdateView::none(),
            expected: charge.status,
            now,
        };
        if charge.status != 0 && charge.status != 1 {
            m.fail(Error::InvalidArgument)
        } else if now + CHARGE_WINDOW_MS > i64::MAX {
            m.fail(Error::Overflow)
        } else {
            let c = ChargeView { id, updated_at: now, expire_at: now + CHARGE_WINDOW_MS, ..charge };
            (ChargeFlowView { charge: c, ..m }, Some(RequestView::InsertCharge { charge: c }))
        }
    }

    /// The updating of a charge at its start, and its first request. No
    /// update sets the status that is kept for failures.
    pub open spec fn spec_start_update(
        charge: ChargeView,
        changes: ChargeUpdateView,
        expected: int,
        now: int,
    ) -> (ChargeFlowView, Option<RequestView>) {
        let m = ChargeFlowView { phase: ChargePhase::Reading, charge, changes, expected, now };
        if changes.status == Some(CHARGE_FAILED as int) {
            m.fail(Error::InvalidArgument)
        } else {
            (m, Some(RequestView::GetCharge { uid: charge.uid, id: charge.id }))
        }
    }

    /// The operation after an answer, and its next request if it goes on.
    /// An update is written only where the stored status is the expected
    /// one, when it is read and again when it is written.
    pub open spec fn spec_step(self, reply: ReplyView) -> (ChargeFlowView, Option<RequestView>) {
        match self.phase {
            ChargePhase::Inserting => match reply {
                ReplyView::Applied(applied) => if applied {
                    (ChargeFlowView { phase: ChargePhase::Succeeded, ..self }, None)
                } else {
                    self.fail(Error::StatusConflict)
                },
                _ => self.fail(Error::StoreUnavailable),
            },
            ChargePhase::Reading => match reply {
                ReplyView::Charge(c) => {
                    let m = ChargeFlowView { charge: c, ..self };
                    if c.uid != self.charge.uid || c.id != self.charge.id {
                        self.fail(Error::StoreUnavailable)
                    } else if c.status != self.expected {
                        m.fail(Error::StatusConflict)
                    } else {
                        (
                            ChargeFlowView { phase: ChargePhase::Writing, ..m },
                            Some(
                                RequestView::UpdateCharge {
                                    uid: c.uid,
                                    id: c.id,
                                    expected_status: self.expected,
                                    changes: self.changes,
                                    updated_at: self.now,
                                },
                            ),
                        )
                    }
                },
                ReplyView::NotFound => self.fail(Error::NotFound),
                _ => self.fail(Error::StoreUnavailable),
            },
            ChargePhase::Writing => match reply {
                ReplyView::Applied(applied) => if applied {
                    (
                        ChargeFlowView {
                            phase: ChargePhase::Succeeded,
                            charge: self.charge.updated(self.changes, self.now),
                            ..self
                        },
                        None,
                    )
                } else {
                    self.fail(Error::StatusConflict)
                },
                _ => self.fail(Error::StoreUnavailable),
            },
            _ => (self, None),
        }
    }

    /// How the operation ended.
    pub open spec fn outcome(self) -> Result<(), Error> {
        match self.phase {
            ChargePhase::Succeeded => Ok(()),
            ChargePhase::Failed(e) => Err(e),
            _ => Err(Error::StoreUnavailable),
        }
    }
}

/// The store and the operation after the store has answered, one after the
/// other, up to `fuel` requests, with nobody else writing.
pub open spec fn charge_run(
    store: StoreView,
    m: ChargeFlowView,
    request: Option<RequestView>,
    fuel: nat,
) -> (StoreView, ChargeFlowView)
    decreases fuel,
{
    if request is None || fuel == 0 {
        (store, m)
    } else {
        let answered = store.apply(request->0);
        let stepped = m.spec_step(answered.1);
        charge_run(answered.0, stepped.0, stepped.1, (fuel - 1) as nat)
    }
}

/// More requests than a saving or an updating ever makes.
pub const CHARGE_FUEL: u8 = 4;

/// The store, the charge and the result after the saving of a new charge
/// on a store that nobody else writes to.
pub open spec fn spec_save_charge(store: StoreView, charge: ChargeView, id: Id, now: int) -> (
    StoreView,
    ChargeView,
    Result<(), Error>,
) {
    let started = ChargeFlowView::spec_start_save(charge, id, now);
    let ended = charge_run(store, started.0, started.1, CHARGE_FUEL as nat);
    (ended.0, ended.1.charge, ended.1.outcome())
}

/// The store, the charge and the result after an update on a store that
/// nobody else writes to.
pub open spec fn spec_update_charge(
    store: StoreView,
    charge: ChargeView,
    changes: ChargeUpdateView,
    expected: int,
    now: int,
) -> (StoreView, ChargeView, Result<(), Error>) {
    let started = ChargeFlowView::spec_start_update(charge, changes, expected, now);
    let ended = charge_run(store, started.0, started.1, CHARGE_FUEL as nat);
    (ended.0, ended.1.charge, ended.1.outcome())
}

impl ChargeMachine {
    /// Begins the saving of a new charge under the identifier `id` at the
    /// time `now`.
    pub fn start_save(charge: Charge, id: Id, now: i64) -> (r: (ChargeMachine, Option<Request>))
        ensures
            (r.0@, request_view(r.1)) == ChargeFlowView::spec_start_save(charge@, id, now as int),
    {
        let expected: i8 = charge.status;
        let mut m = ChargeMachine {
            phase: ChargePhase::Inserting,
            charge,
            changes: ChargeUpdate::default(),
            expected,
            now,
        };
        if m.charge.status != 0 && m.charge.status != 1 {
            m.phase = ChargePhase::Failed(Error::InvalidArgument);
            return (m, None);
        }
        if now > i64::MAX - CHARGE_WINDOW_MS {
            m.phase = ChargePhase::Failed(Error::Overflow);
            return (m, None);
        }
        m.charge.id = id;
        m.charge.updated_at = now;
        m.charge.expire_at = now + CHARGE_WINDOW_MS;
        let request = Request::InsertCharge { charge: m.charge.clone() };
        (m, Some(request))
    }

    /// Begins the update of the charge with the key of `charge`: the
    /// columns in `changes` are written at the time `now` if the stored
    /// status is `expected`.
    pub fn start_update(charge: Charge, changes: ChargeUpdate, expected: i8, now: i64) -> (r: (
        ChargeMachine,
        Option<Request>,
    ))
        ensures
            (r.0@, request_view(r.1)) == ChargeFlowView::spec_start_update(
                charge@,
                changes@,
                expected as int,
                now as int,
            ),
    {
        let request = Request::GetCharge { uid: charge.uid, id: charge.id };
        let refused: bool = match changes.status {
            Some(s) => s == CHARGE_FAILED,
            None => false,
        };
        let mut m = ChargeMachine { phase: ChargePhase::Reading, charge, changes, expected, now };
        if refused {
            m.phase = ChargePhase::Failed(Error::InvalidArgument);
            return (m, None);
        }
        (m, Some(request))
    }

    fn give_up(&mut self, e: Error) -> (next: Option<Request>)
        ensures
            (final(self)@, request_view(next)) == old(self)@.fail(e),
    {
        self.phase = ChargePhase::Failed(e);
        None
    }

    /// Takes the store's answer to the last request and says what to ask
    /// next; `None` once the operation has ended.
    pub fn step(&mut self, reply: Reply) -> (next: Option<Request>)
        ensures
            (final(self)@, request_view(next)) == old(self)@.spec_step(reply@),
    {
        match self.phase {
            ChargePhase::Inserting => match reply {
                Reply::Applied(applied) => {
                    if applied {
                        self.phase = ChargePhase::Succeeded;
                        None
                    } else {
                        self.give_up(Error::StatusConflict)
                    }
                },
                _ => self.give_up(Error::StoreUnavailable),
            },
            ChargePhase::Reading => match reply {
                Reply::Charge(c) => {
                    if c.uid != self.charge.uid || c.id != self.charge.id {
                        return self.give_up(Error::StoreUnavailable);
                    }
                    self.charge = c;
                    if self.charge.status != self.expected {
                        return self.give_up(Error::StatusConflict);
                    }
                    self.phase = ChargePhase::Writing;
                    Some(
                        Request::UpdateCharge {
                            uid: self.charge.uid,
                            id: self.charge.id,
                            expected_status: self.expected,
                            changes: self.changes.clone(),
                            updated_at: self.now,
                        },
                    )
                },
                Reply::NotFound => self.give_up(Error::NotFound),
                _ => self.give_up(Error::StoreUnavailable),
            },
            ChargePhase::Writing => match reply {
                Reply::Applied(applied) => {
                    if applied {
                        let changes: ChargeUpdate = self.changes.clone();
                        self.charge.fill(changes, self.now);
                        self.phase = ChargePhase::Succeeded;
                        None
                    } else {
                        self.give_up(Error::StatusConflict)
                    }
                },
                _ => self.give_up(Error::StoreUnavailable),
            },
            _ => None,
        }
    }

    /// How the operation ended.
    pub fn outcome(&self) -> (r: Result<(), Error>)
        ensures
            r == self@.outcome(),
    {
        match self.phase {
            ChargePhase::Succeeded => Ok(()),
            ChargePhase::Failed(e) => Err(e),
            _ => Err(Error::StoreUnavailable),
        }
    }

    fn run(&mut self, db: &mut MemStore, first: Option<Request>)
        requires
            old(db).wf(),
        ensures
            final(db).wf(),
            (final(db)@, final(self)@) == charge_run(
                old(db)@,
                old(self)@,
                request_view(first),
                CHARGE_FUEL as nat,
            ),
    {
        let mut request: Option<Request> = first;
        let mut fuel: u8 = CHARGE_FUEL;
        while fuel > 0 && request.is_some()
            invariant
                db.wf(),
                charge_run(db@, self@, request_view(request), fuel as nat) == charge_run(
                    old(db)@,
                    old(self)@,
                    request_view(first),
                    CHARGE_FUEL as nat,
                ),
            decreases fuel,
        {
            let reply: Reply = db.execute(request.unwrap());
            request = self.step(reply);
            fuel = fuel - 1;
        }
    }
}

impl Charge {
    /// Saves this charge as a new one on a store in memory, under the
    /// identifier `id` and at the time `now`.
    pub fn save_as(&mut self, db: &mut MemStore, id: Id, now: i64) -> (r: Result<bool, Error>)
        requires
            old(db).wf(),
        ensures
            final(db).wf(),
            ({
                let s = spec_save_charge(old(db)@, old(self)@, id, now as int);
                &&& final(db)@ == s.0
                &&& final(self)@ == s.1
                &&& match r {
                    Ok(applied) => applied && s.2 is Ok,
                    Err(e) => s.2 == Err::<(), Error>(e),
                }
            }),
    {
        let started = ChargeMachine::start_save(self.clone(), id, now);
        let mut m: ChargeMachine = started.0;
        m.run(db, started.1);
        let r = m.outcome();
        *self = m.charge;
        match r {
            Ok(_) => Ok(true),
            Err(e) => Err(e),
        }
    }

    /// Saves this charge as a new one on a store in memory, under a fresh
    /// identifier from the generator and at the time `now`.
    pub fn save(&mut self, db: &mut MemStore, now: i64) -> (r: Result<bool, Error>)
        requires
            old(db).wf(),
        ensures
            final(db).wf(),
            exists|id: Id|
                {
                    let s = #[trigger] spec_save_charge(old(db)@, old(self)@, id, now as int);
                    &&& final(db)@ == s.0
                    &&& final(self)@ == s.1
                    &&& match r {
                        Ok(applied) => applied && s.2 is Ok,
                        Err(e) => s.2 == Err::<(), Error>(e),
                    }
                },
    {
        let id: Id = Id::new();
        self.save_as(db, id, now)
    }

    /// Updates the stored charge with this charge's key on a store in
    /// memory: writes the columns in `changes` at the time `now` if the
    /// stored status is `status`.
    pub fn update(&mut self, db: &mut MemStore, changes: ChargeUpdate, status: i8, now: i64) -> (r:
        Result<bool, Error>)
        requires
            old(db).wf(),
        ensures
            final(db).wf(),
            ({
                let s = spec_update_charge(
                    old(db)@,
                    old(self)@,
                    changes@,
                    status as int,
                    now as int,
                );
                &&& final(db)@ == s.0
                &&& final(self)@ == s.1
                &&& match r {
                    Ok(applied) => applied && s.2 is Ok,
                    Err(e) => s.2 == Err::<(), Error>(e),
                }
            }),
    {
        let started = ChargeMachine::start_update(self.clone(), changes, status, now);
        let mut m: ChargeMachine = started.0;
        m.run(db, started.1);
        let r = m.outcome();
        *self = m.charge;
        match r {
            Ok(_) => Ok(true),
            Err(e) => Err(e),
        }
    }
}

} // verus!
