//! Appending to the credit log: the entry is inserted once, and the
//! wallet's counter is raised by its amount through a conditional write.

use vstd::prelude::*;

use crate::credit::{Credit, CreditKind, CreditView};
use crate::error::Error;
use crate::id::sys_id;
use crate::mac::HMacTag;
use crate::store::{MemStore, Reply, ReplyView, Request, RequestView, StoreView, request_view};
use crate::task::MAX_ATTEMPTS;

verus! {

/// Where the saving of a credit entry stands.
#[derive(Clone, Copy, Debug)]
pub enum CreditPhase {
    /// The user's wallet was asked for.
    Reading,
    /// The insertion of the entry was asked for.
    Inserting,
    /// The wallet was asked for again, to raise its counter.
    BumpReading,
    /// The conditional write of the counter was asked for.
    BumpWriting,
    /// The entry is saved, was saved before, or needs no saving.
    Succeeded,
    /// The saving gave up.
    Failed(Error),
}

/// The saving of one credit entry.
#[derive(Debug)]
pub struct CreditMachine {
    pub phase: CreditPhase,
    pub credit: Credit,
    /// How many times the raising of the counter started over after a
    /// conditional write that did not apply.
    pub attempts: u8,
}

pub ghost struct CreditSaveView {
    pub phase: CreditPhase,
    pub credit: CreditView,
    pub attempts: u8,
}

impl View for CreditMachine {
    type V = CreditSaveView;

    open spec fn view(&self) -> CreditSaveView {
        CreditSaveView { phase: self.phase, credit: self.credit@, attempts: self.attempts }
    }
}

impl CreditSaveView {
    pub open spec fn fail(self, e: Error) -> (CreditSaveView, Option<RequestView>) {
        (CreditSaveView { phase: CreditPhase::Failed(e), ..self }, None)
    }

    pub open spec fn succeed(self) -> (CreditSaveView, Option<RequestView>) {
        (CreditSaveView { phase: CreditPhase::Succeeded, ..self }, None)
    }

    pub open spec fn wallet_request(self) -> Option<RequestView> {
        Some(RequestView::GetWallet { uid: self.credit.uid })
    }

    /// Whether the entry is an award, the kind that starts a user's
    /// counter. Only the name of the kind itself counts: an entry under a
    /// name that older rows carry starts no counter.
    pub open spec fn is_award(self) -> bool {
        self.credit.kind == CreditKind::Award.name()
    }

    /// The saving at its start, and its first request. An amount that is
    /// not positive is refused; an entry for the system needs no saving.
    pub open spec fn spec_start(credit: CreditView) -> (CreditSaveView, Option<RequestView>) {
        let m = CreditSaveView { phase: CreditPhase::Reading, credit, attempts: 0 };
        if credit.amount <= 0 {
            m.fail(Error::InvalidArgument)
        } else if credit.uid == sys_id() {
            m.succeed()
        } else {
            (m, m.wallet_request())
        }
    }

    /// The saving after an answer, and its next request if it goes on. A
    /// user whose counter was never started gets no entry but an award. An
    /// entry that is stored already is left as it is and counts as saved.
    pub open spec fn spec_step(self, reply: ReplyView) -> (CreditSaveView, Option<RequestView>) {
        match self.phase {
            CreditPhase::Reading => match reply {
                ReplyView::Wallet(w) => if w.credits == 0 && !self.is_award() {
                    self.succeed()
                } else {
                    (
                        CreditSaveView { phase: CreditPhase::Inserting, ..self },
                        Some(RequestView::InsertCredit { credit: self.credit }),
                    )
                },
                ReplyView::NotFound => self.fail(Error::NotFound),
                _ => self.fail(Error::StoreUnavailable),
            },
            CreditPhase::Inserting => match reply {
                ReplyView::Applied(applied) => if applied {
                    (
                        CreditSaveView { phase: CreditPhase::BumpReading, ..self },
                        self.wallet_request(),
                    )
                } else {
                    self.succeed()
                },
                _ => self.fail(Error::StoreUnavailable),
            },
            CreditPhase::BumpReading => match reply {
                ReplyView::Wallet(w) => if w.credits + self.credit.amount > i64::MAX || w.credits
                    + self.credit.amount < i64::MIN {
                    self.fail(Error::Overflow)
                } else {
                    (
                        CreditSaveView { phase: CreditPhase::BumpWriting, ..self },
                        Some(
                            RequestView::UpdateCredits {
                                uid: self.credit.uid,
                                credits: w.credits + self.credit.amount,
                                expected: w.credits,
                            },
                        ),
                    )
                },
                ReplyView::NotFound => self.fail(Error::NotFound),
                _ => self.fail(Error::StoreUnavailable),
            },
            CreditPhase::BumpWriting => match reply {
                ReplyView::Applied(applied) => if applied {
                    self.succeed()
                } else if self.attempts + 1 < MAX_ATTEMPTS {
                    (
                        CreditSaveView {
                            phase: CreditPhase::BumpReading,
                            attempts: (self.attempts + 1) as u8,
                            ..self
                        },
                        self.wallet_request(),
                    )
                } else {
                    self.fail(Error::Contention)
                },
                _ => self.fail(Error::StoreUnavailable),
            },
            _ => (self, None),
        }
    }

    /// How the saving ended.
    pub open spec fn outcome(self) -> Result<(), Error> {
        match self.phase {
            CreditPhase::Succeeded => Ok(()),
            CreditPhase::Failed(e) => Err(e),
            _ => Err(Error::StoreUnavailable),
        }
    }
}

/// The store and the saving after the store has answered, one after the
/// other, up to `fuel` requests, with nobody else writing.
pub open spec fn credit_run(
    store: StoreView,
    m: CreditSaveView,
    request: Option<RequestView>,
    fuel: nat,
) -> (StoreView, CreditSaveView)
    decreases fuel,
{
    if request is None || fuel == 0 {
        (store, m)
    } else {
        let answered = store.apply(request->0);
        let stepped = m.spec_step(answered.1);
        credit_run(answered.0, stepped.0, stepped.1, (fuel - 1) as nat)
    }
}

/// More requests than a saving ever makes.
pub const CREDIT_FUEL: u8 = 16;

/// The store and the result after a whole saving on a store that nobody
/// else writes to.
pub open spec fn spec_save(store: StoreView, credit: CreditView) -> (StoreView, Result<(), Error>) {
    let started = CreditSaveView::spec_start(credit);
    let ended = credit_run(store, started.0, started.1, CREDIT_FUEL as nat);
    (ended.0, ended.1.outcome())
}

/// The store after the entries are saved one after the other, and the
/// failures among them, in order.
pub open spec fn spec_save_all(store: StoreView, credits: Seq<CreditView>) -> (
    StoreView,
    Seq<Error>,
)
    decreases credits.len(),
{
    if credits.len() == 0 {
        (store, Seq::empty())
    } else {
        let before = spec_save_all(store, credits.drop_last());
        let saved = spec_save(before.0, credits.last());
        (
            saved.0,
            match saved.1 {
                Ok(_) => before.1,
                Err(e) => before.1.push(e),
            },
        )
    }
}

impl CreditMachine {
    /// Begins the saving of an entry.
    pub fn start(credit: Credit) -> (r: (CreditMachine, Option<Request>))
        ensures
            (r.0@, request_view(r.1)) == CreditSaveView::spec_start(credit@),
    {
        let mut m = CreditMachine { phase: CreditPhase::Reading, credit, attempts: 0 };
        if m.credit.amount <= 0 {
            m.phase = CreditPhase::Failed(Error::InvalidArgument);
            return (m, None);
        }
        if m.credit.uid.is_zero() {
            m.phase = CreditPhase::Succeeded;
            return (m, None);
        }
        let request = Request::GetWallet { uid: m.credit.uid };
        (m, Some(request))
    }

    fn give_up(&mut self, e: Error) -> (next: Option<Request>)
        ensures
            (final(self)@, request_view(next)) == old(self)@.fail(e),
    {
        self.phase = CreditPhase::Failed(e);
        None
    }

    fn succeed(&mut self) -> (next: Option<Request>)
        ensures
            (final(self)@, request_view(next)) == old(self)@.succeed(),
    {
        self.phase = CreditPhase::Succeeded;
        None
    }

    fn is_award(&self) -> (r: bool)
        ensures
            r == self@.is_award(),
    {
        self.credit.kind == CreditKind::Award.to_string()
    }

    /// Takes the store's answer to the last request and says what to ask
    /// next; `None` once the saving has ended.
    pub fn step(&mut self, reply: Reply) -> (next: Option<Request>)
        ensures
            (final(self)@, request_view(next)) == old(self)@.spec_step(reply@),
    {
        match self.phase {
            CreditPhase::Reading => match reply {
                Reply::Wallet(w) => {
                    if w.credits == 0 && !self.is_award() {
                        self.succeed()
                    } else {
                        self.phase = CreditPhase::Inserting;
                        Some(Request::InsertCredit { credit: self.credit.clone() })
                    }
                },
                Reply::NotFound => self.give_up(Error::NotFound),
                _ => self.give_up(Error::StoreUnavailable),
            },
            CreditPhase::Inserting => match reply {
                Reply::Applied(applied) => {
                    if applied {
                        self.phase = CreditPhase::BumpReading;
                        Some(Request::GetWallet { uid: self.credit.uid })
                    } else {
                        self.succeed()
                    }
                },
                _ => self.give_up(Error::StoreUnavailable),
            },
            CreditPhase::BumpReading => match reply {
                Reply::Wallet(w) => {
                    let sum: i128 = w.credits as i128 + self.credit.amount as i128;
                    if sum > i64::MAX as i128 || sum < i64::MIN as i128 {
                        self.give_up(Error::Overflow)
                    } else {
                        self.phase = CreditPhase::BumpWriting;
                        Some(
                            Request::UpdateCredits {
                                uid: self.credit.uid,
                                credits: sum as i64,
                                expected: w.credits,
                            },
                        )
                    }
                },
                Reply::NotFound => self.give_up(Error::NotFound),
                _ => self.give_up(Error::StoreUnavailable),
            },
            CreditPhase::BumpWriting => match reply {
                Reply::Applied(applied) => {
                    if applied {
                        self.succeed()
                    } else if self.attempts < MAX_ATTEMPTS - 1 {
                        self.attempts = self.attempts + 1;
                        self.phase = CreditPhase::BumpReading;
                        Some(Request::GetWallet { uid: self.credit.uid })
                    } else {
                        self.give_up(Error::Contention)
                    }
                },
                _ => self.give_up(Error::StoreUnavailable),
            },
            _ => None,
        }
    }

    /// How the saving ended.
    pub fn outcome(&self) -> (r: Result<(), Error>)
        ensures
            r == self@.outcome(),
    {
        match self.phase {
            CreditPhase::Succeeded => Ok(()),
            CreditPhase::Failed(e) => Err(e),
            _ => Err(Error::StoreUnavailable),
        }
    }
}

impl Credit {
    /// Saves the entry on a store in memory: the whole saving, request by
    /// request.
    pub fn save(&mut self, db: &mut MemStore) -> (r: Result<(), Error>)
        requires
            old(db).wf(),
        ensures
            final(db).wf(),
            final(self)@ == old(self)@,
            (final(db)@, r) == spec_save(old(db)@, old(self)@),
    {
        let started = CreditMachine::start(self.clone());
        let mut m: CreditMachine = started.0;
        let mut request: Option<Request> = started.1;
        let mut fuel: u8 = CREDIT_FUEL;
        while fuel > 0 && request.is_some()
            invariant
                db.wf(),
                credit_run(db@, m@, request_view(request), fuel as nat) == credit_run(
                    old(db)@,
                    started.0@,
                    request_view(started.1),
                    CREDIT_FUEL as nat,
                ),
            decreases fuel,
        {
            let reply: Reply = db.execute(request.unwrap());
            request = m.step(reply);
            fuel = fuel - 1;
        }
        m.outcome()
    }

    /// Saves the entries on a store in memory, one after the other, each
    /// whether or not another failed, and reports the failures in order.
    pub fn save_all(db: &mut MemStore, credits: &mut Vec<Credit>) -> (r: Result<(), Vec<Error>>)
        requires
            old(db).wf(),
        ensures
            final(db).wf(),
            crate::transaction::credit_views(final(credits)@) == crate::transaction::credit_views(
                old(credits)@,
            ),
            ({
                let all = spec_save_all(old(db)@, crate::transaction::credit_views(old(credits)@));
                &&& final(db)@ == all.0
                &&& match r {
                    Ok(_) => all.1.len() == 0,
                    Err(errors) => errors@ == all.1 && errors@.len() > 0,
                }
            }),
    {
        let ghost views = crate::transaction::credit_views(credits@);
        let mut errors: Vec<Error> = Vec::new();
        let n: usize = credits.len();
        let mut i: usize = 0;
        assert(views.subrange(0, 0) =~= Seq::<CreditView>::empty());
        while i < n
            invariant
                db.wf(),
                i <= n,
                n == credits@.len(),
                crate::transaction::credit_views(credits@) == views,
                (db@, errors@) == spec_save_all(old(db)@, views.subrange(0, i as int)),
            decreases n - i,
        {
            let mut c: Credit = credits[i].clone();
            let r = c.save(db);
            proof {
                let upto = views.subrange(0, i + 1);
                assert(upto.drop_last() =~= views.subrange(0, i as int));
                assert(upto.last() == views[i as int]);
            }
            match r {
                Ok(_) => {},
                Err(e) => {
                    errors.push(e);
                },
            }
            i += 1;
        }
        assert(views.subrange(0, n as int) =~= views);
        if errors.len() == 0 {
            Ok(())
        } else {
            Err(errors)
        }
    }
}

} // verus!
