//! The event actor: the single owner of the store, which handles events one
//! at a time in the order they arrive. A failing event does not stop it.
use crate::database::{db_wf, DbError, DbView, MemoryDbClient};
use crate::handlers::{handle_event, on_event, result_view, Action, ActionView, BorsEvent};
use vstd::prelude::*;

verus! {

/// The store after handling `events` in order, starting from `v`.
pub open spec fn run_state(v: DbView, prefix: Seq<char>, bot_name: Seq<char>, events: Seq<BorsEvent>) -> DbView
    decreases events.len(),
{
    if events.len() == 0 {
        v
    } else {
        on_event(run_state(v, prefix, bot_name, events.drop_last()), prefix, bot_name, events.last()).0
    }
}

/// The result of each event when `events` are handled in order from `v`.
pub open spec fn run_results(v: DbView, prefix: Seq<char>, bot_name: Seq<char>, events: Seq<BorsEvent>) -> Seq<
    Result<Seq<ActionView>, DbError>,
>
    decreases events.len(),
{
    if events.len() == 0 {
        Seq::empty()
    } else {
        run_results(v, prefix, bot_name, events.drop_last()).push(
            on_event(run_state(v, prefix, bot_name, events.drop_last()), prefix, bot_name, events.last()).1,
        )
    }
}

/// The owner of the store and of the bot's identity.
pub struct BorsActor {
    db: MemoryDbClient,
    prefix: String,
    bot_name: String,
}

impl BorsActor {
    /// The current content of the store.
    pub closed spec fn store(&self) -> DbView {
        self.db@
    }

    /// The mention that starts a command.
    pub closed spec fn prefix_view(&self) -> Seq<char> {
        self.prefix@
    }

    /// The account name of the bot itself.
    pub closed spec fn bot_name_view(&self) -> Seq<char> {
        self.bot_name@
    }

    /// The store is well formed.
    pub closed spec fn wf(&self) -> bool {
        db_wf(self.db@)
    }

    /// An actor with an empty store.
    pub fn new(prefix: &str, bot_name: &str) -> (r: BorsActor)
        ensures
            r.wf(),
            r.store().prs.len() == 0,
            r.store().builds.len() == 0,
            r.store().workflows.len() == 0,
            r.prefix_view() == prefix@,
            r.bot_name_view() == bot_name@,
    {
        BorsActor {
            db: MemoryDbClient::new(),
            prefix: String::from_str(prefix),
            bot_name: String::from_str(bot_name),
        }
    }

    /// Read access to the store.
    pub fn db(&self) -> (r: &MemoryDbClient)
        ensures
            r@ == self.store(),
            self.wf() ==> db_wf(r@),
    {
        &self.db
    }

    /// Handles one event.
    pub fn handle(&mut self, event: &BorsEvent) -> (r: Result<Vec<Action>, DbError>)
        requires
            old(self).wf(),
        ensures
            final(self).wf(),
            final(self).prefix_view() == old(self).prefix_view(),
            final(self).bot_name_view() == old(self).bot_name_view(),
            on_event(old(self).store(), old(self).prefix_view(), old(self).bot_name_view(), *event) == (
                final(self).store(),
                result_view(r),
            ),
    {
        handle_event(&mut self.db, self.prefix.as_str(), self.bot_name.as_str(), event)
    }

    /// Handles the events in order, each one to its end before the next; an
    /// event that fails leaves its error in the results and the rest go on.
    pub fn process_events(&mut self, events: &Vec<BorsEvent>) -> (r: Vec<Result<Vec<Action>, DbError>>)
        requires
            old(self).wf(),
        ensures
            final(self).wf(),
            final(self).prefix_view() == old(self).prefix_view(),
            final(self).bot_name_view() == old(self).bot_name_view(),
            final(self).store() == run_state(
                old(self).store(),
                old(self).prefix_view(),
                old(self).bot_name_view(),
                events@,
            ),
            r@.map_values(|x: Result<Vec<Action>, DbError>| result_view(x)) == run_results(
                old(self).store(),
                old(self).prefix_view(),
                old(self).bot_name_view(),
                events@,
            ),
    {
        let ghost v0 = self.store();
        let ghost p = self.prefix_view();
        let ghost b = self.bot_name_view();
        let mut results: Vec<Result<Vec<Action>, DbError>> = Vec::new();
        let mut i: usize = 0;
        while i < events.len()
            invariant
                i <= events.len(),
                self.wf(),
                self.prefix_view() == p,
                self.bot_name_view() == b,
                self.store() == run_state(v0, p, b, events@.subrange(0, i as int)),
                results@.map_values(|x: Result<Vec<Action>, DbError>| result_view(x)) == run_results(
                    v0,
                    p,
                    b,
                    events@.subrange(0, i as int),
                ),
            decreases events.len() - i,
        {
            let ghost before = results@.map_values(|x: Result<Vec<Action>, DbError>| result_view(x));
            proof {
                assert(events@.subrange(0, i as int + 1).drop_last() =~= events@.subrange(0, i as int));
            }
            let r = self.handle(&events[i]);
            results.push(r);
            proof {
                assert(results@.map_values(|x: Result<Vec<Action>, DbError>| result_view(x)) =~= before.push(
                    result_view(r),
                ));
            }
            i += 1;
        }
        proof {
            assert(events@.subrange(0, events@.len() as int) =~= events@);
        }
        results
    }
}

} // verus!
